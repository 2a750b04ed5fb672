//! Operators: the arithmetic kinds that a policy can replace, and the
//! operator tokens found in expression trees.

use vstd::prelude::*;
use crate::meta::SourceSpan;

verus! {

/// The arithmetic operations that an overflow policy knows about.
#[derive(Clone, Copy, Debug, PartialEq, Eq, Hash, Structural)]
pub enum OperatorKind {
    Add,
    Sub,
    Mul,
    Div,
    Rem,
    Shl,
    Shr,
    Negate,
}

/// Every binary operator, in its plain and compound-assignment forms.
#[derive(Clone, Copy, Debug, PartialEq, Eq, Hash, Structural)]
pub enum BinOpKind {
    Add,
    Sub,
    Mul,
    Div,
    Rem,
    And,
    Or,
    BitXor,
    BitAnd,
    BitOr,
    Shl,
    Shr,
    Eq,
    Lt,
    Le,
    Ne,
    Ge,
    Gt,
    AddAssign,
    SubAssign,
    MulAssign,
    DivAssign,
    RemAssign,
    BitXorAssign,
    BitAndAssign,
    BitOrAssign,
    ShlAssign,
    ShrAssign,
}

impl BinOpKind {
    /// The arithmetic operation behind this operator, in either form.
    /// Comparisons, logical and bitwise operators have none.
    pub open spec fn arithmetic(self) -> Option<OperatorKind> {
        match self {
            BinOpKind::Add | BinOpKind::AddAssign => Some(OperatorKind::Add),
            BinOpKind::Sub | BinOpKind::SubAssign => Some(OperatorKind::Sub),
            BinOpKind::Mul | BinOpKind::MulAssign => Some(OperatorKind::Mul),
            BinOpKind::Div | BinOpKind::DivAssign => Some(OperatorKind::Div),
            BinOpKind::Rem | BinOpKind::RemAssign => Some(OperatorKind::Rem),
            BinOpKind::Shl | BinOpKind::ShlAssign => Some(OperatorKind::Shl),
            BinOpKind::Shr | BinOpKind::ShrAssign => Some(OperatorKind::Shr),
            _ => None,
        }
    }

    /// Whether this is a compound-assignment form such as `+=`.
    pub open spec fn compound(self) -> bool {
        self is AddAssign || self is SubAssign || self is MulAssign || self is DivAssign
            || self is RemAssign || self is BitXorAssign || self is BitAndAssign
            || self is BitOrAssign || self is ShlAssign || self is ShrAssign
    }
}

/// A binary operator token: which operator, and where it stood.
#[derive(Clone, Copy, Debug, PartialEq, Eq, Hash, Structural)]
pub struct BinOp {
    pub kind: BinOpKind,
    pub span: SourceSpan,
}

/// Every unary operator.
#[derive(Clone, Copy, Debug, PartialEq, Eq, Hash, Structural)]
pub enum UnOpKind {
    Deref,
    Not,
    Neg,
}

impl UnOpKind {
    /// The arithmetic operation behind this operator: negation or none.
    pub open spec fn arithmetic(self) -> Option<OperatorKind> {
        match self {
            UnOpKind::Neg => Some(OperatorKind::Negate),
            _ => None,
        }
    }
}

/// A unary operator token: which operator, and where it stood.
#[derive(Clone, Copy, Debug, PartialEq, Eq, Hash, Structural)]
pub struct UnOp {
    pub kind: UnOpKind,
    pub span: SourceSpan,
}

} // verus!
