//! Overflow policies: which operation replaces an operator, and what is
//! built around the call of that operation.

use vstd::prelude::*;
use crate::expr::{
    call_tree, method_call, ExpressionNode, FieldAccess, Literal, Propagate,
};
use crate::meta::SourceSpan;
use crate::op::{BinOp, BinOpKind, OperatorKind, UnOp, UnOpKind};
use crate::tree::Tree;

verus! {

/// How arithmetic that would overflow is handled.
#[derive(Clone, Copy, Debug, PartialEq, Eq, Hash, Structural)]
pub enum Policy {
    /// Panic with the message of the operator.
    Checked,
    /// Keep the wrapped value and drop the overflow flag.
    Overflowing,
    /// Stop at the bounds of the type.
    Saturating,
    /// Hand the absent result to the caller of the enclosing function.
    Propagating,
    /// Wrap around.
    Wrapping,
}

impl OperatorKind {
    /// The word for the operation in the names of the safe methods.
    pub open spec fn word(self) -> Seq<char> {
        match self {
            OperatorKind::Add => "add"@,
            OperatorKind::Sub => "sub"@,
            OperatorKind::Mul => "mul"@,
            OperatorKind::Div => "div"@,
            OperatorKind::Rem => "rem"@,
            OperatorKind::Shl => "shl"@,
            OperatorKind::Shr => "shr"@,
            OperatorKind::Negate => "negate"@,
        }
    }

    /// What a checked operation panics with when it has no result.
    pub open spec fn diagnostic(self) -> Seq<char> {
        match self {
            OperatorKind::Add => "attempt to add with overflow"@,
            OperatorKind::Sub => "attempt to subtract with overflow"@,
            OperatorKind::Mul => "attempt to multiply with overflow"@,
            OperatorKind::Div => "attempt to divide by zero"@,
            OperatorKind::Rem => "attempt to calculate the remainder with a divisor of zero"@,
            OperatorKind::Shl => "attempt to shift left with overflow"@,
            OperatorKind::Shr => "attempt to shift right with overflow"@,
            OperatorKind::Negate => "attempt to negate with overflow"@,
        }
    }
}

impl Policy {
    /// The family of safe methods that the policy calls. Propagating
    /// calls the checked methods too and differs in what it does with
    /// their result.
    pub open spec fn family(self) -> Seq<char> {
        match self {
            Policy::Checked | Policy::Propagating => "checked"@,
            Policy::Overflowing => "overflowing"@,
            Policy::Saturating => "saturating"@,
            Policy::Wrapping => "wrapping"@,
        }
    }

    /// Whether the family has a method for the operation. There is no
    /// saturating remainder and no saturating shift.
    pub open spec fn covers(self, kind: OperatorKind) -> bool {
        self is Saturating ==> !(kind is Rem || kind is Shl || kind is Shr)
    }

    /// The policy table: the name of the method that replaces the
    /// operation, `family_word`, or `None` where the operation keeps the
    /// host's default behaviour.
    pub open spec fn replacement(self, kind: OperatorKind) -> Option<Seq<char>> {
        if self.covers(kind) {
            Some(self.family() + seq!['_'] + kind.word())
        } else {
            None
        }
    }

    /// The table entry of a binary operator, in either of its forms.
    pub open spec fn replacement_bin(self, op: BinOpKind) -> Option<Seq<char>> {
        match op.arithmetic() {
            Some(kind) => self.replacement(kind),
            None => None,
        }
    }

    /// The table entry of a unary operator.
    pub open spec fn replacement_un(self, op: UnOpKind) -> Option<Seq<char>> {
        match op.arithmetic() {
            Some(kind) => self.replacement(kind),
            None => None,
        }
    }

    /// What the policy builds around the call `call` that replaces an
    /// operator of the given kind which stood at `span`.
    pub open spec fn finalized(self, call: Tree, kind: Option<OperatorKind>, span: SourceSpan) -> Tree {
        match self {
            Policy::Checked => match kind {
                Some(kind) => call_tree(
                    "expect"@,
                    call,
                    Some(Tree::Literal { attrs: Seq::empty(), text: kind.diagnostic(), span }),
                    span,
                    Seq::empty(),
                ),
                None => call_tree("unwrap"@, call, None, span, Seq::empty()),
            },
            Policy::Overflowing => Tree::FieldAccess {
                attrs: Seq::empty(),
                base: Box::new(call),
                span,
                index: 0,
            },
            Policy::Saturating | Policy::Wrapping => call,
            Policy::Propagating => Tree::Propagate {
                attrs: Seq::empty(),
                inner: Box::new(call),
                span,
            },
        }
    }

    /// What the policy builds around the call that replaces `op`.
    pub open spec fn finalized_bin(self, call: Tree, op: BinOp) -> Tree {
        self.finalized(call, op.kind.arithmetic(), op.span)
    }

    /// What the policy builds around the call that replaces `op`.
    pub open spec fn finalized_un(self, call: Tree, op: UnOp) -> Tree {
        self.finalized(call, op.kind.arithmetic(), op.span)
    }
}

/// The characters of a name that may be absent.
pub open spec fn name_of(name: Option<&'static str>) -> Option<Seq<char>> {
    match name {
        Some(text) => Some(text@),
        None => None,
    }
}

/// An overflow policy, chosen once for a whole pass over a region.
pub trait MathBlock {
    /// Which of the policies this is.
    spec fn policy() -> Policy;

    /// The method that replaces the binary operator, if the policy has
    /// one for it.
    fn method_ident_bin(op: BinOp) -> (name: Option<&'static str>)
        ensures
            name_of(name) == Self::policy().replacement_bin(op.kind),
    ;

    /// The method that replaces the unary operator, if the policy has one
    /// for it.
    fn method_ident_un(op: UnOp) -> (name: Option<&'static str>)
        ensures
            name_of(name) == Self::policy().replacement_un(op.kind),
    ;

    /// Turns the call that replaces the binary operator into the
    /// expression that stands in its place.
    fn finalize_bin(expr: ExpressionNode, op: BinOp) -> (out: ExpressionNode)
        ensures
            out@ == Self::policy().finalized_bin(expr@, op),
    ;

    /// Turns the call that replaces the unary operator into the
    /// expression that stands in its place.
    fn finalize_un(expr: ExpressionNode, op: UnOp) -> (out: ExpressionNode)
        ensures
            out@ == Self::policy().finalized_un(expr@, op),
    ;
}

/// Panics where the operation has no result.
pub struct Checked;

/// Keeps the wrapped value and drops the overflow flag.
pub struct Overflowing;

/// Stops at the bounds of the type.
pub struct Saturating;

/// Returns the absent result from the enclosing function.
pub struct Propagating;

/// Wraps around.
pub struct Wrapping;

/// The names of the checked methods are spelled as the table says.
proof fn lemma_checked_names()
    ensures
        "checked_add"@ == "checked"@ + seq!['_'] + "add"@,
        "checked_sub"@ == "checked"@ + seq!['_'] + "sub"@,
        "checked_mul"@ == "checked"@ + seq!['_'] + "mul"@,
        "checked_div"@ == "checked"@ + seq!['_'] + "div"@,
        "checked_rem"@ == "checked"@ + seq!['_'] + "rem"@,
        "checked_shl"@ == "checked"@ + seq!['_'] + "shl"@,
        "checked_shr"@ == "checked"@ + seq!['_'] + "shr"@,
        "checked_negate"@ == "checked"@ + seq!['_'] + "negate"@,
{
    reveal_strlit("checked");
    reveal_strlit("add");
    reveal_strlit("sub");
    reveal_strlit("mul");
    reveal_strlit("div");
    reveal_strlit("rem");
    reveal_strlit("shl");
    reveal_strlit("shr");
    reveal_strlit("negate");
    reveal_strlit("checked_add");
    reveal_strlit("checked_sub");
    reveal_strlit("checked_mul");
    reveal_strlit("checked_div");
    reveal_strlit("checked_rem");
    reveal_strlit("checked_shl");
    reveal_strlit("checked_shr");
    reveal_strlit("checked_negate");
    assert("checked_add"@ =~= "checked"@ + seq!['_'] + "add"@);
    assert("checked_sub"@ =~= "checked"@ + seq!['_'] + "sub"@);
    assert("checked_mul"@ =~= "checked"@ + seq!['_'] + "mul"@);
    assert("checked_div"@ =~= "checked"@ + seq!['_'] + "div"@);
    assert("checked_rem"@ =~= "checked"@ + seq!['_'] + "rem"@);
    assert("checked_shl"@ =~= "checked"@ + seq!['_'] + "shl"@);
    assert("checked_shr"@ =~= "checked"@ + seq!['_'] + "shr"@);
    assert("checked_negate"@ =~= "checked"@ + seq!['_'] + "negate"@);
}

impl MathBlock for Checked {
    open spec fn policy() -> Policy {
        Policy::Checked
    }

    fn method_ident_bin(op: BinOp) -> (name: Option<&'static str>) {
        proof {
            lemma_checked_names();
        }
        match op.kind {
            BinOpKind::Add | BinOpKind::AddAssign => Some("checked_add"),
            BinOpKind::Sub | BinOpKind::SubAssign => Some("checked_sub"),
            BinOpKind::Mul | BinOpKind::MulAssign => Some("checked_mul"),
            BinOpKind::Div | BinOpKind::DivAssign => Some("checked_div"),
            BinOpKind::Rem | BinOpKind::RemAssign => Some("checked_rem"),
            BinOpKind::Shl | BinOpKind::ShlAssign => Some("checked_shl"),
            BinOpKind::Shr | BinOpKind::ShrAssign => Some("checked_shr"),
            _ => None,
        }
    }

    fn method_ident_un(op: UnOp) -> (name: Option<&'static str>) {
        proof {
            lemma_checked_names();
        }
        match op.kind {
            UnOpKind::Neg => Some("checked_negate"),
            _ => None,
        }
    }

    fn finalize_bin(expr: ExpressionNode, op: BinOp) -> (out: ExpressionNode) {
        let error = match op.kind {
            BinOpKind::Add | BinOpKind::AddAssign => Some("attempt to add with overflow"),
            BinOpKind::Sub | BinOpKind::SubAssign => Some("attempt to subtract with overflow"),
            BinOpKind::Mul | BinOpKind::MulAssign => Some("attempt to multiply with overflow"),
            BinOpKind::Div | BinOpKind::DivAssign => Some("attempt to divide by zero"),
            BinOpKind::Rem | BinOpKind::RemAssign => {
                Some("attempt to calculate the remainder with a divisor of zero")
            },
            BinOpKind::Shl | BinOpKind::ShlAssign => Some("attempt to shift left with overflow"),
            BinOpKind::Shr | BinOpKind::ShrAssign => Some("attempt to shift right with overflow"),
            _ => None,
        };

        let call = if let Some(error) = error {
            method_call(
                "expect",
                Box::new(expr),
                Some(
                    Box::new(
                        ExpressionNode::Literal(
                            Literal { attrs: Vec::new(), text: error.to_owned(), span: op.span },
                        ),
                    ),
                ),
                op.span,
                Vec::new(),
            )
        } else {
            method_call("unwrap", Box::new(expr), None, op.span, Vec::new())
        };
        ExpressionNode::Call(call)
    }

    fn finalize_un(expr: ExpressionNode, op: UnOp) -> (out: ExpressionNode) {
        let error = match op.kind {
            UnOpKind::Neg => Some("attempt to negate with overflow"),
            _ => None,
        };

        let call = if let Some(error) = error {
            method_call(
                "expect",
                Box::new(expr),
                Some(
                    Box::new(
                        ExpressionNode::Literal(
                            Literal { attrs: Vec::new(), text: error.to_owned(), span: op.span },
                        ),
                    ),
                ),
                op.span,
                Vec::new(),
            )
        } else {
            method_call("unwrap", Box::new(expr), None, op.span, Vec::new())
        };
        ExpressionNode::Call(call)
    }
}

/// The names of the overflowing methods are spelled as the table says.
proof fn lemma_overflowing_names()
    ensures
        "overflowing_add"@ == "overflowing"@ + seq!['_'] + "add"@,
        "overflowing_sub"@ == "overflowing"@ + seq!['_'] + "sub"@,
        "overflowing_mul"@ == "overflowing"@ + seq!['_'] + "mul"@,
        "overflowing_div"@ == "overflowing"@ + seq!['_'] + "div"@,
        "overflowing_rem"@ == "overflowing"@ + seq!['_'] + "rem"@,
        "overflowing_shl"@ == "overflowing"@ + seq!['_'] + "shl"@,
        "overflowing_shr"@ == "overflowing"@ + seq!['_'] + "shr"@,
        "overflowing_negate"@ == "overflowing"@ + seq!['_'] + "negate"@,
{
    reveal_strlit("overflowing");
    reveal_strlit("add");
    reveal_strlit("sub");
    reveal_strlit("mul");
    reveal_strlit("div");
    reveal_strlit("rem");
    reveal_strlit("shl");
    reveal_strlit("shr");
    reveal_strlit("negate");
    reveal_strlit("overflowing_add");
    reveal_strlit("overflowing_sub");
    reveal_strlit("overflowing_mul");
    reveal_strlit("overflowing_div");
    reveal_strlit("overflowing_rem");
    reveal_strlit("overflowing_shl");
    reveal_strlit("overflowing_shr");
    reveal_strlit("overflowing_negate");
    assert("overflowing_add"@ =~= "overflowing"@ + seq!['_'] + "add"@);
    assert("overflowing_sub"@ =~= "overflowing"@ + seq!['_'] + "sub"@);
    assert("overflowing_mul"@ =~= "overflowing"@ + seq!['_'] + "mul"@);
    assert("overflowing_div"@ =~= "overflowing"@ + seq!['_'] + "div"@);
    assert("overflowing_rem"@ =~= "overflowing"@ + seq!['_'] + "rem"@);
    assert("overflowing_shl"@ =~= "overflowing"@ + seq!['_'] + "shl"@);
    assert("overflowing_shr"@ =~= "overflowing"@ + seq!['_'] + "shr"@);
    assert("overflowing_negate"@ =~= "overflowing"@ + seq!['_'] + "negate"@);
}

impl MathBlock for Overflowing {
    open spec fn policy() -> Policy {
        Policy::Overflowing
    }

    fn method_ident_bin(op: BinOp) -> (name: Option<&'static str>) {
        proof {
            lemma_overflowing_names();
        }
        match op.kind {
            BinOpKind::Add | BinOpKind::AddAssign => Some("overflowing_add"),
            BinOpKind::Sub | BinOpKind::SubAssign => Some("overflowing_sub"),
            BinOpKind::Mul | BinOpKind::MulAssign => Some("overflowing_mul"),
            BinOpKind::Div | BinOpKind::DivAssign => Some("overflowing_div"),
            BinOpKind::Rem | BinOpKind::RemAssign => Some("overflowing_rem"),
            BinOpKind::Shl | BinOpKind::ShlAssign => Some("overflowing_shl"),
            BinOpKind::Shr | BinOpKind::ShrAssign => Some("overflowing_shr"),
            _ => None,
        }
    }

    fn method_ident_un(op: UnOp) -> (name: Option<&'static str>) {
        proof {
            lemma_overflowing_names();
        }
        match op.kind {
            UnOpKind::Neg => Some("overflowing_negate"),
            _ => None,
        }
    }

    fn finalize_bin(expr: ExpressionNode, op: BinOp) -> (out: ExpressionNode) {
        ExpressionNode::FieldAccess(
            FieldAccess { attrs: Vec::new(), base: Box::new(expr), span: op.span, index: 0 },
        )
    }

    fn finalize_un(expr: ExpressionNode, op: UnOp) -> (out: ExpressionNode) {
        ExpressionNode::FieldAccess(
            FieldAccess { attrs: Vec::new(), base: Box::new(expr), span: op.span, index: 0 },
        )
    }
}

/// The names of the saturating methods are spelled as the table says.
proof fn lemma_saturating_names()
    ensures
        "saturating_add"@ == "saturating"@ + seq!['_'] + "add"@,
        "saturating_sub"@ == "saturating"@ + seq!['_'] + "sub"@,
        "saturating_mul"@ == "saturating"@ + seq!['_'] + "mul"@,
        "saturating_div"@ == "saturating"@ + seq!['_'] + "div"@,
        "saturating_negate"@ == "saturating"@ + seq!['_'] + "negate"@,
{
    reveal_strlit("saturating");
    reveal_strlit("add");
    reveal_strlit("sub");
    reveal_strlit("mul");
    reveal_strlit("div");
    reveal_strlit("negate");
    reveal_strlit("saturating_add");
    reveal_strlit("saturating_sub");
    reveal_strlit("saturating_mul");
    reveal_strlit("saturating_div");
    reveal_strlit("saturating_negate");
    assert("saturating_add"@ =~= "saturating"@ + seq!['_'] + "add"@);
    assert("saturating_sub"@ =~= "saturating"@ + seq!['_'] + "sub"@);
    assert("saturating_mul"@ =~= "saturating"@ + seq!['_'] + "mul"@);
    assert("saturating_div"@ =~= "saturating"@ + seq!['_'] + "div"@);
    assert("saturating_negate"@ =~= "saturating"@ + seq!['_'] + "negate"@);
}

impl MathBlock for Saturating {
    open spec fn policy() -> Policy {
        Policy::Saturating
    }

    fn method_ident_bin(op: BinOp) -> (name: Option<&'static str>) {
        proof {
            lemma_saturating_names();
        }
        match op.kind {
            BinOpKind::Add | BinOpKind::AddAssign => Some("saturating_add"),
            BinOpKind::Sub | BinOpKind::SubAssign => Some("saturating_sub"),
            BinOpKind::Mul | BinOpKind::MulAssign => Some("saturating_mul"),
            BinOpKind::Div | BinOpKind::DivAssign => Some("saturating_div"),
            _ => None,
        }
    }

    fn method_ident_un(op: UnOp) -> (name: Option<&'static str>) {
        proof {
            lemma_saturating_names();
        }
        match op.kind {
            UnOpKind::Neg => Some("saturating_negate"),
            _ => None,
        }
    }

    fn finalize_bin(expr: ExpressionNode, op: BinOp) -> (out: ExpressionNode) {
        let _ = op;
        expr
    }

    fn finalize_un(expr: ExpressionNode, op: UnOp) -> (out: ExpressionNode) {
        let _ = op;
        expr
    }
}

impl MathBlock for Propagating {
    open spec fn policy() -> Policy {
        Policy::Propagating
    }

    fn method_ident_bin(op: BinOp) -> (name: Option<&'static str>) {
        Checked::method_ident_bin(op)
    }

    fn method_ident_un(op: UnOp) -> (name: Option<&'static str>) {
        Checked::method_ident_un(op)
    }

    fn finalize_bin(expr: ExpressionNode, op: BinOp) -> (out: ExpressionNode) {
        ExpressionNode::Propagate(
            Propagate { attrs: Vec::new(), inner: Box::new(expr), span: op.span },
        )
    }

    fn finalize_un(expr: ExpressionNode, op: UnOp) -> (out: ExpressionNode) {
        ExpressionNode::Propagate(
            Propagate { attrs: Vec::new(), inner: Box::new(expr), span: op.span },
        )
    }
}

/// The names of the wrapping methods are spelled as the table says.
proof fn lemma_wrapping_names()
    ensures
        "wrapping_add"@ == "wrapping"@ + seq!['_'] + "add"@,
        "wrapping_sub"@ == "wrapping"@ + seq!['_'] + "sub"@,
        "wrapping_mul"@ == "wrapping"@ + seq!['_'] + "mul"@,
        "wrapping_div"@ == "wrapping"@ + seq!['_'] + "div"@,
        "wrapping_rem"@ == "wrapping"@ + seq!['_'] + "rem"@,
        "wrapping_shl"@ == "wrapping"@ + seq!['_'] + "shl"@,
        "wrapping_shr"@ == "wrapping"@ + seq!['_'] + "shr"@,
        "wrapping_negate"@ == "wrapping"@ + seq!['_'] + "negate"@,
{
    reveal_strlit("wrapping");
    reveal_strlit("add");
    reveal_strlit("sub");
    reveal_strlit("mul");
    reveal_strlit("div");
    reveal_strlit("rem");
    reveal_strlit("shl");
    reveal_strlit("shr");
    reveal_strlit("negate");
    reveal_strlit("wrapping_add");
    reveal_strlit("wrapping_sub");
    reveal_strlit("wrapping_mul");
    reveal_strlit("wrapping_div");
    reveal_strlit("wrapping_rem");
    reveal_strlit("wrapping_shl");
    reveal_strlit("wrapping_shr");
    reveal_strlit("wrapping_negate");
    assert("wrapping_add"@ =~= "wrapping"@ + seq!['_'] + "add"@);
    assert("wrapping_sub"@ =~= "wrapping"@ + seq!['_'] + "sub"@);
    assert("wrapping_mul"@ =~= "wrapping"@ + seq!['_'] + "mul"@);
    assert("wrapping_div"@ =~= "wrapping"@ + seq!['_'] + "div"@);
    assert("wrapping_rem"@ =~= "wrapping"@ + seq!['_'] + "rem"@);
    assert("wrapping_shl"@ =~= "wrapping"@ + seq!['_'] + "shl"@);
    assert("wrapping_shr"@ =~= "wrapping"@ + seq!['_'] + "shr"@);
    assert("wrapping_negate"@ =~= "wrapping"@ + seq!['_'] + "negate"@);
}

impl MathBlock for Wrapping {
    open spec fn policy() -> Policy {
        Policy::Wrapping
    }

    fn method_ident_bin(op: BinOp) -> (name: Option<&'static str>) {
        proof {
            lemma_wrapping_names();
        }
        match op.kind {
            BinOpKind::Add | BinOpKind::AddAssign => Some("wrapping_add"),
            BinOpKind::Sub | BinOpKind::SubAssign => Some("wrapping_sub"),
            BinOpKind::Mul | BinOpKind::MulAssign => Some("wrapping_mul"),
            BinOpKind::Div | BinOpKind::DivAssign => Some("wrapping_div"),
            BinOpKind::Rem | BinOpKind::RemAssign => Some("wrapping_rem"),
            BinOpKind::Shl | BinOpKind::ShlAssign => Some("wrapping_shl"),
            BinOpKind::Shr | BinOpKind::ShrAssign => Some("wrapping_shr"),
            _ => None,
        }
    }

    fn method_ident_un(op: UnOp) -> (name: Option<&'static str>) {
        proof {
            lemma_wrapping_names();
        }
        match op.kind {
            UnOpKind::Neg => Some("wrapping_negate"),
            _ => None,
        }
    }

    fn finalize_bin(expr: ExpressionNode, op: BinOp) -> (out: ExpressionNode) {
        let _ = op;
        expr
    }

    fn finalize_un(expr: ExpressionNode, op: UnOp) -> (out: ExpressionNode) {
        let _ = op;
        expr
    }
}

} // verus!
