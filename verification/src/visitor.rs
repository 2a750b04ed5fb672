//! The pass that walks a tree and replaces its arithmetic operators.

use std::marker::PhantomData;
use std::mem::swap;
use vstd::prelude::*;
use crate::block::MathBlock;
use crate::expr::{
    empty_expr_binary, empty_expr_unary, method_call, trees_of, Assign, BinaryOp, ExpressionNode,
    Statement, UnaryOp,
};
use crate::op::{BinOp, BinOpKind};
use crate::rewrite::{
    lemma_replaced_height, lemma_walked_replaced, replaced, rewritten, rewritten_all,
    rewritten_statement, walked,
};
use crate::tree::{forest_height, lemma_forest_height_bounds};

verus! {

/// A rewriting pass under the policy `B`. It holds no state.
pub struct MathBlockVisitor<B>(pub PhantomData<B>);

impl<B> MathBlockVisitor<B> {
    /// A pass under the policy `B`.
    pub fn new() -> (visitor: Self)
        ensures
            visitor == MathBlockVisitor::<B>(PhantomData),
    {
        Self(PhantomData)
    }
}

impl<B: MathBlock> MathBlockVisitor<B> {
    /// Rewrites the expression in place.
    ///
    /// An operator that the policy has a method for is first replaced, at
    /// its own node, by the call of that method; the pass then goes on
    /// into the operands of whatever stands at the node by now. A compound
    /// assignment `x op= y` becomes `x = x.method(y)`, so `x` is
    /// evaluated twice.
    pub fn visit_expr_mut(&mut self, node: &mut ExpressionNode)
        ensures
            final(node)@ == rewritten(B::policy(), old(node)@),
            *final(self) == *old(self),
        decreases old(node)@.height(), 1int,
    {
        match node {
            ExpressionNode::BinaryOp(bin) => {
                if let Some(method_ident) = B::method_ident_bin(bin.op) {
                    let mut taken = empty_expr_binary();
                    swap(bin, &mut taken);
                    let BinaryOp { attrs, left, op, right } = taken;

                    *node = if is_assign(op) {
                        let call = method_call(
                            method_ident,
                            Box::new((*left).clone()),
                            Some(right),
                            op.span,
                            Vec::new(),
                        );

                        let expr = B::finalize_bin(ExpressionNode::Call(call), op);

                        ExpressionNode::Assign(
                            Assign { attrs, target: left, span: op.span, value: Box::new(expr) },
                        )
                    } else {
                        let call = method_call(method_ident, left, Some(right), op.span, attrs);

                        B::finalize_bin(ExpressionNode::Call(call), op)
                    };
                }
            },
            ExpressionNode::UnaryOp(un) => {
                if let Some(method_ident) = B::method_ident_un(un.op) {
                    let mut taken = empty_expr_unary();
                    swap(un, &mut taken);
                    let UnaryOp { attrs, op, operand } = taken;

                    let call = method_call(method_ident, operand, None, op.span, attrs);

                    *node = B::finalize_un(ExpressionNode::Call(call), op);
                }
            },
            _ => {},
        }

        proof {
            assert(node@ == replaced(B::policy(), old(node)@));
            lemma_replaced_height(B::policy(), old(node)@);
            lemma_walked_replaced(B::policy(), old(node)@);
        }
        self.walk_expr_mut(node);
    }

    /// Rewrites each operand of the node in place and keeps the node
    /// itself. A nested region is left as it is.
    pub fn walk_expr_mut(&mut self, node: &mut ExpressionNode)
        ensures
            final(node)@ == walked(B::policy(), old(node)@),
            *final(self) == *old(self),
        decreases old(node)@.height(), 0int,
    {
        match node {
            ExpressionNode::BinaryOp(bin) => {
                self.visit_expr_mut(&mut *bin.left);
                self.visit_expr_mut(&mut *bin.right);
            },
            ExpressionNode::UnaryOp(un) => {
                self.visit_expr_mut(&mut *un.operand);
            },
            ExpressionNode::Assign(assign) => {
                self.visit_expr_mut(&mut *assign.target);
                self.visit_expr_mut(&mut *assign.value);
            },
            ExpressionNode::Call(call) => {
                self.visit_expr_mut(&mut *call.receiver);
                self.visit_all(&mut call.args);
            },
            ExpressionNode::FieldAccess(field) => {
                self.visit_expr_mut(&mut *field.base);
            },
            ExpressionNode::Propagate(propagate) => {
                self.visit_expr_mut(&mut *propagate.inner);
            },
            ExpressionNode::Literal(_) => {},
            ExpressionNode::Paren(paren) => {
                self.visit_expr_mut(&mut *paren.inner);
            },
            ExpressionNode::Other(other) => {
                self.visit_all(&mut other.children);
            },
            ExpressionNode::Region(_) => {},
        }
    }

    /// Rewrites each expression of the list in place, in order.
    pub fn visit_all(&mut self, nodes: &mut Vec<ExpressionNode>)
        ensures
            trees_of(final(nodes)@) == rewritten_all(B::policy(), trees_of(old(nodes)@)),
            *final(self) == *old(self),
        decreases forest_height(trees_of(old(nodes)@)), 2int,
    {
        let mut i: usize = 0;
        while i < nodes.len()
            invariant
                i <= nodes.len(),
                nodes.len() == old(nodes).len(),
                forall|j: int|
                    0 <= j < i ==> (#[trigger] nodes@[j]).view() == rewritten(
                        B::policy(),
                        old(nodes)@[j].view(),
                    ),
                forall|j: int| i <= j < nodes.len() ==> #[trigger] nodes@[j] == old(nodes)@[j],
            decreases nodes.len() - i,
        {
            proof {
                lemma_forest_height_bounds(trees_of(old(nodes)@), i as int);
            }
            self.visit_expr_mut(&mut nodes[i]);
            i = i + 1;
        }
        assert(trees_of(nodes@) =~= rewritten_all(B::policy(), trees_of(old(nodes)@)));
    }

    /// Rewrites each expression of the statement in place.
    pub fn visit_stmt_mut(&mut self, stmt: &mut Statement)
        ensures
            final(stmt)@ == rewritten_statement(B::policy(), old(stmt)@),
            *final(self) == *old(self),
    {
        self.visit_all(&mut stmt.exprs);
    }
}

/// Whether the operator is a compound assignment such as `+=`.
pub fn is_assign(op: BinOp) -> (compound: bool)
    ensures
        compound == op.kind.compound(),
{
    match op.kind {
        BinOpKind::Add
        | BinOpKind::Sub
        | BinOpKind::Mul
        | BinOpKind::Div
        | BinOpKind::Rem
        | BinOpKind::And
        | BinOpKind::Or
        | BinOpKind::BitXor
        | BinOpKind::BitAnd
        | BinOpKind::BitOr
        | BinOpKind::Shl
        | BinOpKind::Shr
        | BinOpKind::Eq
        | BinOpKind::Lt
        | BinOpKind::Le
        | BinOpKind::Ne
        | BinOpKind::Ge
        | BinOpKind::Gt => false,
        BinOpKind::AddAssign
        | BinOpKind::SubAssign
        | BinOpKind::MulAssign
        | BinOpKind::DivAssign
        | BinOpKind::RemAssign
        | BinOpKind::BitXorAssign
        | BinOpKind::BitAndAssign
        | BinOpKind::BitOrAssign
        | BinOpKind::ShlAssign
        | BinOpKind::ShrAssign => true,
    }
}

} // verus!
