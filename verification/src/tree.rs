//! The mathematical model of expression trees.
//!
//! A [`Tree`] is what an expression node stands for in contracts: the same
//! shape with sequences in place of vectors and strings. Every contract of
//! the rewriter is stated over trees.

use vstd::prelude::*;
use crate::block::Policy;
use crate::meta::{Attribute, Shape, SourceSpan};
use crate::op::{BinOp, UnOp};

verus! {

/// An expression, as contracts see it.
#[allow(inconsistent_fields)]
pub enum Tree {
    /// `left op right`, for any binary operator.
    BinaryOp { attrs: Seq<Attribute>, left: Box<Tree>, op: BinOp, right: Box<Tree> },
    /// `op operand`, for any unary operator.
    UnaryOp { attrs: Seq<Attribute>, op: UnOp, operand: Box<Tree> },
    /// `target = value`.
    Assign { attrs: Seq<Attribute>, target: Box<Tree>, span: SourceSpan, value: Box<Tree> },
    /// `receiver.method(args)`.
    Call {
        attrs: Seq<Attribute>,
        receiver: Box<Tree>,
        method: Seq<char>,
        span: SourceSpan,
        args: Seq<Tree>,
    },
    /// `base.index`, the access to a tuple field.
    FieldAccess { attrs: Seq<Attribute>, base: Box<Tree>, span: SourceSpan, index: u32 },
    /// `inner?`, which hands an absent result to the caller at once.
    Propagate { attrs: Seq<Attribute>, inner: Box<Tree>, span: SourceSpan },
    /// A string literal.
    Literal { attrs: Seq<Attribute>, text: Seq<char>, span: SourceSpan },
    /// `(inner)`.
    Paren { attrs: Seq<Attribute>, span: SourceSpan, inner: Box<Tree> },
    /// Any other form. Its nested expressions are kept in order.
    Other { shape: Shape, children: Seq<Tree> },
    /// A nested region with a policy of its own; `None` asks for the
    /// host's default arithmetic.
    Region { policy: Option<Policy>, body: Seq<StatementTree> },
}

/// A statement, as contracts see it: an opaque shape and the expressions
/// that stand in it, in order.
pub struct StatementTree {
    pub shape: Shape,
    pub exprs: Seq<Tree>,
}

impl Tree {
    /// The tree under any number of enclosing parentheses.
    pub open spec fn unparenthesized(self) -> Tree
        decreases self,
    {
        match self {
            Tree::Paren { inner, .. } => inner.unparenthesized(),
            _ => self,
        }
    }

    /// The number of levels of the tree that a rewriting pass walks
    /// through. A binary or unary operator counts for three, which leaves
    /// room for the nodes that replace it; a nested region is not entered.
    pub open spec fn height(self) -> nat
        decreases self,
    {
        match self {
            Tree::BinaryOp { left, right, .. } => 3 + max_nat(left.height(), right.height()),
            Tree::UnaryOp { operand, .. } => 3 + operand.height(),
            Tree::Assign { target, value, .. } => 1 + max_nat(target.height(), value.height()),
            Tree::Call { receiver, args, .. } => 1 + max_nat(receiver.height(), forest_height(args)),
            Tree::FieldAccess { base, .. } => 1 + base.height(),
            Tree::Propagate { inner, .. } => 1 + inner.height(),
            Tree::Literal { .. } => 1,
            Tree::Paren { inner, .. } => 1 + inner.height(),
            Tree::Other { children, .. } => 1 + forest_height(children),
            Tree::Region { .. } => 1,
        }
    }
}

/// The larger of two naturals.
pub open spec fn max_nat(a: nat, b: nat) -> nat {
    if a >= b {
        a
    } else {
        b
    }
}

/// The height of the tallest tree of a sequence, `0` for none.
pub open spec fn forest_height(trees: Seq<Tree>) -> nat
    decreases trees,
{
    if trees.len() == 0 {
        0
    } else {
        max_nat(trees.last().height(), forest_height(trees.drop_last()))
    }
}

/// No tree of a sequence is taller than the sequence.
pub proof fn lemma_forest_height_bounds(trees: Seq<Tree>, i: int)
    requires
        0 <= i < trees.len(),
    ensures
        trees[i].height() <= forest_height(trees),
    decreases trees.len(),
{
    if i < trees.len() - 1 {
        lemma_forest_height_bounds(trees.drop_last(), i);
    }
}

/// Taking parentheses off never makes a tree taller.
pub proof fn lemma_unparenthesized_height(tree: Tree)
    ensures
        tree.unparenthesized().height() <= tree.height(),
    decreases tree,
{
    match tree {
        Tree::Paren { inner, .. } => lemma_unparenthesized_height(*inner),
        _ => {},
    }
}

/// A sequence of one tree is as tall as the tree.
pub proof fn lemma_forest_height_one(tree: Tree)
    ensures
        forest_height(seq![tree]) == tree.height(),
{
    let trees = seq![tree];
    assert(trees.last() == tree);
    assert(trees.drop_last() =~= Seq::<Tree>::empty());
    assert(forest_height(trees.drop_last()) == 0);
}

} // verus!
