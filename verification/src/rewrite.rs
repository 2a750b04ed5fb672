//! What a rewriting pass makes of a tree, stated over the model.

use vstd::prelude::*;
use crate::block::Policy;
use crate::expr::call_tree;
use crate::meta::SourceSpan;
use crate::op::OperatorKind;
use crate::tree::{
    forest_height, lemma_forest_height_one, lemma_unparenthesized_height, StatementTree, Tree,
};

verus! {

/// Parentheses are taken off from the inside of the tree only: what is
/// left is the tree itself or stands below it.
pub proof fn lemma_unparenthesized_below(tree: Tree)
    ensures
        tree.unparenthesized() == tree || decreases_to!(tree => tree.unparenthesized()),
    decreases tree,
{
    match tree {
        Tree::Paren { inner, .. } => {
            lemma_unparenthesized_below(*inner);
        },
        _ => {},
    }
}

/// The tree after a pass under `policy`.
///
/// An operator that the policy has a method for becomes the call of that
/// method on the rewritten left operand, with the rewritten right operand
/// as argument, inside whatever the policy builds around such a call. A
/// compound assignment becomes the assignment of that expression to the
/// rewritten left operand, which therefore occurs twice. Every other node
/// stays, with its operands rewritten.
pub open spec fn rewritten(policy: Policy, tree: Tree) -> Tree
    decreases tree, 1int,
{
    match tree {
        Tree::BinaryOp { attrs, left, op, right } => match policy.replacement_bin(op.kind) {
            Some(method) => {
                let receiver = rewritten(policy, *left);
                let argument = {
                    proof {
                        lemma_unparenthesized_below(*right);
                    }
                    rewritten(policy, right.unparenthesized())
                };
                if op.kind.compound() {
                    let call = Tree::Call {
                        attrs: Seq::empty(),
                        receiver: Box::new(receiver),
                        method,
                        span: op.span,
                        args: seq![argument],
                    };
                    Tree::Assign {
                        attrs,
                        target: Box::new(receiver),
                        span: op.span,
                        value: Box::new(policy.finalized_bin(call, op)),
                    }
                } else {
                    let call = Tree::Call {
                        attrs,
                        receiver: Box::new(receiver),
                        method,
                        span: op.span,
                        args: seq![argument],
                    };
                    policy.finalized_bin(call, op)
                }
            },
            None => walked(policy, tree),
        },
        Tree::UnaryOp { attrs, op, operand } => match policy.replacement_un(op.kind) {
            Some(method) => {
                let call = Tree::Call {
                    attrs,
                    receiver: Box::new(rewritten(policy, *operand)),
                    method,
                    span: op.span,
                    args: Seq::empty(),
                };
                policy.finalized_un(call, op)
            },
            None => walked(policy, tree),
        },
        _ => walked(policy, tree),
    }
}

/// The tree with each of its operands rewritten and its own node kept.
/// A nested region is not entered.
pub open spec fn walked(policy: Policy, tree: Tree) -> Tree
    decreases tree, 0int,
{
    match tree {
        Tree::BinaryOp { attrs, left, op, right } => Tree::BinaryOp {
            attrs,
            left: Box::new(rewritten(policy, *left)),
            op,
            right: Box::new(rewritten(policy, *right)),
        },
        Tree::UnaryOp { attrs, op, operand } => Tree::UnaryOp {
            attrs,
            op,
            operand: Box::new(rewritten(policy, *operand)),
        },
        Tree::Assign { attrs, target, span, value } => Tree::Assign {
            attrs,
            target: Box::new(rewritten(policy, *target)),
            span,
            value: Box::new(rewritten(policy, *value)),
        },
        Tree::Call { attrs, receiver, method, span, args } => Tree::Call {
            attrs,
            receiver: Box::new(rewritten(policy, *receiver)),
            method,
            span,
            args: rewritten_all(policy, args),
        },
        Tree::FieldAccess { attrs, base, span, index } => Tree::FieldAccess {
            attrs,
            base: Box::new(rewritten(policy, *base)),
            span,
            index,
        },
        Tree::Propagate { attrs, inner, span } => Tree::Propagate {
            attrs,
            inner: Box::new(rewritten(policy, *inner)),
            span,
        },
        Tree::Literal { .. } => tree,
        Tree::Paren { attrs, span, inner } => Tree::Paren {
            attrs,
            span,
            inner: Box::new(rewritten(policy, *inner)),
        },
        Tree::Other { shape, children } => Tree::Other {
            shape,
            children: rewritten_all(policy, children),
        },
        Tree::Region { .. } => tree,
    }
}

/// Each tree of the sequence after a pass under `policy`, in order.
pub open spec fn rewritten_all(policy: Policy, trees: Seq<Tree>) -> Seq<Tree>
    decreases trees, 0int,
{
    Seq::new(
        trees.len(),
        |i: int|
            if 0 <= i < trees.len() {
                rewritten(policy, trees[i])
            } else {
                arbitrary()
            },
    )
}

/// The statement after a pass under `policy`.
pub open spec fn rewritten_statement(policy: Policy, statement: StatementTree) -> StatementTree {
    StatementTree { shape: statement.shape, exprs: rewritten_all(policy, statement.exprs) }
}

/// Each statement of the sequence after a pass under `policy`, in order.
pub open spec fn rewritten_statements(policy: Policy, statements: Seq<StatementTree>) -> Seq<
    StatementTree,
> {
    Seq::new(statements.len(), |i: int| rewritten_statement(policy, statements[i]))
}

/// What the pass puts in the place of the node at the root of `tree`,
/// before it goes on into the operands of what it has put there.
pub open spec fn replaced(policy: Policy, tree: Tree) -> Tree {
    match tree {
        Tree::BinaryOp { attrs, left, op, right } => match policy.replacement_bin(op.kind) {
            Some(method) => {
                if op.kind.compound() {
                    Tree::Assign {
                        attrs,
                        target: left,
                        span: op.span,
                        value: Box::new(
                            policy.finalized_bin(
                                call_tree(method, *left, Some(*right), op.span, Seq::empty()),
                                op,
                            ),
                        ),
                    }
                } else {
                    policy.finalized_bin(call_tree(method, *left, Some(*right), op.span, attrs), op)
                }
            },
            None => tree,
        },
        Tree::UnaryOp { attrs, op, operand } => match policy.replacement_un(op.kind) {
            Some(method) => policy.finalized_un(
                call_tree(method, *operand, None, op.span, attrs),
                op,
            ),
            None => tree,
        },
        _ => tree,
    }
}

/// A pass over one tree alone rewrites that tree.
pub proof fn lemma_rewritten_all_one(policy: Policy, tree: Tree)
    ensures
        rewritten_all(policy, seq![tree]) == seq![rewritten(policy, tree)],
{
    assert(seq![tree][0] == tree);
    assert(rewritten_all(policy, seq![tree]) =~= seq![rewritten(policy, tree)]);
}

/// A pass over no tree leaves none.
pub proof fn lemma_rewritten_all_none(policy: Policy)
    ensures
        rewritten_all(policy, Seq::empty()) == Seq::<Tree>::empty(),
{
    assert(rewritten_all(policy, Seq::empty()) =~= Seq::<Tree>::empty());
}

/// Going into the operands of what a policy has built around a call
/// rewrites the call and leaves the rest as it is.
pub proof fn lemma_walked_finalized(
    policy: Policy,
    call: Tree,
    kind: Option<OperatorKind>,
    span: SourceSpan,
)
    requires
        call is Call,
    ensures
        policy is Saturating || policy is Wrapping ==> policy.finalized(call, kind, span) == call,
        !(policy is Saturating || policy is Wrapping) ==> walked(
            policy,
            policy.finalized(call, kind, span),
        ) == policy.finalized(walked(policy, call), kind, span),
{
    match policy {
        Policy::Checked => {
            match kind {
                Some(kind) => {
                    let message = Tree::Literal {
                        attrs: Seq::empty(),
                        text: kind.diagnostic(),
                        span,
                    };
                    lemma_rewritten_all_one(policy, message);
                    assert(message.unparenthesized() == message);
                    assert(walked(policy, message) == message);
                    assert(rewritten(policy, message) == message);
                    assert(rewritten(policy, call) == walked(policy, call));
                },
                None => {
                    lemma_rewritten_all_none(policy);
                    assert(rewritten(policy, call) == walked(policy, call));
                },
            }
        },
        _ => {},
    }
}

/// Replacing the node at the root and then going into the operands of
/// what stands there gives the rewritten tree.
pub proof fn lemma_walked_replaced(policy: Policy, tree: Tree)
    ensures
        walked(policy, replaced(policy, tree)) == rewritten(policy, tree),
{
    match tree {
        Tree::BinaryOp { attrs, left, op, right } => {
            match policy.replacement_bin(op.kind) {
                Some(method) => {
                    let call_attrs = if op.kind.compound() {
                        Seq::empty()
                    } else {
                        attrs
                    };
                    let call = call_tree(method, *left, Some(*right), op.span, call_attrs);
                    lemma_rewritten_all_one(policy, right.unparenthesized());
                    lemma_walked_finalized(policy, call, op.kind.arithmetic(), op.span);
                },
                None => {},
            }
        },
        Tree::UnaryOp { attrs, op, operand } => {
            match policy.replacement_un(op.kind) {
                Some(method) => {
                    let call = call_tree(method, *operand, None, op.span, attrs);
                    lemma_rewritten_all_none(policy);
                    lemma_walked_finalized(policy, call, op.kind.arithmetic(), op.span);
                },
                None => {},
            }
        },
        _ => {},
    }
}

/// What a policy builds around a call is at most one level taller than
/// the call.
pub proof fn lemma_finalized_height(
    policy: Policy,
    call: Tree,
    kind: Option<OperatorKind>,
    span: SourceSpan,
)
    ensures
        policy.finalized(call, kind, span).height() <= call.height() + 1,
{
    match policy {
        Policy::Checked => {
            match kind {
                Some(kind) => {
                    let message = Tree::Literal {
                        attrs: Seq::empty(),
                        text: kind.diagnostic(),
                        span,
                    };
                    assert(message.unparenthesized() == message);
                    lemma_forest_height_one(message);
                },
                None => {
                    assert(forest_height(Seq::<Tree>::empty()) == 0);
                },
            }
        },
        _ => {},
    }
}

/// The pass never puts a taller tree in the place of a node, so what is
/// left to walk through shrinks with every step.
pub proof fn lemma_replaced_height(policy: Policy, tree: Tree)
    ensures
        replaced(policy, tree).height() <= tree.height(),
{
    match tree {
        Tree::BinaryOp { attrs, left, op, right } => {
            match policy.replacement_bin(op.kind) {
                Some(method) => {
                    let call_attrs = if op.kind.compound() {
                        Seq::empty()
                    } else {
                        attrs
                    };
                    let call = call_tree(method, *left, Some(*right), op.span, call_attrs);
                    lemma_unparenthesized_height(*right);
                    lemma_forest_height_one(right.unparenthesized());
                    lemma_finalized_height(policy, call, op.kind.arithmetic(), op.span);
                },
                None => {},
            }
        },
        Tree::UnaryOp { attrs, op, operand } => {
            match policy.replacement_un(op.kind) {
                Some(method) => {
                    let call = call_tree(method, *operand, None, op.span, attrs);
                    assert(forest_height(Seq::<Tree>::empty()) == 0);
                    lemma_finalized_height(policy, call, op.kind.arithmetic(), op.span);
                },
                None => {},
            }
        },
        _ => {},
    }
}

} // verus!
