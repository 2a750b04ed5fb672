//! What holds of every rewriting pass.

use vstd::prelude::*;
use crate::block::Policy;
use crate::expr::{empty_binary_tree, empty_unary_tree};
use crate::meta::{Attribute, SourceSpan};
use crate::op::{BinOp, OperatorKind, UnOp};
use crate::rewrite::{
    lemma_unparenthesized_below, rewritten, rewritten_all, rewritten_statements, walked,
};
use crate::tree::{StatementTree, Tree};

verus! {

/// Whether the policy has no method for any operator of the tree that a
/// pass comes by. Operators inside a nested region do not count.
pub open spec fn unmapped(policy: Policy, tree: Tree) -> bool
    decreases tree,
{
    match tree {
        Tree::BinaryOp { left, op, right, .. } => {
            &&& policy.replacement_bin(op.kind) is None
            &&& unmapped(policy, *left)
            &&& unmapped(policy, *right)
        },
        Tree::UnaryOp { op, operand, .. } => {
            &&& policy.replacement_un(op.kind) is None
            &&& unmapped(policy, *operand)
        },
        Tree::Assign { target, value, .. } => {
            &&& unmapped(policy, *target)
            &&& unmapped(policy, *value)
        },
        Tree::Call { receiver, args, .. } => {
            &&& unmapped(policy, *receiver)
            &&& forall|i: int| 0 <= i < args.len() ==> unmapped(policy, #[trigger] args[i])
        },
        Tree::FieldAccess { base, .. } => unmapped(policy, *base),
        Tree::Propagate { inner, .. } => unmapped(policy, *inner),
        Tree::Literal { .. } => true,
        Tree::Paren { inner, .. } => unmapped(policy, *inner),
        Tree::Other { children, .. } => forall|i: int|
            0 <= i < children.len() ==> unmapped(policy, #[trigger] children[i]),
        Tree::Region { .. } => true,
    }
}

/// A pass under a policy that has no method for any operator of the tree
/// gives the tree back as it was.
pub proof fn lemma_unmapped_unchanged(policy: Policy, tree: Tree)
    requires
        unmapped(policy, tree),
    ensures
        rewritten(policy, tree) == tree,
    decreases tree,
{
    assert(rewritten(policy, tree) == walked(policy, tree));
    match tree {
        Tree::BinaryOp { left, right, .. } => {
            lemma_unmapped_unchanged(policy, *left);
            lemma_unmapped_unchanged(policy, *right);
        },
        Tree::UnaryOp { operand, .. } => {
            lemma_unmapped_unchanged(policy, *operand);
        },
        Tree::Assign { target, value, .. } => {
            lemma_unmapped_unchanged(policy, *target);
            lemma_unmapped_unchanged(policy, *value);
        },
        Tree::Call { receiver, args, .. } => {
            lemma_unmapped_unchanged(policy, *receiver);
            assert forall|i: int| 0 <= i < args.len() implies rewritten(policy, args[i])
                == args[i] by {
                lemma_unmapped_unchanged(policy, args[i]);
            }
            assert(rewritten_all(policy, args) =~= args);
        },
        Tree::FieldAccess { base, .. } => {
            lemma_unmapped_unchanged(policy, *base);
        },
        Tree::Propagate { inner, .. } => {
            lemma_unmapped_unchanged(policy, *inner);
        },
        Tree::Literal { .. } => {},
        Tree::Paren { inner, .. } => {
            lemma_unmapped_unchanged(policy, *inner);
        },
        Tree::Other { children, .. } => {
            assert forall|i: int| 0 <= i < children.len() implies rewritten(policy, children[i])
                == children[i] by {
                lemma_unmapped_unchanged(policy, children[i]);
            }
            assert(rewritten_all(policy, children) =~= children);
        },
        Tree::Region { .. } => {},
    }
}

/// Rewriting a tree under one policy and the result under a second one,
/// which has no method for any operator that is left, changes nothing the
/// second time.
pub proof fn lemma_second_pass_unchanged(first: Policy, second: Policy, tree: Tree)
    requires
        unmapped(second, rewritten(first, tree)),
    ensures
        rewritten(second, rewritten(first, tree)) == rewritten(first, tree),
{
    lemma_unmapped_unchanged(second, rewritten(first, tree));
}

/// What a policy builds around a call holds no operator: it is unmapped
/// exactly when the call is.
pub proof fn lemma_finalized_unmapped(
    first: Policy,
    second: Policy,
    call: Tree,
    kind: Option<OperatorKind>,
    span: SourceSpan,
)
    ensures
        unmapped(second, first.finalized(call, kind, span)) == unmapped(second, call),
{
    match first {
        Policy::Checked => {
            match kind {
                Some(kind) => {
                    let message = Tree::Literal {
                        attrs: Seq::empty(),
                        text: kind.diagnostic(),
                        span,
                    };
                    assert(message.unparenthesized() == message);
                    assert(unmapped(second, message));
                },
                None => {},
            }
        },
        _ => {},
    }
}

/// A pass leaves no operator behind that its policy has a method for, nor
/// one that a policy with no more methods has one for.
pub proof fn lemma_rewritten_unmapped(first: Policy, second: Policy, tree: Tree)
    requires
        forall|kind: OperatorKind| second.covers(kind) ==> first.covers(kind),
    ensures
        unmapped(second, rewritten(first, tree)),
    decreases tree,
{
    match tree {
        Tree::BinaryOp { attrs, left, op, right } => {
            lemma_rewritten_unmapped(first, second, *left);
            match first.replacement_bin(op.kind) {
                Some(method) => {
                    lemma_unparenthesized_below(*right);
                    lemma_rewritten_unmapped(first, second, right.unparenthesized());
                    let receiver = rewritten(first, *left);
                    let argument = rewritten(first, right.unparenthesized());
                    let call = Tree::Call {
                        attrs: if op.kind.compound() {
                            Seq::empty()
                        } else {
                            attrs
                        },
                        receiver: Box::new(receiver),
                        method,
                        span: op.span,
                        args: seq![argument],
                    };
                    assert(unmapped(second, call));
                    lemma_finalized_unmapped(first, second, call, op.kind.arithmetic(), op.span);
                },
                None => {
                    lemma_rewritten_unmapped(first, second, *right);
                    assert(rewritten(first, tree) == walked(first, tree));
                },
            }
        },
        Tree::UnaryOp { attrs, op, operand } => {
            lemma_rewritten_unmapped(first, second, *operand);
            match first.replacement_un(op.kind) {
                Some(method) => {
                    let call = Tree::Call {
                        attrs,
                        receiver: Box::new(rewritten(first, *operand)),
                        method,
                        span: op.span,
                        args: Seq::empty(),
                    };
                    assert(unmapped(second, call));
                    lemma_finalized_unmapped(first, second, call, op.kind.arithmetic(), op.span);
                },
                None => {
                    assert(rewritten(first, tree) == walked(first, tree));
                },
            }
        },
        Tree::Assign { target, value, .. } => {
            lemma_rewritten_unmapped(first, second, *target);
            lemma_rewritten_unmapped(first, second, *value);
            assert(rewritten(first, tree) == walked(first, tree));
        },
        Tree::Call { receiver, args, .. } => {
            lemma_rewritten_unmapped(first, second, *receiver);
            let passed = rewritten_all(first, args);
            assert forall|i: int| 0 <= i < passed.len() implies unmapped(
                second,
                #[trigger] passed[i],
            ) by {
                lemma_rewritten_unmapped(first, second, args[i]);
            }
            assert(rewritten(first, tree) == walked(first, tree));
        },
        Tree::FieldAccess { base, .. } => {
            lemma_rewritten_unmapped(first, second, *base);
            assert(rewritten(first, tree) == walked(first, tree));
        },
        Tree::Propagate { inner, .. } => {
            lemma_rewritten_unmapped(first, second, *inner);
            assert(rewritten(first, tree) == walked(first, tree));
        },
        Tree::Literal { .. } => {
            assert(rewritten(first, tree) == walked(first, tree));
        },
        Tree::Paren { inner, .. } => {
            lemma_rewritten_unmapped(first, second, *inner);
            assert(rewritten(first, tree) == walked(first, tree));
        },
        Tree::Other { children, .. } => {
            let passed = rewritten_all(first, children);
            assert forall|i: int| 0 <= i < passed.len() implies unmapped(
                second,
                #[trigger] passed[i],
            ) by {
                lemma_rewritten_unmapped(first, second, children[i]);
            }
            assert(rewritten(first, tree) == walked(first, tree));
        },
        Tree::Region { .. } => {
            assert(rewritten(first, tree) == walked(first, tree));
        },
    }
}

/// A second pass under the same policy changes nothing.
pub proof fn lemma_rewritten_idempotent(policy: Policy, tree: Tree)
    ensures
        rewritten(policy, rewritten(policy, tree)) == rewritten(policy, tree),
{
    lemma_rewritten_unmapped(policy, policy, tree);
    lemma_unmapped_unchanged(policy, rewritten(policy, tree));
}

/// A second pass over a region under the same policy changes nothing.
pub proof fn lemma_region_pass_idempotent(policy: Policy, statements: Seq<StatementTree>)
    ensures
        rewritten_statements(policy, rewritten_statements(policy, statements))
            == rewritten_statements(policy, statements),
{
    let once = rewritten_statements(policy, statements);
    let twice = rewritten_statements(policy, once);
    assert forall|i: int| 0 <= i < statements.len() implies twice[i] == once[i] by {
        let exprs = statements[i].exprs;
        let passed = rewritten_all(policy, exprs);
        assert forall|j: int| 0 <= j < exprs.len() implies rewritten(policy, passed[j])
            == passed[j] by {
            lemma_rewritten_idempotent(policy, exprs[j]);
        }
        assert(rewritten_all(policy, passed) =~= passed);
    }
    assert(twice =~= once);
}

/// The call that stands for `receiver.method(argument)` at `span`.
pub open spec fn replacement_call(
    attrs: Seq<Attribute>,
    receiver: Tree,
    method: Seq<char>,
    span: SourceSpan,
    argument: Option<Tree>,
) -> Tree {
    Tree::Call {
        attrs,
        receiver: Box::new(receiver),
        method,
        span,
        args: match argument {
            Some(tree) => seq![tree],
            None => Seq::empty(),
        },
    }
}

/// Wherever the policy has a method for a plain binary operator, the pass
/// turns `left op right` into what the policy builds around the call of
/// that method on the rewritten `left`, with the rewritten `right`, out
/// of its parentheses, as the only argument.
pub proof fn lemma_binary_replaced(
    policy: Policy,
    attrs: Seq<Attribute>,
    left: Tree,
    op: BinOp,
    right: Tree,
)
    requires
        policy.replacement_bin(op.kind) is Some,
        !op.kind.compound(),
    ensures
        rewritten(
            policy,
            Tree::BinaryOp { attrs, left: Box::new(left), op, right: Box::new(right) },
        ) == policy.finalized_bin(
            replacement_call(
                attrs,
                rewritten(policy, left),
                policy.replacement_bin(op.kind)->0,
                op.span,
                Some(rewritten(policy, right.unparenthesized())),
            ),
            op,
        ),
{
}

/// Wherever the policy has a method for a compound assignment, the pass
/// turns `left op= right` into the assignment, to the rewritten `left`,
/// of what the policy builds around the call of that method on the
/// rewritten `left`: the left operand stands in the result twice.
pub proof fn lemma_compound_replaced(
    policy: Policy,
    attrs: Seq<Attribute>,
    left: Tree,
    op: BinOp,
    right: Tree,
)
    requires
        policy.replacement_bin(op.kind) is Some,
        op.kind.compound(),
    ensures
        rewritten(
            policy,
            Tree::BinaryOp { attrs, left: Box::new(left), op, right: Box::new(right) },
        ) == (Tree::Assign {
            attrs,
            target: Box::new(rewritten(policy, left)),
            span: op.span,
            value: Box::new(
                policy.finalized_bin(
                    replacement_call(
                        Seq::empty(),
                        rewritten(policy, left),
                        policy.replacement_bin(op.kind)->0,
                        op.span,
                        Some(rewritten(policy, right.unparenthesized())),
                    ),
                    op,
                ),
            ),
        }),
{
}

/// Wherever the policy has a method for a unary operator, the pass turns
/// `op operand` into what the policy builds around the call of that
/// method, without arguments, on the rewritten operand.
pub proof fn lemma_unary_replaced(policy: Policy, attrs: Seq<Attribute>, op: UnOp, operand: Tree)
    requires
        policy.replacement_un(op.kind) is Some,
    ensures
        rewritten(policy, Tree::UnaryOp { attrs, op, operand: Box::new(operand) })
            == policy.finalized_un(
            replacement_call(
                attrs,
                rewritten(policy, operand),
                policy.replacement_un(op.kind)->0,
                op.span,
                None,
            ),
            op,
        ),
{
}

/// Where the policy has no method for a binary operator, the node stays
/// as it is, around its rewritten operands.
pub proof fn lemma_binary_kept(
    policy: Policy,
    attrs: Seq<Attribute>,
    left: Tree,
    op: BinOp,
    right: Tree,
)
    requires
        policy.replacement_bin(op.kind) is None,
    ensures
        rewritten(
            policy,
            Tree::BinaryOp { attrs, left: Box::new(left), op, right: Box::new(right) },
        ) == (Tree::BinaryOp {
            attrs,
            left: Box::new(rewritten(policy, left)),
            op,
            right: Box::new(rewritten(policy, right)),
        }),
{
    let tree = Tree::BinaryOp { attrs, left: Box::new(left), op, right: Box::new(right) };
    assert(rewritten(policy, tree) == walked(policy, tree));
}

/// Where the policy has no method for a unary operator, the node stays
/// as it is, around its rewritten operand.
pub proof fn lemma_unary_kept(policy: Policy, attrs: Seq<Attribute>, op: UnOp, operand: Tree)
    requires
        policy.replacement_un(op.kind) is None,
    ensures
        rewritten(policy, Tree::UnaryOp { attrs, op, operand: Box::new(operand) })
            == (Tree::UnaryOp { attrs, op, operand: Box::new(rewritten(policy, operand)) }),
{
    let tree = Tree::UnaryOp { attrs, op, operand: Box::new(operand) };
    assert(rewritten(policy, tree) == walked(policy, tree));
}

/// The saturating policy has no method for remainders and shifts, in
/// either form, and every other policy has one for each arithmetic
/// operator.
pub proof fn lemma_uncovered_operators(policy: Policy, kind: OperatorKind)
    ensures
        policy.replacement(kind) is None <==> policy is Saturating && (kind is Rem || kind is Shl
            || kind is Shr),
{
}

/// Whether every node of `tree` was built at `span`, from its root down
/// to the places where one of `operands` stands.
pub open spec fn built_at(tree: Tree, span: SourceSpan, operands: Set<Tree>) -> bool
    decreases tree,
{
    operands.contains(tree) || match tree {
        Tree::Assign { target, span: at, value, .. } => {
            &&& at == span
            &&& built_at(*target, span, operands)
            &&& built_at(*value, span, operands)
        },
        Tree::Call { receiver, span: at, args, .. } => {
            &&& at == span
            &&& built_at(*receiver, span, operands)
            &&& forall|i: int| 0 <= i < args.len() ==> built_at(#[trigger] args[i], span, operands)
        },
        Tree::FieldAccess { base, span: at, .. } => at == span && built_at(*base, span, operands),
        Tree::Propagate { inner, span: at, .. } => at == span && built_at(*inner, span, operands),
        Tree::Literal { span: at, .. } => at == span,
        _ => false,
    }
}

/// Every node that a policy builds around a call stands at the span that
/// it was given.
pub proof fn lemma_finalized_built_at(
    policy: Policy,
    call: Tree,
    kind: Option<OperatorKind>,
    span: SourceSpan,
    operands: Set<Tree>,
)
    requires
        built_at(call, span, operands),
    ensures
        built_at(policy.finalized(call, kind, span), span, operands),
{
    match policy {
        Policy::Checked => {
            match kind {
                Some(kind) => {
                    let message = Tree::Literal {
                        attrs: Seq::empty(),
                        text: kind.diagnostic(),
                        span,
                    };
                    assert(message.unparenthesized() == message);
                    assert(built_at(message, span, operands));
                },
                None => {},
            }
        },
        _ => {},
    }
}

/// Every node that the pass builds in the place of a binary operator, the
/// call, the assignment and what the policy builds around the call,
/// carries the span of that operator. Only the rewritten operands keep
/// spans of their own.
pub proof fn lemma_binary_spans(
    policy: Policy,
    attrs: Seq<Attribute>,
    left: Tree,
    op: BinOp,
    right: Tree,
)
    requires
        policy.replacement_bin(op.kind) is Some,
    ensures
        built_at(
            rewritten(
                policy,
                Tree::BinaryOp { attrs, left: Box::new(left), op, right: Box::new(right) },
            ),
            op.span,
            set![rewritten(policy, left), rewritten(policy, right.unparenthesized())],
        ),
{
    let operands = set![rewritten(policy, left), rewritten(policy, right.unparenthesized())];
    let call = replacement_call(
        if op.kind.compound() {
            Seq::empty()
        } else {
            attrs
        },
        rewritten(policy, left),
        policy.replacement_bin(op.kind)->0,
        op.span,
        Some(rewritten(policy, right.unparenthesized())),
    );
    assert(built_at(rewritten(policy, left), op.span, operands));
    assert(built_at(rewritten(policy, right.unparenthesized()), op.span, operands));
    assert(built_at(call, op.span, operands));
    lemma_finalized_built_at(policy, call, op.kind.arithmetic(), op.span, operands);
}

/// Every node that the pass builds in the place of a unary operator
/// carries the span of that operator. Only the rewritten operand keeps
/// spans of its own.
pub proof fn lemma_unary_spans(policy: Policy, attrs: Seq<Attribute>, op: UnOp, operand: Tree)
    requires
        policy.replacement_un(op.kind) is Some,
    ensures
        built_at(
            rewritten(policy, Tree::UnaryOp { attrs, op, operand: Box::new(operand) }),
            op.span,
            set![rewritten(policy, operand)],
        ),
{
    let operands = set![rewritten(policy, operand)];
    let call = replacement_call(
        attrs,
        rewritten(policy, operand),
        policy.replacement_un(op.kind)->0,
        op.span,
        None,
    );
    assert(built_at(rewritten(policy, operand), op.span, operands));
    assert(built_at(call, op.span, operands));
    lemma_finalized_built_at(policy, call, op.kind.arithmetic(), op.span, operands);
}

/// Whether a pass over `tree` comes by `node`: it is the tree itself or
/// the pass comes by it in one of the operands. A nested region is not
/// entered.
pub open spec fn reaches(tree: Tree, node: Tree) -> bool
    decreases tree,
{
    tree == node || match tree {
        Tree::BinaryOp { left, right, .. } => reaches(*left, node) || reaches(*right, node),
        Tree::UnaryOp { operand, .. } => reaches(*operand, node),
        Tree::Assign { target, value, .. } => reaches(*target, node) || reaches(*value, node),
        Tree::Call { receiver, args, .. } => reaches(*receiver, node) || exists|i: int|
            0 <= i < args.len() && reaches(#[trigger] args[i], node),
        Tree::FieldAccess { base, .. } => reaches(*base, node),
        Tree::Propagate { inner, .. } => reaches(*inner, node),
        Tree::Literal { .. } => false,
        Tree::Paren { inner, .. } => reaches(*inner, node),
        Tree::Other { children, .. } => exists|i: int|
            0 <= i < children.len() && reaches(#[trigger] children[i], node),
        Tree::Region { .. } => false,
    }
}

/// In a tree without an operator that the policy has a method for, no
/// node that a pass comes by has such an operator.
pub proof fn lemma_unmapped_reaches(policy: Policy, tree: Tree, node: Tree)
    requires
        unmapped(policy, tree),
        reaches(tree, node),
    ensures
        unmapped(policy, node),
    decreases tree,
{
    if tree != node {
        match tree {
            Tree::BinaryOp { left, right, .. } => {
                if reaches(*left, node) {
                    lemma_unmapped_reaches(policy, *left, node);
                } else {
                    lemma_unmapped_reaches(policy, *right, node);
                }
            },
            Tree::UnaryOp { operand, .. } => {
                lemma_unmapped_reaches(policy, *operand, node);
            },
            Tree::Assign { target, value, .. } => {
                if reaches(*target, node) {
                    lemma_unmapped_reaches(policy, *target, node);
                } else {
                    lemma_unmapped_reaches(policy, *value, node);
                }
            },
            Tree::Call { receiver, args, .. } => {
                if reaches(*receiver, node) {
                    lemma_unmapped_reaches(policy, *receiver, node);
                } else {
                    let i = choose|i: int| 0 <= i < args.len() && reaches(#[trigger] args[i], node);
                    lemma_unmapped_reaches(policy, args[i], node);
                }
            },
            Tree::FieldAccess { base, .. } => {
                lemma_unmapped_reaches(policy, *base, node);
            },
            Tree::Propagate { inner, .. } => {
                lemma_unmapped_reaches(policy, *inner, node);
            },
            Tree::Literal { .. } => {},
            Tree::Paren { inner, .. } => {
                lemma_unmapped_reaches(policy, *inner, node);
            },
            Tree::Other { children, .. } => {
                let i = choose|i: int|
                    0 <= i < children.len() && reaches(#[trigger] children[i], node);
                lemma_unmapped_reaches(policy, children[i], node);
            },
            Tree::Region { .. } => {},
        }
    }
}

/// No placeholder survives a pass: among the nodes of the rewritten tree
/// that a pass comes by, none is the inert binary or unary operation that
/// stands in while a node is taken apart.
pub proof fn lemma_no_placeholder_left(policy: Policy, tree: Tree, node: Tree)
    requires
        reaches(rewritten(policy, tree), node),
    ensures
        node != empty_binary_tree(),
        node != empty_unary_tree(),
{
    lemma_rewritten_unmapped(policy, policy, tree);
    lemma_unmapped_reaches(policy, rewritten(policy, tree), node);
    assert(!unmapped(policy, empty_binary_tree()));
    assert(!unmapped(policy, empty_unary_tree()));
}

/// Whether `span` is the location of an operator or of a node of the
/// tree that a pass comes by.
pub open spec fn has_span(tree: Tree, span: SourceSpan) -> bool
    decreases tree,
{
    match tree {
        Tree::BinaryOp { left, op, right, .. } => {
            ||| op.span == span
            ||| has_span(*left, span)
            ||| has_span(*right, span)
        },
        Tree::UnaryOp { op, operand, .. } => op.span == span || has_span(*operand, span),
        Tree::Assign { target, span: at, value, .. } => {
            ||| at == span
            ||| has_span(*target, span)
            ||| has_span(*value, span)
        },
        Tree::Call { receiver, span: at, args, .. } => {
            ||| at == span
            ||| has_span(*receiver, span)
            ||| exists|i: int| 0 <= i < args.len() && has_span(#[trigger] args[i], span)
        },
        Tree::FieldAccess { base, span: at, .. } => at == span || has_span(*base, span),
        Tree::Propagate { inner, span: at, .. } => at == span || has_span(*inner, span),
        Tree::Literal { span: at, .. } => at == span,
        Tree::Paren { span: at, inner, .. } => at == span || has_span(*inner, span),
        Tree::Other { children, .. } => exists|i: int|
            0 <= i < children.len() && has_span(#[trigger] children[i], span),
        Tree::Region { .. } => false,
    }
}

/// A tree out of its parentheses has no location that it did not have in
/// them.
pub proof fn lemma_unparenthesized_span(tree: Tree, span: SourceSpan)
    requires
        has_span(tree.unparenthesized(), span),
    ensures
        has_span(tree, span),
    decreases tree,
{
    match tree {
        Tree::Paren { inner, .. } => {
            lemma_unparenthesized_span(*inner, span);
        },
        _ => {},
    }
}

/// What a policy builds around a call has the location that it was given
/// and those of the call, and no other.
pub proof fn lemma_finalized_span(
    policy: Policy,
    call: Tree,
    kind: Option<OperatorKind>,
    at: SourceSpan,
    span: SourceSpan,
)
    requires
        has_span(policy.finalized(call, kind, at), span),
    ensures
        span == at || has_span(call, span),
{
    match policy {
        Policy::Checked => {
            match kind {
                Some(kind) => {
                    let message = Tree::Literal {
                        attrs: Seq::empty(),
                        text: kind.diagnostic(),
                        span: at,
                    };
                    assert(message.unparenthesized() == message);
                    let args = seq![message];
                    assert(args.len() == 1 && args[0] == message);
                    if span != at && !has_span(call, span) {
                        let i = choose|i: int|
                            0 <= i < args.len() && has_span(#[trigger] args[i], span);
                        assert(args[i] == message);
                    }
                },
                None => {},
            }
        },
        _ => {},
    }
}

/// A pass brings no location of its own: every location in the rewritten
/// tree is the location of an operator or of a node of the tree that went
/// in.
pub proof fn lemma_no_new_span(policy: Policy, tree: Tree, span: SourceSpan)
    requires
        has_span(rewritten(policy, tree), span),
    ensures
        has_span(tree, span),
    decreases tree,
{
    match tree {
        Tree::BinaryOp { attrs, left, op, right } => {
            match policy.replacement_bin(op.kind) {
                Some(method) => {
                    let receiver = rewritten(policy, *left);
                    let argument = rewritten(policy, right.unparenthesized());
                    let call = Tree::Call {
                        attrs: if op.kind.compound() {
                            Seq::empty()
                        } else {
                            attrs
                        },
                        receiver: Box::new(receiver),
                        method,
                        span: op.span,
                        args: seq![argument],
                    };
                    let value = policy.finalized_bin(call, op);
                    if span != op.span {
                        if has_span(receiver, span) {
                            lemma_no_new_span(policy, *left, span);
                        } else {
                            assert(has_span(value, span));
                            lemma_finalized_span(policy, call, op.kind.arithmetic(), op.span, span);
                            assert(has_span(argument, span));
                            lemma_unparenthesized_below(*right);
                            lemma_no_new_span(policy, right.unparenthesized(), span);
                            lemma_unparenthesized_span(*right, span);
                        }
                    }
                },
                None => {
                    assert(rewritten(policy, tree) == walked(policy, tree));
                    if span != op.span {
                        if has_span(rewritten(policy, *left), span) {
                            lemma_no_new_span(policy, *left, span);
                        } else {
                            lemma_no_new_span(policy, *right, span);
                        }
                    }
                },
            }
        },
        Tree::UnaryOp { attrs, op, operand } => {
            match policy.replacement_un(op.kind) {
                Some(method) => {
                    let call = Tree::Call {
                        attrs,
                        receiver: Box::new(rewritten(policy, *operand)),
                        method,
                        span: op.span,
                        args: Seq::empty(),
                    };
                    if span != op.span {
                        lemma_finalized_span(policy, call, op.kind.arithmetic(), op.span, span);
                        lemma_no_new_span(policy, *operand, span);
                    }
                },
                None => {
                    assert(rewritten(policy, tree) == walked(policy, tree));
                    if span != op.span {
                        lemma_no_new_span(policy, *operand, span);
                    }
                },
            }
        },
        Tree::Assign { target, span: at, value, .. } => {
            assert(rewritten(policy, tree) == walked(policy, tree));
            if span != at {
                if has_span(rewritten(policy, *target), span) {
                    lemma_no_new_span(policy, *target, span);
                } else {
                    lemma_no_new_span(policy, *value, span);
                }
            }
        },
        Tree::Call { receiver, span: at, args, .. } => {
            assert(rewritten(policy, tree) == walked(policy, tree));
            if span != at {
                if has_span(rewritten(policy, *receiver), span) {
                    lemma_no_new_span(policy, *receiver, span);
                } else {
                    let passed = rewritten_all(policy, args);
                    let i = choose|i: int|
                        0 <= i < passed.len() && has_span(#[trigger] passed[i], span);
                    lemma_no_new_span(policy, args[i], span);
                }
            }
        },
        Tree::FieldAccess { base, span: at, .. } => {
            assert(rewritten(policy, tree) == walked(policy, tree));
            if span != at {
                lemma_no_new_span(policy, *base, span);
            }
        },
        Tree::Propagate { inner, span: at, .. } => {
            assert(rewritten(policy, tree) == walked(policy, tree));
            if span != at {
                lemma_no_new_span(policy, *inner, span);
            }
        },
        Tree::Literal { .. } => {
            assert(rewritten(policy, tree) == walked(policy, tree));
        },
        Tree::Paren { span: at, inner, .. } => {
            assert(rewritten(policy, tree) == walked(policy, tree));
            if span != at {
                lemma_no_new_span(policy, *inner, span);
            }
        },
        Tree::Other { children, .. } => {
            assert(rewritten(policy, tree) == walked(policy, tree));
            let passed = rewritten_all(policy, children);
            let i = choose|i: int| 0 <= i < passed.len() && has_span(#[trigger] passed[i], span);
            lemma_no_new_span(policy, children[i], span);
        },
        Tree::Region { .. } => {
            assert(rewritten(policy, tree) == walked(policy, tree));
        },
    }
}

/// A nested region comes out of a pass exactly as it went in, whatever
/// policy it asks for and whatever stands in it.
pub proof fn lemma_region_untouched(
    policy: Policy,
    inner: Option<Policy>,
    body: Seq<StatementTree>,
)
    ensures
        rewritten(policy, Tree::Region { policy: inner, body }) == (Tree::Region {
            policy: inner,
            body,
        }),
{
    let tree = Tree::Region { policy: inner, body };
    assert(rewritten(policy, tree) == walked(policy, tree));
}

/// What a pass comes by in a tree, other than parentheses, it comes by in
/// the tree out of its parentheses.
pub proof fn lemma_unparenthesized_reaches(tree: Tree, node: Tree)
    requires
        reaches(tree, node),
        !(node is Paren),
    ensures
        reaches(tree.unparenthesized(), node),
    decreases tree,
{
    match tree {
        Tree::Paren { inner, .. } => {
            lemma_unparenthesized_reaches(*inner, node);
        },
        _ => {},
    }
}

/// What a pass comes by in a call, it comes by in what a policy builds
/// around the call.
pub proof fn lemma_finalized_reaches(
    policy: Policy,
    call: Tree,
    kind: Option<OperatorKind>,
    span: SourceSpan,
    node: Tree,
)
    requires
        reaches(call, node),
    ensures
        reaches(policy.finalized(call, kind, span), node),
{
}

/// Every nested region that a pass comes by stands in the rewritten tree
/// exactly as it was supplied, with all that it holds.
pub proof fn lemma_region_kept(policy: Policy, tree: Tree, region: Tree)
    requires
        region is Region,
        reaches(tree, region),
    ensures
        reaches(rewritten(policy, tree), region),
    decreases tree,
{
    if tree == region {
        assert(rewritten(policy, tree) == walked(policy, tree));
    } else {
        match tree {
            Tree::BinaryOp { attrs, left, op, right } => {
                match policy.replacement_bin(op.kind) {
                    Some(method) => {
                        let receiver = rewritten(policy, *left);
                        let argument = rewritten(policy, right.unparenthesized());
                        let call = Tree::Call {
                            attrs: if op.kind.compound() {
                                Seq::empty()
                            } else {
                                attrs
                            },
                            receiver: Box::new(receiver),
                            method,
                            span: op.span,
                            args: seq![argument],
                        };
                        if reaches(*left, region) {
                            lemma_region_kept(policy, *left, region);
                        } else {
                            lemma_unparenthesized_reaches(*right, region);
                            lemma_unparenthesized_below(*right);
                            lemma_region_kept(policy, right.unparenthesized(), region);
                            assert(call->args[0] == argument);
                        }
                        assert(reaches(call, region));
                        lemma_finalized_reaches(
                            policy,
                            call,
                            op.kind.arithmetic(),
                            op.span,
                            region,
                        );
                    },
                    None => {
                        assert(rewritten(policy, tree) == walked(policy, tree));
                        if reaches(*left, region) {
                            lemma_region_kept(policy, *left, region);
                        } else {
                            lemma_region_kept(policy, *right, region);
                        }
                    },
                }
            },
            Tree::UnaryOp { attrs, op, operand } => {
                lemma_region_kept(policy, *operand, region);
                match policy.replacement_un(op.kind) {
                    Some(method) => {
                        let call = Tree::Call {
                            attrs,
                            receiver: Box::new(rewritten(policy, *operand)),
                            method,
                            span: op.span,
                            args: Seq::empty(),
                        };
                        assert(reaches(call, region));
                        lemma_finalized_reaches(
                            policy,
                            call,
                            op.kind.arithmetic(),
                            op.span,
                            region,
                        );
                    },
                    None => {
                        assert(rewritten(policy, tree) == walked(policy, tree));
                    },
                }
            },
            Tree::Assign { target, value, .. } => {
                assert(rewritten(policy, tree) == walked(policy, tree));
                if reaches(*target, region) {
                    lemma_region_kept(policy, *target, region);
                } else {
                    lemma_region_kept(policy, *value, region);
                }
            },
            Tree::Call { receiver, args, .. } => {
                assert(rewritten(policy, tree) == walked(policy, tree));
                if reaches(*receiver, region) {
                    lemma_region_kept(policy, *receiver, region);
                } else {
                    let i = choose|i: int|
                        0 <= i < args.len() && reaches(#[trigger] args[i], region);
                    lemma_region_kept(policy, args[i], region);
                    let passed = rewritten_all(policy, args);
                    assert(0 <= i < passed.len() && reaches(passed[i], region));
                    assert(walked(policy, tree)->args == passed);
                }
            },
            Tree::FieldAccess { base, .. } => {
                assert(rewritten(policy, tree) == walked(policy, tree));
                lemma_region_kept(policy, *base, region);
            },
            Tree::Propagate { inner, .. } => {
                assert(rewritten(policy, tree) == walked(policy, tree));
                lemma_region_kept(policy, *inner, region);
            },
            Tree::Literal { .. } => {},
            Tree::Paren { inner, .. } => {
                assert(rewritten(policy, tree) == walked(policy, tree));
                lemma_region_kept(policy, *inner, region);
            },
            Tree::Other { children, .. } => {
                assert(rewritten(policy, tree) == walked(policy, tree));
                let i = choose|i: int|
                    0 <= i < children.len() && reaches(#[trigger] children[i], region);
                lemma_region_kept(policy, children[i], region);
                let passed = rewritten_all(policy, children);
                assert(0 <= i < passed.len() && reaches(passed[i], region));
                assert(walked(policy, tree)->children == passed);
            },
            Tree::Region { .. } => {},
        }
    }
}

} // verus!
