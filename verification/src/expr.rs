//! Expression nodes, and the helpers that build them.

use vstd::prelude::*;
use crate::block::Policy;
use crate::meta::{Attribute, Shape, SourceSpan};
use crate::op::{BinOp, BinOpKind, UnOp, UnOpKind};
use crate::tree::{StatementTree, Tree};

verus! {

/// `left op right`, for any binary operator.
#[derive(Debug, PartialEq, Eq)]
pub struct BinaryOp {
    pub attrs: Vec<Attribute>,
    pub left: Box<ExpressionNode>,
    pub op: BinOp,
    pub right: Box<ExpressionNode>,
}

/// `op operand`, for any unary operator.
#[derive(Debug, PartialEq, Eq)]
pub struct UnaryOp {
    pub attrs: Vec<Attribute>,
    pub op: UnOp,
    pub operand: Box<ExpressionNode>,
}

/// `target = value`.
#[derive(Debug, PartialEq, Eq)]
pub struct Assign {
    pub attrs: Vec<Attribute>,
    pub target: Box<ExpressionNode>,
    pub span: SourceSpan,
    pub value: Box<ExpressionNode>,
}

/// `receiver.method(args)`.
#[derive(Debug, PartialEq, Eq)]
pub struct Call {
    pub attrs: Vec<Attribute>,
    pub receiver: Box<ExpressionNode>,
    pub method: String,
    pub span: SourceSpan,
    pub args: Vec<ExpressionNode>,
}

/// `base.index`, the access to a tuple field.
#[derive(Debug, PartialEq, Eq)]
pub struct FieldAccess {
    pub attrs: Vec<Attribute>,
    pub base: Box<ExpressionNode>,
    pub span: SourceSpan,
    pub index: u32,
}

/// `inner?`, which hands an absent result to the caller at once.
#[derive(Debug, PartialEq, Eq)]
pub struct Propagate {
    pub attrs: Vec<Attribute>,
    pub inner: Box<ExpressionNode>,
    pub span: SourceSpan,
}

/// A string literal.
#[derive(Debug, PartialEq, Eq)]
pub struct Literal {
    pub attrs: Vec<Attribute>,
    pub text: String,
    pub span: SourceSpan,
}

/// `(inner)`.
#[derive(Debug, PartialEq, Eq)]
pub struct Paren {
    pub attrs: Vec<Attribute>,
    pub span: SourceSpan,
    pub inner: Box<ExpressionNode>,
}

/// Any form that the rewriter does not interpret, with the expressions
/// nested in it, in order.
#[derive(Debug, PartialEq, Eq)]
pub struct Other {
    pub shape: Shape,
    pub children: Vec<ExpressionNode>,
}

/// A nested region that asks for a policy of its own, or with `None` for
/// the host's default arithmetic. The host expands it by itself.
#[derive(Debug, PartialEq, Eq)]
pub struct Region {
    pub policy: Option<Policy>,
    pub body: Vec<Statement>,
}

/// An expression.
#[derive(Debug, PartialEq, Eq)]
pub enum ExpressionNode {
    BinaryOp(BinaryOp),
    UnaryOp(UnaryOp),
    Assign(Assign),
    Call(Call),
    FieldAccess(FieldAccess),
    Propagate(Propagate),
    Literal(Literal),
    Paren(Paren),
    Other(Other),
    Region(Region),
}

/// A statement: an opaque shape and the expressions that stand in it, in
/// order.
#[derive(Debug, PartialEq, Eq)]
pub struct Statement {
    pub shape: Shape,
    pub exprs: Vec<ExpressionNode>,
}

/// The trees that a sequence of nodes stands for.
pub open spec fn trees_of(nodes: Seq<ExpressionNode>) -> Seq<Tree>
    decreases nodes,
{
    Seq::new(
        nodes.len(),
        |i: int|
            if 0 <= i < nodes.len() {
                nodes[i].view()
            } else {
                arbitrary()
            },
    )
}

/// The statement trees that a sequence of statements stands for.
pub open spec fn statement_trees_of(statements: Seq<Statement>) -> Seq<StatementTree>
    decreases statements,
{
    Seq::new(
        statements.len(),
        |i: int|
            if 0 <= i < statements.len() {
                statements[i].view()
            } else {
                arbitrary()
            },
    )
}

impl BinaryOp {
    /// The tree that the node stands for.
    pub open spec fn view(&self) -> Tree
        decreases self,
    {
        Tree::BinaryOp {
            attrs: self.attrs@,
            left: Box::new(self.left.view()),
            op: self.op,
            right: Box::new(self.right.view()),
        }
    }
}

impl UnaryOp {
    /// The tree that the node stands for.
    pub open spec fn view(&self) -> Tree
        decreases self,
    {
        Tree::UnaryOp { attrs: self.attrs@, op: self.op, operand: Box::new(self.operand.view()) }
    }
}

impl Assign {
    /// The tree that the node stands for.
    pub open spec fn view(&self) -> Tree
        decreases self,
    {
        Tree::Assign {
            attrs: self.attrs@,
            target: Box::new(self.target.view()),
            span: self.span,
            value: Box::new(self.value.view()),
        }
    }
}

impl Call {
    /// The tree that the node stands for.
    pub open spec fn view(&self) -> Tree
        decreases self,
    {
        Tree::Call {
            attrs: self.attrs@,
            receiver: Box::new(self.receiver.view()),
            method: self.method@,
            span: self.span,
            args: trees_of(self.args@),
        }
    }
}

impl FieldAccess {
    /// The tree that the node stands for.
    pub open spec fn view(&self) -> Tree
        decreases self,
    {
        Tree::FieldAccess {
            attrs: self.attrs@,
            base: Box::new(self.base.view()),
            span: self.span,
            index: self.index,
        }
    }
}

impl Propagate {
    /// The tree that the node stands for.
    pub open spec fn view(&self) -> Tree
        decreases self,
    {
        Tree::Propagate { attrs: self.attrs@, inner: Box::new(self.inner.view()), span: self.span }
    }
}

impl Literal {
    /// The tree that the node stands for.
    pub open spec fn view(&self) -> Tree {
        Tree::Literal { attrs: self.attrs@, text: self.text@, span: self.span }
    }
}

impl Paren {
    /// The tree that the node stands for.
    pub open spec fn view(&self) -> Tree
        decreases self,
    {
        Tree::Paren { attrs: self.attrs@, span: self.span, inner: Box::new(self.inner.view()) }
    }
}

impl Other {
    /// The tree that the node stands for.
    pub open spec fn view(&self) -> Tree
        decreases self,
    {
        Tree::Other { shape: self.shape, children: trees_of(self.children@) }
    }
}

impl Region {
    /// The tree that the node stands for.
    pub open spec fn view(&self) -> Tree
        decreases self,
    {
        Tree::Region { policy: self.policy, body: statement_trees_of(self.body@) }
    }
}

impl ExpressionNode {
    /// The tree that the node stands for.
    pub open spec fn view(&self) -> Tree
        decreases self,
    {
        match self {
            ExpressionNode::BinaryOp(node) => node.view(),
            ExpressionNode::UnaryOp(node) => node.view(),
            ExpressionNode::Assign(node) => node.view(),
            ExpressionNode::Call(node) => node.view(),
            ExpressionNode::FieldAccess(node) => node.view(),
            ExpressionNode::Propagate(node) => node.view(),
            ExpressionNode::Literal(node) => node.view(),
            ExpressionNode::Paren(node) => node.view(),
            ExpressionNode::Other(node) => node.view(),
            ExpressionNode::Region(node) => node.view(),
        }
    }
}

impl Statement {
    /// The statement tree that the statement stands for.
    pub open spec fn view(&self) -> StatementTree
        decreases self,
    {
        StatementTree { shape: self.shape, exprs: trees_of(self.exprs@) }
    }
}

/// A copy of each node of a list, in order.
fn clone_nodes(nodes: &Vec<ExpressionNode>) -> (copy: Vec<ExpressionNode>)
    ensures
        trees_of(copy@) == trees_of(nodes@),
    decreases nodes,
{
    let mut copy: Vec<ExpressionNode> = Vec::new();
    let mut i: usize = 0;
    while i < nodes.len()
        invariant
            i <= nodes.len(),
            copy.len() == i,
            forall|j: int| 0 <= j < i ==> (#[trigger] copy@[j]).view() == nodes@[j].view(),
        decreases nodes.len() - i,
    {
        copy.push(nodes[i].clone());
        i = i + 1;
    }
    assert(trees_of(copy@) =~= trees_of(nodes@));
    copy
}

/// A copy of each statement of a list, in order.
fn clone_statements(statements: &Vec<Statement>) -> (copy: Vec<Statement>)
    ensures
        statement_trees_of(copy@) == statement_trees_of(statements@),
    decreases statements,
{
    let mut copy: Vec<Statement> = Vec::new();
    let mut i: usize = 0;
    while i < statements.len()
        invariant
            i <= statements.len(),
            copy.len() == i,
            forall|j: int| 0 <= j < i ==> (#[trigger] copy@[j]).view() == statements@[j].view(),
        decreases statements.len() - i,
    {
        copy.push(statements[i].clone());
        i = i + 1;
    }
    assert(statement_trees_of(copy@) =~= statement_trees_of(statements@));
    copy
}

impl Clone for BinaryOp {
    fn clone(&self) -> (copy: Self)
        ensures
            copy@ == self@,
        decreases self,
    {
        BinaryOp {
            attrs: self.attrs.clone(),
            left: Box::new((*self.left).clone()),
            op: self.op,
            right: Box::new((*self.right).clone()),
        }
    }
}

impl Clone for UnaryOp {
    fn clone(&self) -> (copy: Self)
        ensures
            copy@ == self@,
        decreases self,
    {
        UnaryOp {
            attrs: self.attrs.clone(),
            op: self.op,
            operand: Box::new((*self.operand).clone()),
        }
    }
}

impl Clone for Assign {
    fn clone(&self) -> (copy: Self)
        ensures
            copy@ == self@,
        decreases self,
    {
        Assign {
            attrs: self.attrs.clone(),
            target: Box::new((*self.target).clone()),
            span: self.span,
            value: Box::new((*self.value).clone()),
        }
    }
}

impl Clone for Call {
    fn clone(&self) -> (copy: Self)
        ensures
            copy@ == self@,
        decreases self,
    {
        Call {
            attrs: self.attrs.clone(),
            receiver: Box::new((*self.receiver).clone()),
            method: self.method.clone(),
            span: self.span,
            args: clone_nodes(&self.args),
        }
    }
}

impl Clone for FieldAccess {
    fn clone(&self) -> (copy: Self)
        ensures
            copy@ == self@,
        decreases self,
    {
        FieldAccess {
            attrs: self.attrs.clone(),
            base: Box::new((*self.base).clone()),
            span: self.span,
            index: self.index,
        }
    }
}

impl Clone for Propagate {
    fn clone(&self) -> (copy: Self)
        ensures
            copy@ == self@,
        decreases self,
    {
        Propagate {
            attrs: self.attrs.clone(),
            inner: Box::new((*self.inner).clone()),
            span: self.span,
        }
    }
}

impl Clone for Literal {
    fn clone(&self) -> (copy: Self)
        ensures
            copy@ == self@,
    {
        Literal { attrs: self.attrs.clone(), text: self.text.clone(), span: self.span }
    }
}

impl Clone for Paren {
    fn clone(&self) -> (copy: Self)
        ensures
            copy@ == self@,
        decreases self,
    {
        Paren {
            attrs: self.attrs.clone(),
            span: self.span,
            inner: Box::new((*self.inner).clone()),
        }
    }
}

impl Clone for Other {
    fn clone(&self) -> (copy: Self)
        ensures
            copy@ == self@,
        decreases self,
    {
        Other { shape: self.shape, children: clone_nodes(&self.children) }
    }
}

impl Clone for Region {
    fn clone(&self) -> (copy: Self)
        ensures
            copy@ == self@,
        decreases self,
    {
        Region { policy: self.policy, body: clone_statements(&self.body) }
    }
}

impl Clone for Statement {
    fn clone(&self) -> (copy: Self)
        ensures
            copy@ == self@,
        decreases self,
    {
        Statement { shape: self.shape, exprs: clone_nodes(&self.exprs) }
    }
}

impl Clone for ExpressionNode {
    /// A deep copy: a node that stands for the same tree.
    fn clone(&self) -> (copy: Self)
        ensures
            copy@ == self@,
        decreases self,
    {
        match self {
            ExpressionNode::BinaryOp(node) => ExpressionNode::BinaryOp(node.clone()),
            ExpressionNode::UnaryOp(node) => ExpressionNode::UnaryOp(node.clone()),
            ExpressionNode::Assign(node) => ExpressionNode::Assign(node.clone()),
            ExpressionNode::Call(node) => ExpressionNode::Call(node.clone()),
            ExpressionNode::FieldAccess(node) => ExpressionNode::FieldAccess(node.clone()),
            ExpressionNode::Propagate(node) => ExpressionNode::Propagate(node.clone()),
            ExpressionNode::Literal(node) => ExpressionNode::Literal(node.clone()),
            ExpressionNode::Paren(node) => ExpressionNode::Paren(node.clone()),
            ExpressionNode::Other(node) => ExpressionNode::Other(node.clone()),
            ExpressionNode::Region(node) => ExpressionNode::Region(node.clone()),
        }
    }
}

/// The shape of the empty form, which nothing in a source text has.
pub open spec fn empty_shape() -> Shape {
    Shape(0)
}

/// The tree of the inert form that fills the operand places of a
/// placeholder.
pub open spec fn empty_tree() -> Tree {
    Tree::Other { shape: empty_shape(), children: Seq::empty() }
}

/// The node call `receiver.method(argument)` at `span`, or
/// `receiver.method()` where there is no argument. Parentheses around the
/// argument would be redundant inside those of the call and are taken
/// off.
pub open spec fn call_tree(
    method: Seq<char>,
    receiver: Tree,
    argument: Option<Tree>,
    span: SourceSpan,
    attrs: Seq<Attribute>,
) -> Tree {
    Tree::Call {
        attrs,
        receiver: Box::new(receiver),
        method,
        span,
        args: match argument {
            Some(tree) => seq![tree.unparenthesized()],
            None => Seq::empty(),
        },
    }
}

/// The view of an argument that may be absent.
pub open spec fn argument_tree(argument: Option<Box<ExpressionNode>>) -> Option<Tree> {
    match argument {
        Some(node) => Some(node.view()),
        None => None,
    }
}

/// Takes the node out of any number of enclosing parentheses.
fn strip_parens(node: ExpressionNode) -> (inner: ExpressionNode)
    ensures
        inner@ == node@.unparenthesized(),
    decreases node,
{
    match node {
        ExpressionNode::Paren(paren) => strip_parens(*paren.inner),
        other => other,
    }
}

/// Builds the call of method `ident` on `left`, with `right` as its only
/// argument if there is one. All tokens of the call stand at `span`.
pub fn method_call(
    ident: &str,
    left: Box<ExpressionNode>,
    right: Option<Box<ExpressionNode>>,
    span: SourceSpan,
    attrs: Vec<Attribute>,
) -> (call: Call)
    ensures
        call@ == call_tree(ident@, left@, argument_tree(right), span, attrs@),
{
    let mut args: Vec<ExpressionNode> = Vec::new();
    if let Some(right) = right {
        // Parentheses around the only argument of a call are redundant.
        args.push(strip_parens(*right));
        assert(trees_of(args@) =~= seq![right@.unparenthesized()]);
    } else {
        assert(trees_of(args@) =~= Seq::<Tree>::empty());
    }
    Call { attrs, receiver: left, method: ident.to_owned(), span, args }
}

fn empty_expr() -> (node: ExpressionNode)
    ensures
        node@ == empty_tree(),
{
    let children: Vec<ExpressionNode> = Vec::new();
    assert(trees_of(children@) =~= Seq::<Tree>::empty());
    ExpressionNode::Other(Other { shape: Shape(0), children })
}

/// The tree of the placeholder for a binary operation.
pub open spec fn empty_binary_tree() -> Tree {
    Tree::BinaryOp {
        attrs: Seq::empty(),
        left: Box::new(empty_tree()),
        op: BinOp { kind: BinOpKind::Add, span: SourceSpan(0) },
        right: Box::new(empty_tree()),
    }
}

/// The tree of the placeholder for a unary operation.
pub open spec fn empty_unary_tree() -> Tree {
    Tree::UnaryOp {
        attrs: Seq::empty(),
        op: UnOp { kind: UnOpKind::Neg, span: SourceSpan(0) },
        operand: Box::new(empty_tree()),
    }
}

/// An inert binary operation, to leave behind while the parts of a real
/// one are moved out of the tree.
pub fn empty_expr_binary() -> (node: BinaryOp)
    ensures
        node@ == empty_binary_tree(),
{
    BinaryOp {
        attrs: Vec::new(),
        left: Box::new(empty_expr()),
        op: BinOp { kind: BinOpKind::Add, span: SourceSpan::call_site() },
        right: Box::new(empty_expr()),
    }
}

/// An inert unary operation, to leave behind while the parts of a real one
/// are moved out of the tree.
pub fn empty_expr_unary() -> (node: UnaryOp)
    ensures
        node@ == empty_unary_tree(),
{
    UnaryOp {
        attrs: Vec::new(),
        op: UnOp { kind: UnOpKind::Neg, span: SourceSpan::call_site() },
        operand: Box::new(empty_expr()),
    }
}

} // verus!
