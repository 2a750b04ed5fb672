//! The regions of arithmetic that every policy has to get through, as
//! trees: the pass over each has to give exactly the calls written out
//! here.

use overf::block::Policy;
use overf::expr::{
    BinaryOp, Call, ExpressionNode, FieldAccess, Literal, Other, Propagate, Region, Statement,
    UnaryOp,
};
use overf::meta::{Shape, SourceSpan};
use overf::op::{BinOp, BinOpKind, UnOp, UnOpKind};
use overf::{checked, overflowing, propagating, saturating};

// Names of the bindings, as shapes of the leaves that read them.
const A: u64 = 1001;
const B: u64 = 1002;
const D: u64 = 1004;
const G: u64 = 1007;

/// The literal `value`, with or without a suffix.
fn lit(value: u64) -> ExpressionNode {
    ExpressionNode::Other(Other { shape: Shape(value), children: Vec::new() })
}

/// The path that reads a binding.
fn var(name: u64) -> ExpressionNode {
    ExpressionNode::Other(Other { shape: Shape(name), children: Vec::new() })
}

/// `left op right`, with the operator at `span`.
fn binary(left: ExpressionNode, kind: BinOpKind, span: u64, right: ExpressionNode) -> ExpressionNode {
    ExpressionNode::BinaryOp(BinaryOp {
        attrs: Vec::new(),
        left: Box::new(left),
        op: BinOp { kind, span: SourceSpan(span) },
        right: Box::new(right),
    })
}

/// `-operand`, with the operator at `span`.
fn negate(span: u64, operand: ExpressionNode) -> ExpressionNode {
    ExpressionNode::UnaryOp(UnaryOp {
        attrs: Vec::new(),
        op: UnOp { kind: UnOpKind::Neg, span: SourceSpan(span) },
        operand: Box::new(operand),
    })
}

/// `let <binding> = <init>;`, the binding being part of the shape.
fn bind(shape: u64, init: ExpressionNode) -> Statement {
    Statement { shape: Shape(shape), exprs: vec![init] }
}

/// `receiver.method(args)` at `span`.
fn call(receiver: ExpressionNode, method: &str, span: u64, args: Vec<ExpressionNode>) -> ExpressionNode {
    ExpressionNode::Call(Call {
        attrs: Vec::new(),
        receiver: Box::new(receiver),
        method: method.to_string(),
        span: SourceSpan(span),
        args,
    })
}

/// `receiver.method(argument).expect(message)`, all at `span`.
fn expect(
    receiver: ExpressionNode,
    method: &str,
    span: u64,
    args: Vec<ExpressionNode>,
    message: &str,
) -> ExpressionNode {
    let text = ExpressionNode::Literal(Literal {
        attrs: Vec::new(),
        text: message.to_string(),
        span: SourceSpan(span),
    });
    call(call(receiver, method, span, args), "expect", span, vec![text])
}

/// `receiver.method(argument).0`, all at `span`.
fn first(receiver: ExpressionNode, method: &str, span: u64, args: Vec<ExpressionNode>) -> ExpressionNode {
    ExpressionNode::FieldAccess(FieldAccess {
        attrs: Vec::new(),
        base: Box::new(call(receiver, method, span, args)),
        span: SourceSpan(span),
        index: 0,
    })
}

/// `receiver.method(argument)?`, all at `span`.
fn question(receiver: ExpressionNode, method: &str, span: u64, args: Vec<ExpressionNode>) -> ExpressionNode {
    ExpressionNode::Propagate(Propagate {
        attrs: Vec::new(),
        inner: Box::new(call(receiver, method, span, args)),
        span: SourceSpan(span),
    })
}

/// A nested region as a statement of the enclosing one.
fn nested(shape: u64, policy: Option<Policy>, body: Vec<Statement>) -> Statement {
    Statement {
        shape: Shape(shape),
        exprs: vec![ExpressionNode::Region(Region { policy, body })],
    }
}

/// `let h = a + b; let i = b - d;`
fn inner_body() -> Vec<Statement> {
    vec![
        bind(2008, binary(var(A), BinOpKind::Add, 108, var(B))),
        bind(2009, binary(var(B), BinOpKind::Sub, 109, var(D))),
    ]
}

/// The seven bindings `a` to `g` that all the regions start with.
fn seven_bindings() -> Vec<Statement> {
    vec![
        bind(2001, binary(lit(10), BinOpKind::Add, 101, lit(5))),
        bind(2002, binary(lit(20), BinOpKind::Sub, 102, lit(10))),
        bind(2003, binary(lit(3), BinOpKind::Mul, 103, lit(7))),
        bind(2004, binary(lit(21), BinOpKind::Div, 104, lit(3))),
        bind(2005, binary(lit(10), BinOpKind::Rem, 105, lit(3))),
        bind(2006, binary(lit(1), BinOpKind::Shl, 106, lit(3))),
        bind(2007, binary(lit(8), BinOpKind::Shr, 107, lit(2))),
    ]
}

#[test]
fn test_checked_arithmetic() {
    let mut region = seven_bindings();
    region.push(nested(3000, None, inner_body()));
    region.push(bind(2011, negate(111, lit(1))));

    let rewritten = checked(region);

    let expected = vec![
        bind(2001, expect(lit(10), "checked_add", 101, vec![lit(5)], "attempt to add with overflow")),
        bind(
            2002,
            expect(lit(20), "checked_sub", 102, vec![lit(10)], "attempt to subtract with overflow"),
        ),
        bind(
            2003,
            expect(lit(3), "checked_mul", 103, vec![lit(7)], "attempt to multiply with overflow"),
        ),
        bind(2004, expect(lit(21), "checked_div", 104, vec![lit(3)], "attempt to divide by zero")),
        bind(
            2005,
            expect(
                lit(10),
                "checked_rem",
                105,
                vec![lit(3)],
                "attempt to calculate the remainder with a divisor of zero",
            ),
        ),
        bind(
            2006,
            expect(lit(1), "checked_shl", 106, vec![lit(3)], "attempt to shift left with overflow"),
        ),
        bind(
            2007,
            expect(lit(8), "checked_shr", 107, vec![lit(2)], "attempt to shift right with overflow"),
        ),
        // The nested region keeps its plain operators.
        nested(3000, None, inner_body()),
        bind(2011, expect(lit(1), "checked_negate", 111, vec![], "attempt to negate with overflow")),
    ];
    assert_eq!(rewritten, expected);
}

#[test]
fn test_overflowing_arithmetic() {
    let mut region = seven_bindings();
    region.push(nested(3000, None, inner_body()));
    region.push(bind(2011, negate(111, var(G))));

    let rewritten = overflowing(region);

    let expected = vec![
        bind(2001, first(lit(10), "overflowing_add", 101, vec![lit(5)])),
        bind(2002, first(lit(20), "overflowing_sub", 102, vec![lit(10)])),
        bind(2003, first(lit(3), "overflowing_mul", 103, vec![lit(7)])),
        bind(2004, first(lit(21), "overflowing_div", 104, vec![lit(3)])),
        bind(2005, first(lit(10), "overflowing_rem", 105, vec![lit(3)])),
        bind(2006, first(lit(1), "overflowing_shl", 106, vec![lit(3)])),
        bind(2007, first(lit(8), "overflowing_shr", 107, vec![lit(2)])),
        nested(3000, None, inner_body()),
        bind(2011, first(var(G), "overflowing_negate", 111, vec![])),
    ];
    assert_eq!(rewritten, expected);
}

#[test]
fn test_saturating_arithmetic() {
    let mut region = seven_bindings();
    region.push(nested(3000, Some(Policy::Checked), inner_body()));

    let rewritten = saturating(region);

    let expected = vec![
        bind(2001, call(lit(10), "saturating_add", 101, vec![lit(5)])),
        bind(2002, call(lit(20), "saturating_sub", 102, vec![lit(10)])),
        bind(2003, call(lit(3), "saturating_mul", 103, vec![lit(7)])),
        bind(2004, call(lit(21), "saturating_div", 104, vec![lit(3)])),
        // These operators have no saturating method and keep the default
        // behaviour.
        bind(2005, binary(lit(10), BinOpKind::Rem, 105, lit(3))),
        bind(2006, binary(lit(1), BinOpKind::Shl, 106, lit(3))),
        bind(2007, binary(lit(8), BinOpKind::Shr, 107, lit(2))),
        // The region that asks for checked arithmetic is left to its own
        // pass.
        nested(3000, Some(Policy::Checked), inner_body()),
    ];
    assert_eq!(rewritten, expected);

    // That pass, on what the region holds.
    let inner = checked(inner_body());
    let expected_inner = vec![
        bind(2008, expect(var(A), "checked_add", 108, vec![var(B)], "attempt to add with overflow")),
        bind(
            2009,
            expect(var(B), "checked_sub", 109, vec![var(D)], "attempt to subtract with overflow"),
        ),
    ];
    assert_eq!(inner, expected_inner);
}

#[test]
fn test_propagating_arithmetic() {
    // `fn inner() -> Option<()> { .. Some(()) }`: one statement, which
    // holds every expression of the body of the function.
    let unit = ExpressionNode::Other(Other { shape: Shape(4001), children: Vec::new() });
    let some_unit = ExpressionNode::Other(Other { shape: Shape(4002), children: vec![unit] });
    let mut body: Vec<ExpressionNode> =
        seven_bindings().into_iter().flat_map(|statement| statement.exprs).collect();
    body.push(ExpressionNode::Region(Region { policy: None, body: inner_body() }));
    body.push(negate(111, var(G)));
    body.push(some_unit.clone());
    let region = vec![Statement { shape: Shape(5000), exprs: body }];

    let rewritten = propagating(region);

    let expected = vec![Statement {
        shape: Shape(5000),
        exprs: vec![
            question(lit(10), "checked_add", 101, vec![lit(5)]),
            question(lit(20), "checked_sub", 102, vec![lit(10)]),
            question(lit(3), "checked_mul", 103, vec![lit(7)]),
            question(lit(21), "checked_div", 104, vec![lit(3)]),
            question(lit(10), "checked_rem", 105, vec![lit(3)]),
            question(lit(1), "checked_shl", 106, vec![lit(3)]),
            question(lit(8), "checked_shr", 107, vec![lit(2)]),
            ExpressionNode::Region(Region { policy: None, body: inner_body() }),
            question(var(G), "checked_negate", 111, vec![]),
            some_unit,
        ],
    }];
    assert_eq!(rewritten, expected);
}

#[test]
fn default_region_comes_back_unchanged() {
    let mut region = seven_bindings();
    region.push(nested(3000, Some(Policy::Wrapping), inner_body()));
    let before = region.clone();
    assert_eq!(overf::default(region), before);
}
