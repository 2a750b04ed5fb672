//! The policy tables and what each policy builds around a call.

use overf::block::{Checked, MathBlock, Overflowing, Policy, Propagating, Saturating, Wrapping};
use overf::expr::{Call, ExpressionNode, FieldAccess, Literal, Other, Propagate};
use overf::meta::{Shape, SourceSpan};
use overf::op::{BinOp, BinOpKind, UnOp, UnOpKind};
use overf::visitor::is_assign;
use overf::{region_name, region_policy};

const PLAIN: [(BinOpKind, &str); 7] = [
    (BinOpKind::Add, "add"),
    (BinOpKind::Sub, "sub"),
    (BinOpKind::Mul, "mul"),
    (BinOpKind::Div, "div"),
    (BinOpKind::Rem, "rem"),
    (BinOpKind::Shl, "shl"),
    (BinOpKind::Shr, "shr"),
];

const COMPOUND: [(BinOpKind, &str); 7] = [
    (BinOpKind::AddAssign, "add"),
    (BinOpKind::SubAssign, "sub"),
    (BinOpKind::MulAssign, "mul"),
    (BinOpKind::DivAssign, "div"),
    (BinOpKind::RemAssign, "rem"),
    (BinOpKind::ShlAssign, "shl"),
    (BinOpKind::ShrAssign, "shr"),
];

const NOT_ARITHMETIC: [BinOpKind; 14] = [
    BinOpKind::And,
    BinOpKind::Or,
    BinOpKind::BitXor,
    BinOpKind::BitAnd,
    BinOpKind::BitOr,
    BinOpKind::Eq,
    BinOpKind::Lt,
    BinOpKind::Le,
    BinOpKind::Ne,
    BinOpKind::Ge,
    BinOpKind::Gt,
    BinOpKind::BitXorAssign,
    BinOpKind::BitAndAssign,
    BinOpKind::BitOrAssign,
];

fn bin(kind: BinOpKind) -> BinOp {
    BinOp { kind, span: SourceSpan(9) }
}

fn un(kind: UnOpKind) -> UnOp {
    UnOp { kind, span: SourceSpan(9) }
}

fn leaf(tag: u64) -> ExpressionNode {
    ExpressionNode::Other(Other { shape: Shape(tag), children: Vec::new() })
}

/// `leaf.method()` as a policy gets it: the call that stands for an
/// operator.
fn some_call() -> ExpressionNode {
    ExpressionNode::Call(Call {
        attrs: Vec::new(),
        receiver: Box::new(leaf(1)),
        method: "checked_add".to_string(),
        span: SourceSpan(9),
        args: vec![leaf(2)],
    })
}

fn expect_of(message: &str) -> ExpressionNode {
    ExpressionNode::Call(Call {
        attrs: Vec::new(),
        receiver: Box::new(some_call()),
        method: "expect".to_string(),
        span: SourceSpan(9),
        args: vec![ExpressionNode::Literal(Literal {
            attrs: Vec::new(),
            text: message.to_string(),
            span: SourceSpan(9),
        })],
    })
}

fn unwrap_of() -> ExpressionNode {
    ExpressionNode::Call(Call {
        attrs: Vec::new(),
        receiver: Box::new(some_call()),
        method: "unwrap".to_string(),
        span: SourceSpan(9),
        args: Vec::new(),
    })
}

#[test]
fn checked_table_names_every_arithmetic_operator() {
    for (kind, word) in PLAIN.iter().chain(COMPOUND.iter()) {
        let expected = format!("checked_{}", word);
        assert_eq!(Checked::method_ident_bin(bin(*kind)), Some(expected.as_str()));
        assert_eq!(Propagating::method_ident_bin(bin(*kind)), Some(expected.as_str()));
    }
    assert_eq!(Checked::method_ident_bin(bin(BinOpKind::Add)), Some("checked_add"));
    assert_eq!(Checked::method_ident_bin(bin(BinOpKind::ShrAssign)), Some("checked_shr"));
    assert_eq!(Checked::method_ident_un(un(UnOpKind::Neg)), Some("checked_negate"));
    assert_eq!(Propagating::method_ident_un(un(UnOpKind::Neg)), Some("checked_negate"));
}

#[test]
fn overflowing_table_names_every_arithmetic_operator() {
    for (kind, word) in PLAIN.iter().chain(COMPOUND.iter()) {
        let expected = format!("overflowing_{}", word);
        assert_eq!(Overflowing::method_ident_bin(bin(*kind)), Some(expected.as_str()));
    }
    assert_eq!(Overflowing::method_ident_bin(bin(BinOpKind::Mul)), Some("overflowing_mul"));
    assert_eq!(Overflowing::method_ident_un(un(UnOpKind::Neg)), Some("overflowing_negate"));
}

#[test]
fn wrapping_table_names_every_arithmetic_operator() {
    for (kind, word) in PLAIN.iter().chain(COMPOUND.iter()) {
        let expected = format!("wrapping_{}", word);
        assert_eq!(Wrapping::method_ident_bin(bin(*kind)), Some(expected.as_str()));
    }
    assert_eq!(Wrapping::method_ident_bin(bin(BinOpKind::RemAssign)), Some("wrapping_rem"));
    assert_eq!(Wrapping::method_ident_un(un(UnOpKind::Neg)), Some("wrapping_negate"));
}

#[test]
fn saturating_table_has_no_remainder_and_no_shift() {
    for (kind, word) in PLAIN.iter().chain(COMPOUND.iter()) {
        let found = Saturating::method_ident_bin(bin(*kind));
        if *word == "rem" || *word == "shl" || *word == "shr" {
            assert_eq!(found, None);
        } else {
            assert_eq!(found, Some(format!("saturating_{}", word).as_str()));
        }
    }
    assert_eq!(Saturating::method_ident_bin(bin(BinOpKind::Div)), Some("saturating_div"));
    assert_eq!(Saturating::method_ident_bin(bin(BinOpKind::Rem)), None);
    assert_eq!(Saturating::method_ident_bin(bin(BinOpKind::ShlAssign)), None);
    assert_eq!(Saturating::method_ident_bin(bin(BinOpKind::Shr)), None);
    assert_eq!(Saturating::method_ident_un(un(UnOpKind::Neg)), Some("saturating_negate"));
}

#[test]
fn no_table_names_an_operator_that_is_not_arithmetic() {
    for kind in NOT_ARITHMETIC {
        assert_eq!(Checked::method_ident_bin(bin(kind)), None);
        assert_eq!(Overflowing::method_ident_bin(bin(kind)), None);
        assert_eq!(Saturating::method_ident_bin(bin(kind)), None);
        assert_eq!(Propagating::method_ident_bin(bin(kind)), None);
        assert_eq!(Wrapping::method_ident_bin(bin(kind)), None);
    }
    for kind in [UnOpKind::Deref, UnOpKind::Not] {
        assert_eq!(Checked::method_ident_un(un(kind)), None);
        assert_eq!(Overflowing::method_ident_un(un(kind)), None);
        assert_eq!(Saturating::method_ident_un(un(kind)), None);
        assert_eq!(Propagating::method_ident_un(un(kind)), None);
        assert_eq!(Wrapping::method_ident_un(un(kind)), None);
    }
}

#[test]
fn checked_finalize_expects_the_message_of_the_operator() {
    let messages = [
        "attempt to add with overflow",
        "attempt to subtract with overflow",
        "attempt to multiply with overflow",
        "attempt to divide by zero",
        "attempt to calculate the remainder with a divisor of zero",
        "attempt to shift left with overflow",
        "attempt to shift right with overflow",
    ];
    for (i, message) in messages.iter().enumerate() {
        assert_eq!(Checked::finalize_bin(some_call(), bin(PLAIN[i].0)), expect_of(message));
        assert_eq!(Checked::finalize_bin(some_call(), bin(COMPOUND[i].0)), expect_of(message));
    }
    assert_eq!(
        Checked::finalize_bin(some_call(), bin(BinOpKind::Div)),
        expect_of("attempt to divide by zero")
    );
    assert_eq!(
        Checked::finalize_un(some_call(), un(UnOpKind::Neg)),
        expect_of("attempt to negate with overflow")
    );
}

#[test]
fn checked_finalize_unwraps_where_there_is_no_message() {
    for kind in NOT_ARITHMETIC {
        assert_eq!(Checked::finalize_bin(some_call(), bin(kind)), unwrap_of());
    }
    assert_eq!(Checked::finalize_un(some_call(), un(UnOpKind::Not)), unwrap_of());
    assert_eq!(Checked::finalize_un(some_call(), un(UnOpKind::Deref)), unwrap_of());
}

#[test]
fn overflowing_finalize_takes_the_first_field() {
    let expected = ExpressionNode::FieldAccess(FieldAccess {
        attrs: Vec::new(),
        base: Box::new(some_call()),
        span: SourceSpan(9),
        index: 0,
    });
    assert_eq!(Overflowing::finalize_bin(some_call(), bin(BinOpKind::Add)), expected);
    assert_eq!(Overflowing::finalize_un(some_call(), un(UnOpKind::Neg)), expected);
}

#[test]
fn propagating_finalize_propagates() {
    let expected = ExpressionNode::Propagate(Propagate {
        attrs: Vec::new(),
        inner: Box::new(some_call()),
        span: SourceSpan(9),
    });
    assert_eq!(Propagating::finalize_bin(some_call(), bin(BinOpKind::Sub)), expected);
    assert_eq!(Propagating::finalize_un(some_call(), un(UnOpKind::Neg)), expected);
}

#[test]
fn saturating_and_wrapping_finalize_keep_the_call() {
    assert_eq!(Saturating::finalize_bin(some_call(), bin(BinOpKind::Add)), some_call());
    assert_eq!(Saturating::finalize_un(some_call(), un(UnOpKind::Neg)), some_call());
    assert_eq!(Wrapping::finalize_bin(some_call(), bin(BinOpKind::Shl)), some_call());
    assert_eq!(Wrapping::finalize_un(some_call(), un(UnOpKind::Neg)), some_call());
}

#[test]
fn compound_forms_are_the_ten_assignments() {
    let compound = [
        BinOpKind::AddAssign,
        BinOpKind::SubAssign,
        BinOpKind::MulAssign,
        BinOpKind::DivAssign,
        BinOpKind::RemAssign,
        BinOpKind::BitXorAssign,
        BinOpKind::BitAndAssign,
        BinOpKind::BitOrAssign,
        BinOpKind::ShlAssign,
        BinOpKind::ShrAssign,
    ];
    for kind in compound {
        assert!(is_assign(bin(kind)));
    }
    let plain = [
        BinOpKind::Add,
        BinOpKind::Sub,
        BinOpKind::Mul,
        BinOpKind::Div,
        BinOpKind::Rem,
        BinOpKind::And,
        BinOpKind::Or,
        BinOpKind::BitXor,
        BinOpKind::BitAnd,
        BinOpKind::BitOr,
        BinOpKind::Shl,
        BinOpKind::Shr,
        BinOpKind::Eq,
        BinOpKind::Lt,
        BinOpKind::Le,
        BinOpKind::Ne,
        BinOpKind::Ge,
        BinOpKind::Gt,
    ];
    for kind in plain {
        assert!(!is_assign(bin(kind)));
    }
}

#[test]
fn regions_are_tagged_with_the_names_of_the_entry_points() {
    assert_eq!(region_name(Some(Policy::Checked)), "checked");
    assert_eq!(region_name(Some(Policy::Overflowing)), "overflowing");
    assert_eq!(region_name(Some(Policy::Saturating)), "saturating");
    assert_eq!(region_name(Some(Policy::Propagating)), "propagating");
    assert_eq!(region_name(Some(Policy::Wrapping)), "wrapping");
    assert_eq!(region_name(None), "default");

    assert_eq!(region_policy("checked"), Some(Some(Policy::Checked)));
    assert_eq!(region_policy("overflowing"), Some(Some(Policy::Overflowing)));
    assert_eq!(region_policy("saturating"), Some(Some(Policy::Saturating)));
    assert_eq!(region_policy("propagating"), Some(Some(Policy::Propagating)));
    assert_eq!(region_policy("wrapping"), Some(Some(Policy::Wrapping)));
    assert_eq!(region_policy("default"), Some(None));
    for name in ["", "println", "Checked", "checked ", "wrap", "defaults"] {
        assert_eq!(region_policy(name), None);
    }
    for policy in [
        None,
        Some(Policy::Checked),
        Some(Policy::Overflowing),
        Some(Policy::Saturating),
        Some(Policy::Propagating),
        Some(Policy::Wrapping),
    ] {
        assert_eq!(region_policy(region_name(policy)), Some(policy));
    }
}
