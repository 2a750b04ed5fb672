//! Scoped overflow policies for arithmetic expressions.
//!
//! The crate rewrites every arithmetic operator of an expression tree into
//! a call of the operation that handles overflow the way the chosen policy
//! asks for: panic, wrap, saturate, report, or propagate.
//!
//! A region of code is a list of [`Statement`]s. Each of [`checked`],
//! [`overflowing`], [`saturating`], [`propagating`] and [`wrapping`] runs
//! one pass over a region; [`default`] leaves a region as it is. A region
//! nested in another one is not entered by the pass over the outer one:
//! whoever expands the regions hands each to the pass it asks for.

use vstd::prelude::*;

pub mod block;
pub mod expr;
pub mod laws;
pub mod meta;
pub mod op;
pub mod rewrite;
pub mod tree;
pub mod visitor;

use crate::block::{
    Checked, MathBlock, Overflowing, Policy, Propagating, Saturating, Wrapping,
};
use crate::expr::{statement_trees_of, Statement};
use crate::rewrite::{rewritten_statement, rewritten_statements};
use crate::visitor::MathBlockVisitor;

verus! {

/// Rewrites a region so that every arithmetic operation panics where it
/// has no result, with the message that the plain operator would give.
pub fn checked(input: Vec<Statement>) -> (output: Vec<Statement>)
    ensures
        statement_trees_of(output@) == rewritten_statements(
            Checked::policy(),
            statement_trees_of(input@),
        ),
{
    try_expand::<Checked>(input)
}

/// Rewrites a region so that every arithmetic operation wraps around and
/// drops the flag that says whether it did.
pub fn overflowing(input: Vec<Statement>) -> (output: Vec<Statement>)
    ensures
        statement_trees_of(output@) == rewritten_statements(
            Overflowing::policy(),
            statement_trees_of(input@),
        ),
{
    try_expand::<Overflowing>(input)
}

/// Rewrites a region so that additions, subtractions, multiplications,
/// divisions and negations stop at the bounds of their type. Remainders
/// and shifts keep their default behaviour.
pub fn saturating(input: Vec<Statement>) -> (output: Vec<Statement>)
    ensures
        statement_trees_of(output@) == rewritten_statements(
            Saturating::policy(),
            statement_trees_of(input@),
        ),
{
    try_expand::<Saturating>(input)
}

/// Rewrites a region so that an arithmetic operation without a result
/// makes the enclosing function return `None` at once.
pub fn propagating(input: Vec<Statement>) -> (output: Vec<Statement>)
    ensures
        statement_trees_of(output@) == rewritten_statements(
            Propagating::policy(),
            statement_trees_of(input@),
        ),
{
    try_expand::<Propagating>(input)
}

/// Rewrites a region so that every arithmetic operation wraps around.
pub fn wrapping(input: Vec<Statement>) -> (output: Vec<Statement>)
    ensures
        statement_trees_of(output@) == rewritten_statements(
            Wrapping::policy(),
            statement_trees_of(input@),
        ),
{
    try_expand::<Wrapping>(input)
}

/// Leaves a region with the default behaviour of its operators: the
/// region comes back as it was given.
pub fn default(input: Vec<Statement>) -> (output: Vec<Statement>)
    ensures
        output == input,
{
    input
}

/// Runs a pass under the policy `B` over each statement of a region, in
/// order.
pub fn try_expand<B: MathBlock>(stmts: Vec<Statement>) -> (res: Vec<Statement>)
    ensures
        statement_trees_of(res@) == rewritten_statements(B::policy(), statement_trees_of(stmts@)),
{
    let mut res = stmts;
    let mut i: usize = 0;
    while i < res.len()
        invariant
            i <= res.len(),
            res.len() == stmts.len(),
            forall|j: int|
                0 <= j < i ==> (#[trigger] res@[j]).view() == rewritten_statement(
                    B::policy(),
                    stmts@[j].view(),
                ),
            forall|j: int| i <= j < res.len() ==> #[trigger] res@[j] == stmts@[j],
        decreases res.len() - i,
    {
        let mut visitor = MathBlockVisitor::<B>::new();
        visitor.visit_stmt_mut(&mut res[i]);
        i = i + 1;
    }
    assert(statement_trees_of(res@) =~= rewritten_statements(
        B::policy(),
        statement_trees_of(stmts@),
    ));
    res
}

/// The tag of a nested region: the name of the entry point that the
/// region asks for, `default` where it asks for no pass.
pub open spec fn region_tag(policy: Option<Policy>) -> Seq<char> {
    match policy {
        Some(Policy::Checked) => "checked"@,
        Some(Policy::Overflowing) => "overflowing"@,
        Some(Policy::Saturating) => "saturating"@,
        Some(Policy::Propagating) => "propagating"@,
        Some(Policy::Wrapping) => "wrapping"@,
        None => "default"@,
    }
}

/// What a tag asks for: `Some(policy)` where it is the tag of a region,
/// `None` where it is any other name.
pub open spec fn tagged_policy(tag: Seq<char>) -> Option<Option<Policy>> {
    if tag == "checked"@ {
        Some(Some(Policy::Checked))
    } else if tag == "overflowing"@ {
        Some(Some(Policy::Overflowing))
    } else if tag == "saturating"@ {
        Some(Some(Policy::Saturating))
    } else if tag == "propagating"@ {
        Some(Some(Policy::Propagating))
    } else if tag == "wrapping"@ {
        Some(Some(Policy::Wrapping))
    } else if tag == "default"@ {
        Some(None)
    } else {
        None
    }
}

/// The six tags differ, so each region is read back with the policy that
/// it was tagged with.
pub proof fn lemma_region_tag_read_back(policy: Option<Policy>)
    ensures
        tagged_policy(region_tag(policy)) == Some(policy),
{
    reveal_strlit("checked");
    reveal_strlit("overflowing");
    reveal_strlit("saturating");
    reveal_strlit("propagating");
    reveal_strlit("wrapping");
    reveal_strlit("default");
    assert("checked"@.len() == 7 && "default"@.len() == 7 && "wrapping"@.len() == 8);
    assert("saturating"@.len() == 10);
    assert("overflowing"@.len() == 11 && "propagating"@.len() == 11);
    assert("checked"@[0] == 'c' && "default"@[0] == 'd');
    assert("overflowing"@[0] == 'o' && "propagating"@[0] == 'p');
}

/// The name under which a nested region asks for `policy`.
pub fn region_name(policy: Option<Policy>) -> (name: &'static str)
    ensures
        name@ == region_tag(policy),
{
    match policy {
        Some(Policy::Checked) => "checked",
        Some(Policy::Overflowing) => "overflowing",
        Some(Policy::Saturating) => "saturating",
        Some(Policy::Propagating) => "propagating",
        Some(Policy::Wrapping) => "wrapping",
        None => "default",
    }
}

/// Reads the tag of a form: the policy that a nested region of that name
/// asks for, or `None` where a form of that name is no region.
pub fn region_policy(name: &str) -> (found: Option<Option<Policy>>)
    ensures
        found == tagged_policy(name@),
{
    let name = name.to_owned();
    if name == "checked".to_owned() {
        Some(Some(Policy::Checked))
    } else if name == "overflowing".to_owned() {
        Some(Some(Policy::Overflowing))
    } else if name == "saturating".to_owned() {
        Some(Some(Policy::Saturating))
    } else if name == "propagating".to_owned() {
        Some(Some(Policy::Propagating))
    } else if name == "wrapping".to_owned() {
        Some(Some(Policy::Wrapping))
    } else if name == "default".to_owned() {
        Some(None)
    } else {
        None
    }
}

} // verus!
