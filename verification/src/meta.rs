//! Opaque tags that expression nodes carry along: source locations,
//! attributes and the shapes of uninterpreted forms.
//!
//! The rewriter never looks inside a tag. It only copies tags from one
//! node to another, so a tag is a bare number whose meaning belongs to
//! whoever built the tree.

use vstd::prelude::*;

verus! {

/// An opaque source location. Tag `0` is the call site, the location of
/// nodes that were not read from any source text.
#[derive(Clone, Copy, Debug, PartialEq, Eq, Hash, Structural)]
pub struct SourceSpan(pub u64);

impl SourceSpan {
    /// The location carried by nodes that have none of their own.
    pub fn call_site() -> (span: SourceSpan)
        ensures
            span == SourceSpan(0),
    {
        SourceSpan(0)
    }
}

/// An opaque attribute attached to an expression.
#[derive(Clone, Copy, Debug, PartialEq, Eq, Hash, Structural)]
pub struct Attribute(pub u64);

/// The opaque shape of a form that the rewriter does not interpret: what
/// is left of the form once its nested expressions are taken out.
#[derive(Clone, Copy, Debug, PartialEq, Eq, Hash, Structural)]
pub struct Shape(pub u64);

} // verus!
