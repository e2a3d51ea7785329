//! Failure kinds of the object model: following a reference that cannot be
//! followed, and meeting a primitive of the wrong variant.

use vstd::prelude::*;

verus! {

/// Why an operation on the object model failed.
#[derive(Clone, Copy, Debug, PartialEq, Eq, Structural)]
pub enum ErrorKind {
    /// A reference had to be followed, but following is disallowed by the
    /// chosen resolver or the target is unknown.
    FollowReference,
    /// The primitive at hand is not of the variant the caller asked for.
    UnexpectedPrimitive,
}

} // verus!
