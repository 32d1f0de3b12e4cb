use vstd::prelude::*;

verus! {

/// A builder-time contract violation.
///
/// All three conditions mean the grammar-authoring code misused the builder
/// API; none of them is a data-dependent runtime failure, and none is ever
/// coerced silently into a valid tree.
#[derive(Clone, Copy, Debug, PartialEq, Eq, Structural)]
pub enum BuildError {
    /// The character-class pattern, after bracket escaping, does not compile.
    InvalidCharacterClass,
    /// A lookahead modifier was applied to an element that already carries one.
    LookaheadAlreadySet,
    /// A loop range was requested whose minimum exceeds its maximum.
    InvalidLoopRange,
}

} // verus!
