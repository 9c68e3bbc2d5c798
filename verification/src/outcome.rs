use vstd::prelude::*;

verus! {

/// The outcome of a validity check: either the value is valid, or it is
/// invalid for a caller-defined reason `R`.
///
/// This is a closed, two-state sum type; it is produced by a validity check
/// and consumed by the validation entry point, and offers nothing beyond
/// pattern inspection.
pub enum Outcome<R> {
    /// The value satisfies its validity predicate.
    Valid,
    /// The value does not satisfy its validity predicate; the payload says
    /// why.
    Invalid(R),
}

} // verus!
