use vstd::prelude::*;

verus! {

/// The external-validator protocol: implementors provide a validation
/// service for values of the source type `S`, producing a new, distinct
/// validated type rather than wrapping the source.
///
/// An implementer supplies the conversion twice: once as the spec function
/// [`Validator::from_unvalidated_spec`], which gives its mathematical
/// meaning, and once as the executable constructor
/// [`Validator::from_unvalidated`], which is proved to agree with it.
pub trait Validator<S>: Sized {
    /// Validation error.
    type Error;

    /// What the validating conversion returns for each source value.
    spec fn from_unvalidated_spec(src: S) -> Result<Self, Self::Error>;

    /// Attempt to validate the source value, consuming it.
    ///
    /// This is the sole constructor of the validated type from an unchecked
    /// `S`; on failure the source is dropped and only the error remains.
    fn from_unvalidated(src: S) -> (r: Result<Self, Self::Error>)
        ensures
            r == Self::from_unvalidated_spec(src),
    ;
}

/// Implementors have a validator available to conduct validation.
///
/// This bridging capability is automatically available for every source type
/// and every [`Validator`] for it; it adds no behaviour of its own.
pub trait Validate<V: Validator<Self>>: Sized {
    /// Validate the value via the designated [`Validator`].
    fn validate(self) -> (r: Result<V, V::Error>)
        ensures
            r == V::from_unvalidated_spec(self),
    {
        Validator::from_unvalidated(self)
    }
}

impl<S, V: Validator<S>> Validate<V> for S {
}

} // verus!
