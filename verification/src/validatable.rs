use vstd::prelude::*;

use crate::outcome::Outcome;

verus! {

/// The self-validation protocol: a type that can report its own validity.
///
/// An implementer supplies the validity predicate twice: once as the spec
/// function [`Validatable::validity_spec`], which gives the mathematical
/// meaning of validity, and once as the executable check
/// [`Validatable::validity`], which is proved to agree with it.  The entry
/// point [`SelfValidate::validate`], available for every implementer,
/// consumes the value and returns either a [`Checked`] proof wrapper or the
/// failure reason.
pub trait Validatable: Sized {
    /// The caller-defined reason a value can be invalid.
    type Error;

    /// What validity means for this type.
    spec fn validity_spec(&self) -> Outcome<Self::Error>;

    /// Check the validity of `self` without giving up ownership.
    ///
    /// Pure inspection: the result is exactly what
    /// [`Validatable::validity_spec`] says of the current value.
    fn validity(&self) -> (o: Outcome<Self::Error>)
        ensures
            o == self.validity_spec(),
    ;
}

/// A proof wrapper: a value of type `Checked<T>` exists only if some value of
/// `T` passed its own validity check at the moment of wrapping.
///
/// The wrapped value can be read and mutated freely; no re-validation is
/// performed after construction or after mutation.  The ghost field `origin`
/// records the value that was checked at construction, so the guarantee that
/// *some* value passed the check survives any later mutation; see
/// [`Checked::origin_valid`].
pub struct Checked<T: Validatable> {
    value: T,
    origin: Ghost<T>,
}

impl<T: Validatable> Checked<T> {
    /// The value currently held by the wrapper.
    pub closed spec fn value_spec(self) -> T {
        self.value
    }

    /// The value that passed the validity check when the wrapper was built.
    pub closed spec fn origin_spec(self) -> T {
        self.origin@
    }

    #[verifier::type_invariant]
    spec fn origin_checked(self) -> bool {
        self.origin@.validity_spec() matches Outcome::Valid
    }

    /// The sole constructor; it is deliberately not public, so the only
    /// route to a `Checked<T>` outside this crate is
    /// [`SelfValidate::validate`].
    pub(crate) fn new(value: T) -> (r: Checked<T>)
        requires
            value.validity_spec() matches Outcome::Valid,
        ensures
            r.value_spec() == value,
            r.origin_spec() == value,
    {
        let ghost origin = value;
        Checked { value, origin: Ghost(origin) }
    }

    /// Every wrapper in existence was built from a value that passed its
    /// validity check: there is no bypassing constructor.
    pub fn origin_valid(&self)
        ensures
            self.origin_spec().validity_spec() matches Outcome::Valid,
    {
        proof {
            use_type_invariant(self);
        }
    }

    /// Transparent read access to the wrapped value.
    pub fn get(&self) -> (r: &T)
        ensures
            *r == self.value_spec(),
    {
        &self.value
    }

    /// Transparent mutable access: replace the wrapped value, without
    /// re-checking it.
    ///
    /// Mutation is not followed by a re-check: the wrapper keeps whatever
    /// the caller writes, and later reads return it unchanged.
    pub fn set(&mut self, value: T)
        ensures
            final(self).value_spec() == value,
            final(self).origin_spec() == old(self).origin_spec(),
    {
        proof {
            use_type_invariant(&*self);
        }
        self.value = value;
    }

    /// Re-run the validity check on the value as it stands now.
    ///
    /// Construction guarantees only that the *original* value was valid;
    /// after mutation the guarantee may be stale, and a caller who needs it
    /// to hold continuously re-validates through this method.
    pub fn recheck(&self) -> (o: Outcome<T::Error>)
        ensures
            o == self.value_spec().validity_spec(),
    {
        self.value.validity()
    }

    /// Unwrap, handing the (possibly mutated) value back to the caller.
    pub fn into_inner(self) -> (r: T)
        ensures
            r == self.value_spec(),
    {
        self.value
    }
}

/// The entry point of the self-validation protocol, available for every
/// [`Validatable`] type through a blanket implementation, so that no
/// implementer can substitute its own construction path.
pub trait SelfValidate: Validatable {
    /// Attempt to validate `self`, consuming it.
    ///
    /// If `self` is valid, the value moves into a [`Checked`] wrapper that
    /// holds it unchanged; otherwise the value is dropped and exactly the
    /// reason reported by the validity check is returned.
    fn validate(self) -> (r: Result<Checked<Self>, Self::Error>)
        ensures
            (match self.validity_spec() {
                Outcome::Valid => (r matches Ok(c)
                    && c.value_spec() == self
                    && c.origin_spec() == self),
                Outcome::Invalid(reason) => (r matches Err(e) && e == reason),
            }),
    ;
}

impl<T: Validatable> SelfValidate for T {
    fn validate(self) -> (r: Result<Checked<T>, T::Error>) {
        match self.validity() {
            Outcome::Valid => Ok(Checked::new(self)),
            Outcome::Invalid(reason) => Err(reason),
        }
    }
}

} // verus!
