use vstd::prelude::*;

use crate::outcome::Outcome;
use crate::validatable::Validatable;
use crate::validator::Validator;

verus! {

/// Why a ranged integer failed validation.
#[derive(Debug)]
pub enum Error {
    /// The value is below the lower bound of the range.
    TooSmall,
    /// The value is above the upper bound of the range.
    TooBig,
}

/// The smallest accepted value.
pub const LOW: u8 = 5;

/// The largest accepted value.
pub const HIGH: u8 = 10;

/// An integer validated externally: a `ValidU8` holds a value in
/// [`LOW`]`..=`[`HIGH`], and its only constructor is the
/// [`Validator`] conversion, so no instance outside that range can exist.
pub struct ValidU8 {
    value: u8,
}

impl ValidU8 {
    /// The validated value.
    pub closed spec fn value_spec(&self) -> u8 {
        self.value
    }

    #[verifier::type_invariant]
    spec fn in_range(self) -> bool {
        LOW <= self.value <= HIGH
    }

    /// Read the validated value; it is always within the accepted range.
    pub fn value(&self) -> (r: u8)
        ensures
            r == self.value_spec(),
            LOW <= r <= HIGH,
    {
        proof {
            use_type_invariant(self);
        }
        self.value
    }

    /// Every `ValidU8` in existence holds a value within the accepted
    /// range: there is no bypassing constructor.
    pub fn always_in_range(&self)
        ensures
            LOW <= self.value_spec() <= HIGH,
    {
        proof {
            use_type_invariant(self);
        }
    }
}

impl Validator<u8> for ValidU8 {
    type Error = Error;

    closed spec fn from_unvalidated_spec(src: u8) -> Result<ValidU8, Error> {
        if src < LOW {
            Err(Error::TooSmall)
        } else if src > HIGH {
            Err(Error::TooBig)
        } else {
            Ok(ValidU8 { value: src })
        }
    }

    fn from_unvalidated(src: u8) -> (r: Result<ValidU8, Error>) {
        if src < LOW {
            Err(Error::TooSmall)
        } else if src > HIGH {
            Err(Error::TooBig)
        } else {
            Ok(ValidU8 { value: src })
        }
    }
}

/// What the validating conversion of [`ValidU8`] returns, stated over the
/// source value alone: values below [`LOW`] fail as too small, values above
/// [`HIGH`] fail as too big, and values in range succeed with the source
/// stored unchanged.
pub proof fn lemma_valid_u8_behaviour(src: u8)
    ensures
        src < LOW ==> (<ValidU8 as Validator<u8>>::from_unvalidated_spec(src) matches Err(
            Error::TooSmall,
        )),
        src > HIGH ==> (<ValidU8 as Validator<u8>>::from_unvalidated_spec(src) matches Err(
            Error::TooBig,
        )),
        LOW <= src <= HIGH ==> (<ValidU8 as Validator<u8>>::from_unvalidated_spec(src) matches Ok(v)
            && v.value_spec() == src),
{
}

/// An integer that validates itself: a plain, freely constructible value
/// whose validity check accepts [`LOW`]`..=`[`HIGH`].
pub struct Ranged(pub u8);

impl Validatable for Ranged {
    type Error = Error;

    open spec fn validity_spec(&self) -> Outcome<Error> {
        if self.0 < LOW {
            Outcome::Invalid(Error::TooSmall)
        } else if self.0 > HIGH {
            Outcome::Invalid(Error::TooBig)
        } else {
            Outcome::Valid
        }
    }

    fn validity(&self) -> (o: Outcome<Error>) {
        if self.0 < LOW {
            Outcome::Invalid(Error::TooSmall)
        } else if self.0 > HIGH {
            Outcome::Invalid(Error::TooBig)
        } else {
            Outcome::Valid
        }
    }
}

} // verus!
