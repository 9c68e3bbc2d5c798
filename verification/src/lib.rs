//! Tiny validation: turn an unchecked value into one that is known, at the
//! type level, to have passed a validation check, without re-checking on
//! every later use.
//!
//! Two interoperating protocols are offered:
//!
//! - *Self-validation*: a type implements [`Validatable`] to say how it
//!   checks its own validity; [`Validatable::validate`] consumes the value
//!   and, on success, wraps it in a [`Checked`] proof wrapper that grants
//!   transparent read and write access.
//! - *External validation*: a distinct type implements [`Validator`] to say
//!   how it is built from an unchecked source value; the blanket
//!   [`Validate`] capability lets callers write `value.validate()` for any
//!   such pair.
//!
//! Both paths are purely functional: the only route to a [`Checked`] wrapper
//! or a validator instance is through the checked constructor.

mod outcome;
mod validatable;
mod validator;
mod range;

pub use outcome::Outcome;
pub use validatable::Checked;
pub use validatable::SelfValidate;
pub use validatable::Validatable;
pub use validator::Validate;
pub use validator::Validator;
pub use range::Error;
pub use range::Ranged;
pub use range::ValidU8;
pub use range::lemma_valid_u8_behaviour;
pub use range::HIGH;
pub use range::LOW;
