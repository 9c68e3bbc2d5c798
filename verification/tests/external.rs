use tiva::Error;
use tiva::ValidU8;
use tiva::Validate;
use tiva::Validator;

#[test]
fn integer() {
    let validated: Result<ValidU8, _> = 0u8.validate();
    assert!(validated.is_err_and(|e| matches!(e, Error::TooSmall)));

    let validated: Result<ValidU8, _> = 7u8.validate();
    assert!(validated.is_ok_and(|v| v.value() == 7));

    let validated: Result<ValidU8, _> = 11u8.validate();
    assert!(validated.is_err_and(|e| matches!(e, Error::TooBig)));
}

#[test]
fn from_unvalidated_direct() {
    let v = ValidU8::from_unvalidated(7).unwrap();
    assert_eq!(v.value(), 7);
}

#[test]
fn boundaries_accepted() {
    assert_eq!(ValidU8::from_unvalidated(5).unwrap().value(), 5);
    assert_eq!(ValidU8::from_unvalidated(10).unwrap().value(), 10);
}

#[test]
fn boundaries_rejected() {
    assert!(matches!(ValidU8::from_unvalidated(4), Err(Error::TooSmall)));
    assert!(matches!(ValidU8::from_unvalidated(11), Err(Error::TooBig)));
}

#[test]
fn value_always_in_range() {
    for src in 0u8..=255 {
        if let Ok(v) = ValidU8::from_unvalidated(src) {
            v.always_in_range();
            assert!((5..=10).contains(&v.value()));
            assert_eq!(v.value(), src);
        }
    }
}
