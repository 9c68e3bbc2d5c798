use tiva::Checked;
use tiva::Error;
use tiva::Outcome;
use tiva::Ranged;
use tiva::SelfValidate;
use tiva::Validatable;

#[test]
fn too_small_rejected() {
    let r = Ranged(0).validate();
    assert!(matches!(r, Err(Error::TooSmall)));
}

#[test]
fn in_range_accepted() {
    let c: Checked<Ranged> = Ranged(7).validate().unwrap();
    assert_eq!(c.get().0, 7);
}

#[test]
fn too_big_rejected() {
    let r = Ranged(11).validate();
    assert!(matches!(r, Err(Error::TooBig)));
}

#[test]
fn mutation_changes_reads() {
    let mut c = Ranged(7).validate().unwrap();
    let x = c.get().0;
    c.set(Ranged(x + 1));
    assert_eq!(c.get().0, 8);
}

#[test]
fn repeated_reads_equal() {
    let c = Ranged(9).validate().unwrap();
    assert_eq!(c.get().0, 9);
    assert_eq!(c.get().0, 9);
    assert_eq!(c.get().0, c.get().0);
}

#[test]
fn validity_boundaries() {
    assert!(matches!(Ranged(5).validity(), Outcome::Valid));
    assert!(matches!(Ranged(10).validity(), Outcome::Valid));
    assert!(matches!(Ranged(4).validity(), Outcome::Invalid(Error::TooSmall)));
    assert!(matches!(Ranged(11).validity(), Outcome::Invalid(Error::TooBig)));
}

#[test]
fn into_inner_returns_value() {
    let c = Ranged(6).validate().unwrap();
    let v = c.into_inner();
    assert_eq!(v.0, 6);
}

#[test]
fn recheck_follows_mutation() {
    let mut c = Ranged(10).validate().unwrap();
    assert!(matches!(c.recheck(), Outcome::Valid));
    c.set(Ranged(11));
    assert!(matches!(c.recheck(), Outcome::Invalid(Error::TooBig)));
}

#[test]
fn mutation_survives_unwrap() {
    let mut c = Ranged(7).validate().unwrap();
    c.set(Ranged(8));
    c.origin_valid();
    assert_eq!(c.into_inner().0, 8);
}
