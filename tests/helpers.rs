use lumentix::principals::{
    contains_principal, distinct_principals, insert_principal, position_of, remove_principal,
};
use lumentix::validation::{
    validate_positive_amount, validate_positive_capacity, validate_string_not_empty,
    validate_time_range,
};
use lumentix::{LumentixError, Principal};

fn pr(id: u64) -> Principal {
    Principal { id }
}

#[test]
fn position_and_membership() {
    let v = vec![pr(3), pr(5), pr(8)];
    assert_eq!(position_of(&v, pr(5)), Some(1));
    assert_eq!(position_of(&v, pr(4)), None);
    assert!(contains_principal(&v, pr(8)));
    assert!(!contains_principal(&Vec::new(), pr(8)));
}

#[test]
fn insert_and_remove_keep_a_set() {
    let mut v = vec![pr(1), pr(2)];
    insert_principal(&mut v, pr(2));
    assert_eq!(v, vec![pr(1), pr(2)]);
    insert_principal(&mut v, pr(3));
    assert_eq!(v, vec![pr(1), pr(2), pr(3)]);
    remove_principal(&mut v, pr(2));
    assert_eq!(v, vec![pr(1), pr(3)]);
    remove_principal(&mut v, pr(9));
    assert_eq!(v, vec![pr(1), pr(3)]);
}

#[test]
fn distinct_keeps_first_occurrences() {
    let v = vec![pr(4), pr(1), pr(4), pr(2), pr(1)];
    assert_eq!(distinct_principals(&v), vec![pr(4), pr(1), pr(2)]);
    assert_eq!(distinct_principals(&Vec::new()), Vec::<Principal>::new());
}

#[test]
fn input_validation() {
    assert_eq!(validate_string_not_empty(&String::new()), Err(LumentixError::EmptyString));
    assert_eq!(validate_string_not_empty(&"x".to_string()), Ok(()));
    assert_eq!(validate_positive_amount(0), Err(LumentixError::InvalidAmount));
    assert_eq!(validate_positive_amount(1), Ok(()));
    assert_eq!(validate_positive_capacity(0), Err(LumentixError::InvalidCapacity));
    assert_eq!(validate_positive_capacity(1), Ok(()));
    assert_eq!(validate_time_range(5, 5), Err(LumentixError::InvalidTimeRange));
    assert_eq!(validate_time_range(4, 5), Ok(()));
}
