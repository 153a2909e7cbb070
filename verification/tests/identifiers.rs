use ffi::ident::{fresh_identifier, IDENTIFIER_LEN};
use ffi::Plan;

#[test]
fn identifier_length_is_twenty_four() {
    assert_eq!(IDENTIFIER_LEN, 24);
    assert_eq!(fresh_identifier().chars().count(), 24);
    assert_eq!(fresh_identifier().len(), 24);
}

#[test]
fn identifier_is_ascii_letters_and_digits() {
    for _ in 0..200 {
        let id = fresh_identifier();
        assert!(id.chars().all(|c| c.is_ascii_alphanumeric()), "{}", id);
    }
}

#[test]
fn two_fresh_identifiers_differ() {
    let a = fresh_identifier();
    let b = fresh_identifier();
    assert_ne!(a, b);
}

#[test]
fn identifiers_are_not_one_letter_repeated() {
    // 200 draws of 24 characters each: were every character the same one,
    // the generator would not be drawing at all.
    let mut seen = std::collections::BTreeSet::new();
    for _ in 0..200 {
        for c in fresh_identifier().chars() {
            seen.insert(c);
        }
    }
    assert!(seen.len() > 30, "only {} distinct characters", seen.len());
}

#[test]
fn new_plan_draws_a_fresh_identifier() {
    let tag = vec!["main".to_string()];
    let a = Plan::new("/tmp", &tag);
    let b = Plan::new("/tmp", &tag);
    assert_eq!(a.id().len(), 24);
    assert!(a.id().chars().all(|c| c.is_ascii_alphanumeric()));
    assert_ne!(a.id(), b.id());
    assert_ne!(a.source_file(), b.source_file());
    assert_ne!(a.module_file(), b.module_file());
    assert_eq!(a.source_file(), format!("/tmp/{}.src", a.id()));
    assert_eq!(a.module_file(), format!("/tmp/{}.module", a.id()));
}
