use dynarray::compare::{sublist, subset, Comparison};

#[test]
fn sublist_equal_slices() {
    assert_eq!(sublist(&[1, 2, 3], &[1, 2, 3]), Comparison::Equal);
    let empty: &[i32] = &[];
    assert_eq!(sublist(empty, empty), Comparison::Equal);
}

#[test]
fn sublist_detects_contained_run() {
    assert_eq!(sublist(&[2, 3], &[1, 2, 3, 4]), Comparison::Sublist);
    assert_eq!(sublist(&[1, 2, 3, 4], &[2, 3]), Comparison::Superlist);
    assert_eq!(sublist(&[1, 2, 3, 4], &[1, 2]), Comparison::Superlist);
    assert_eq!(sublist(&[1, 2, 3, 4], &[3, 4]), Comparison::Superlist);
}

#[test]
fn sublist_empty_is_in_everything() {
    let empty: &[i32] = &[];
    assert_eq!(sublist(empty, &[1]), Comparison::Sublist);
    assert_eq!(sublist(&[1], empty), Comparison::Superlist);
}

#[test]
fn sublist_unequal_cases() {
    assert_eq!(sublist(&[1, 2], &[3, 4]), Comparison::Unequal);
    assert_eq!(sublist(&[1, 2, 3], &[1, 3, 2]), Comparison::Unequal);
    assert_eq!(sublist(&[1, 2, 3, 4], &[2, 4]), Comparison::Unequal);
    assert_eq!(sublist(&[2, 4], &[1, 2, 3, 4]), Comparison::Unequal);
}

#[test]
fn subset_equal_when_membership_covers() {
    assert_eq!(subset(&[1, 2, 3], &[3, 2, 1]), Comparison::Equal);
    assert_eq!(subset(&[1, 2], &[1, 2, 3]), Comparison::Equal);
    let empty: &[i32] = &[];
    assert_eq!(subset(empty, &[1, 2]), Comparison::Equal);
    assert_eq!(subset(empty, empty), Comparison::Equal);
}

#[test]
fn subset_superlist_when_membership_fails() {
    assert_eq!(subset(&[1, 4], &[1, 2]), Comparison::Superlist);
    assert_eq!(subset(&[1], &[] as &[i32]), Comparison::Superlist);
}
