use numeric::shape::{checked_volume, resolve, same_dims, WILDCARD};
use numeric::Tensor;

#[test]
fn volume_is_the_product() {
    assert_eq!(checked_volume(&[2, 3, 4]), Some(24));
    assert_eq!(checked_volume(&[7]), Some(7));
}

#[test]
fn volume_of_the_empty_shape_is_one() {
    assert_eq!(checked_volume(&[]), Some(1));
}

#[test]
fn volume_with_a_zero_dimension_is_zero() {
    assert_eq!(checked_volume(&[5, 0, 3]), Some(0));
    assert_eq!(checked_volume(&[usize::MAX, usize::MAX, 0]), Some(0));
    assert_eq!(checked_volume(&[0, usize::MAX, usize::MAX]), Some(0));
}

#[test]
fn volume_that_does_not_fit_is_none() {
    assert_eq!(checked_volume(&[usize::MAX, 2]), None);
    assert_eq!(checked_volume(&[usize::MAX, 1]), Some(usize::MAX));
}

#[test]
fn wildcard_is_minus_one() {
    assert_eq!(WILDCARD, -1);
}

#[test]
fn resolve_keeps_given_dimensions() {
    assert_eq!(resolve(&[3, 2], 6), Some(vec![3, 2]));
    assert_eq!(resolve(&[6], 6), Some(vec![6]));
    assert_eq!(resolve(&[1, 6, 1], 6), Some(vec![1, 6, 1]));
}

#[test]
fn resolve_solves_the_wildcard() {
    assert_eq!(resolve(&[3, -1], 6), Some(vec![3, 2]));
    assert_eq!(resolve(&[-1, 3], 6), Some(vec![2, 3]));
    assert_eq!(resolve(&[-1], 6), Some(vec![6]));
    assert_eq!(resolve(&[2, -1, 3], 12), Some(vec![2, 2, 3]));
}

#[test]
fn resolve_refuses_a_wrong_product() {
    assert_eq!(resolve(&[4, 2], 6), None);
    assert_eq!(resolve(&[5], 6), None);
}

#[test]
fn resolve_refuses_an_uneven_division() {
    assert_eq!(resolve(&[4, -1], 6), None);
    assert_eq!(resolve(&[-1, 7], 6), None);
}

#[test]
fn resolve_refuses_two_wildcards() {
    assert_eq!(resolve(&[-1, -1], 6), None);
    assert_eq!(resolve(&[-1, 2, -1], 6), None);
}

#[test]
fn resolve_refuses_entries_below_the_wildcard() {
    assert_eq!(resolve(&[-2, 3], 6), None);
    assert_eq!(resolve(&[3, -3], 6), None);
    assert_eq!(resolve(&[isize::MIN], 6), None);
}

#[test]
fn resolve_cannot_solve_a_wildcard_beside_a_zero() {
    assert_eq!(resolve(&[0, -1], 0), None);
    assert_eq!(resolve(&[0, -1], 6), None);
}

#[test]
fn resolve_of_nothing() {
    assert_eq!(resolve(&[], 1), Some(vec![]));
    assert_eq!(resolve(&[], 0), None);
    assert_eq!(resolve(&[], 2), None);
}

#[test]
fn resolve_of_no_elements() {
    assert_eq!(resolve(&[0], 0), Some(vec![0]));
    assert_eq!(resolve(&[3, 0], 0), Some(vec![3, 0]));
    assert_eq!(resolve(&[3, -1], 0), Some(vec![3, 0]));
    assert_eq!(resolve(&[-1], 0), Some(vec![0]));
}

#[test]
fn resolve_with_a_product_too_large_to_count() {
    let big = isize::MAX;
    assert_eq!(resolve(&[big, big], 6), None);
    assert_eq!(resolve(&[big, big, -1], 6), None);
    assert_eq!(
        resolve(&[big, big, -1], 0),
        Some(vec![big as usize, big as usize, 0])
    );
    assert_eq!(
        resolve(&[big, 0, big], 0),
        Some(vec![big as usize, 0, big as usize])
    );
}

#[test]
fn same_dims_compares_each_dimension() {
    assert!(same_dims(&[2, 3], &[2, 3]));
    assert!(same_dims(&[], &[]));
    assert!(!same_dims(&[2, 3], &[3, 2]));
    assert!(!same_dims(&[2, 3], &[2, 3, 1]));
    assert!(!same_dims(&[6], &[2, 3]));
}

#[test]
fn reshape_keeps_the_elements() {
    let t = Tensor::new(vec![1, 2, 3, 4, 5, 6]).reshape(&[2, 3]);
    assert_eq!(t.shape(), &[2, 3]);
    assert_eq!(t.as_slice(), &[1, 2, 3, 4, 5, 6]);
    assert_eq!(t.size(), 6);
}

#[test]
fn reshape_solves_the_wildcard() {
    let t = Tensor::new(vec![1, 2, 3, 4, 5, 6]).reshape(&[-1, 2]);
    assert_eq!(t.shape(), &[3, 2]);
    let u = t.reshape(&[-1]);
    assert_eq!(u.shape(), &[6]);
    assert_eq!(u.as_slice(), &[1, 2, 3, 4, 5, 6]);
}

#[test]
fn reshape_to_rank_zero() {
    let t = Tensor::new(vec![9]).reshape(&[]);
    assert_eq!(t.shape(), &[] as &[usize]);
    assert!(t.is_scalar());
    assert_eq!(t.scalar_value(), 9);
}
