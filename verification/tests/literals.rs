use numeric::literal::{flatten, matrix, repeated, rows_fit, vector};
use numeric::Tensor;

#[test]
fn tensor_1d() {
    let x = Tensor::new(vec![1, 2, 3, 4, 5, 6]);
    assert!(x == vector(vec![1, 2, 3, 4, 5, 6]));
    assert!(x == vector(vec![1, 2, 3, 4, 5, 6,]));
}

#[test]
fn tensor_2d() {
    let x = Tensor::new(vec![1, 2, 3, 4, 5, 6]).reshape(&[3, 2]);
    assert!(x == matrix(vec![vec![1, 2], vec![3, 4], vec![5, 6]]));
    assert!(x == matrix(vec![vec![1, 2], vec![3, 4], vec![5, 6],]));
}

#[test]
fn vector_keeps_order_and_has_rank_one() {
    let t = vector(vec![1, 2, 3]);
    assert_eq!(t.shape(), &[3]);
    assert_eq!(t.as_slice(), &[1, 2, 3]);
    assert!(t == Tensor::new(vec![1, 2, 3]));
}

#[test]
fn vector_of_nothing_is_empty() {
    let t: Tensor<i32> = vector(vec![]);
    assert_eq!(t.shape(), &[0]);
    assert_eq!(t.size(), 0);
}

#[test]
fn repeated_fills_with_one_value() {
    let t = repeated(7.0, 4);
    assert_eq!(t.shape(), &[4]);
    assert!(t == Tensor::new(vec![7.0, 7.0, 7.0, 7.0]));
}

#[test]
fn repeated_zero_times_is_empty() {
    let t = repeated(5u8, 0);
    assert_eq!(t.shape(), &[0]);
    assert_eq!(t.size(), 0);
}

#[test]
fn matrix_is_the_reshaped_vector() {
    let m = matrix(vec![vec![1, 2], vec![3, 4]]);
    assert!(m == Tensor::new(vec![1, 2, 3, 4]).reshape(&[2, 2]));
    assert_eq!(m.shape(), &[2, 2]);
    assert_eq!(m.as_slice(), &[1, 2, 3, 4]);
}

#[test]
fn matrix_of_three_rows() {
    let m = matrix(vec![vec![1, 0], vec![3, 2], vec![5, 4]]);
    assert!(m == Tensor::new(vec![1, 0, 3, 2, 5, 4]).reshape(&[3, 2]));
    assert_eq!(m.shape(), &[3, 2]);
}

#[test]
fn matrix_of_one_row() {
    let m = matrix(vec![vec![1, 2, 3]]);
    assert_eq!(m.shape(), &[1, 3]);
    assert_eq!(m.as_slice(), &[1, 2, 3]);
}

#[test]
fn matrix_counts_columns_from_the_elements() {
    let rows = vec![vec![1, 2, 3], vec![4]];
    assert!(rows_fit(&rows));
    let m = matrix(rows);
    assert_eq!(m.shape(), &[2, 2]);
    assert_eq!(m.as_slice(), &[1, 2, 3, 4]);
}

#[test]
fn matrix_of_empty_rows_has_no_columns() {
    let rows: Vec<Vec<i32>> = vec![vec![], vec![]];
    assert!(rows_fit(&rows));
    let m = matrix(rows);
    assert_eq!(m.shape(), &[2, 0]);
    assert_eq!(m.size(), 0);
}

#[test]
fn rows_that_do_not_divide_evenly_do_not_fit() {
    assert!(!rows_fit(&vec![vec![1, 2], vec![3]]));
    assert!(!rows_fit(&vec![vec![1, 2], vec![3, 4], vec![5]]));
}

#[test]
fn no_rows_do_not_fit() {
    let rows: Vec<Vec<i32>> = vec![];
    assert!(!rows_fit(&rows));
}

#[test]
fn even_rows_fit() {
    assert!(rows_fit(&vec![vec![1, 2], vec![3, 4]]));
    assert!(rows_fit(&vec![vec![1.5]]));
}

#[test]
fn flatten_goes_row_by_row() {
    assert_eq!(flatten(&vec![vec![1, 2], vec![], vec![3], vec![4, 5, 6]]), vec![1, 2, 3, 4, 5, 6]);
    let none: Vec<Vec<u8>> = vec![];
    assert_eq!(flatten(&none), Vec::<u8>::new());
}
