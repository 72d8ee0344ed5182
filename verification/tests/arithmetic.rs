use numeric::broadcast::{apply_borrowed, apply_owned, apply_scalar, apply_with_out};
use numeric::broadcast::{conformable, result_shape};
use numeric::ops::add::Addition;
use numeric::ops::div::Division;
use numeric::ops::sub::Subtraction;
use numeric::Tensor;

fn grid() -> Tensor<i64> {
    Tensor::new(vec![1, 2, 3, 4, 5, 6]).reshape(&[2, 3])
}

#[test]
fn matrix_plus_scalar_tensor() {
    let sum = grid() + Tensor::new(vec![10]);
    assert_eq!(sum.shape(), &[2, 3]);
    assert_eq!(sum.as_slice(), &[11, 12, 13, 14, 15, 16]);
}

#[test]
fn equal_shapes_combine_position_by_position() {
    let a = Tensor::new(vec![1, 2, 3, 4]).reshape(&[2, 2]);
    let b = Tensor::new(vec![10, 20, 30, 40]).reshape(&[2, 2]);
    let sum = a + b;
    assert_eq!(sum.shape(), &[2, 2]);
    assert_eq!(sum.as_slice(), &[11, 22, 33, 44]);
}

#[test]
fn scalar_on_either_side_of_a_subtraction() {
    let a = Tensor::new(vec![1, 2, 3]);
    let s = Tensor::new(vec![10]);
    let right = &a - &s;
    let left = &s - &a;
    assert_eq!(right.as_slice(), &[-9, -8, -7]);
    assert_eq!(left.as_slice(), &[9, 8, 7]);
    assert_eq!(right.shape(), &[3]);
    assert_eq!(left.shape(), &[3]);
    assert!(right != left);
}

#[test]
fn scalar_on_either_side_of_a_division() {
    let a = Tensor::new(vec![1.0, 2.0, 4.0]);
    let s = Tensor::new(vec![8.0]);
    assert_eq!((&a / &s).as_slice(), &[0.125, 0.25, 0.5]);
    assert_eq!((&s / &a).as_slice(), &[8.0, 4.0, 2.0]);
}

#[test]
fn scalar_on_the_left_takes_the_shape_of_the_right() {
    let s = Tensor::new(vec![100]);
    let sum = s + grid();
    assert_eq!(sum.shape(), &[2, 3]);
    assert_eq!(sum.as_slice(), &[101, 102, 103, 104, 105, 106]);
}

#[test]
fn two_scalars_combine_in_the_shape_of_the_left() {
    let a = Tensor::new(vec![5]).reshape(&[1, 1]);
    let b = Tensor::new(vec![7]);
    let sum = &a + &b;
    assert_eq!(sum.shape(), &[1, 1]);
    assert_eq!(sum.as_slice(), &[12]);
    let other = &b + &a;
    assert_eq!(other.shape(), &[1]);
    assert_eq!(other.as_slice(), &[12]);
}

#[test]
fn owned_and_borrowed_forms_agree() {
    let b = Tensor::new(vec![6, 5, 4, 3, 2, 1]).reshape(&[2, 3]);
    let both_owned = grid() - b.clone();
    let right_borrowed = grid() - &b;
    let both_borrowed = &grid() - &b;
    assert_eq!(both_owned.as_slice(), &[-5, -3, -1, 1, 3, 5]);
    assert!(both_owned == right_borrowed);
    assert!(both_owned == both_borrowed);
}

#[test]
fn borrowed_operands_are_left_as_they_were() {
    let a = grid();
    let s = Tensor::new(vec![1]);
    let _ = &a + &s;
    let _ = &s + &a;
    let _ = &a * &a;
    assert!(a == grid());
    assert!(s == Tensor::new(vec![1]));
}

#[test]
fn tensor_with_a_bare_element() {
    assert_eq!((grid() + 10).as_slice(), &[11, 12, 13, 14, 15, 16]);
    assert_eq!((grid() - 1).as_slice(), &[0, 1, 2, 3, 4, 5]);
    assert_eq!((grid() * 2).as_slice(), &[2, 4, 6, 8, 10, 12]);
    assert_eq!((grid() / 2).as_slice(), &[0, 1, 1, 2, 2, 3]);
    assert_eq!((grid() % 4).as_slice(), &[1, 2, 3, 0, 1, 2]);
    assert_eq!((grid() & 6).as_slice(), &[0, 2, 2, 4, 4, 6]);
    assert_eq!((grid() | 1).as_slice(), &[1, 3, 3, 5, 5, 7]);
    assert_eq!((grid() ^ 3).as_slice(), &[2, 1, 0, 7, 6, 5]);
    assert_eq!((grid() + 10).shape(), &[2, 3]);
}

#[test]
fn every_operator_between_tensors() {
    let a = Tensor::new(vec![12, 10, 7]);
    let b = Tensor::new(vec![5, 3, 7]);
    assert_eq!((&a + &b).as_slice(), &[17, 13, 14]);
    assert_eq!((&a - &b).as_slice(), &[7, 7, 0]);
    assert_eq!((&a * &b).as_slice(), &[60, 30, 49]);
    assert_eq!((&a / &b).as_slice(), &[2, 3, 1]);
    assert_eq!((&a % &b).as_slice(), &[2, 1, 0]);
    assert_eq!((&a & &b).as_slice(), &[4, 2, 7]);
    assert_eq!((&a | &b).as_slice(), &[13, 11, 7]);
    assert_eq!((&a ^ &b).as_slice(), &[9, 9, 0]);
}

#[test]
fn division_and_remainder_truncate_towards_zero() {
    let a = Tensor::new(vec![-7, 7, -7]);
    let b = Tensor::new(vec![2, -2, -2]);
    assert_eq!((&a / &b).as_slice(), &[-3, -3, 3]);
    assert_eq!((&a % &b).as_slice(), &[-1, 1, -1]);
}

#[test]
fn every_operator_into_an_output() {
    let a = Tensor::new(vec![12, 10, 7]);
    let b = Tensor::new(vec![5, 3, 7]);
    let mut out = Tensor::filled(&[3], 0);
    a.add_with_out(&b, &mut out);
    assert!(out == &a + &b);
    a.sub_with_out(&b, &mut out);
    assert!(out == &a - &b);
    a.mul_with_out(&b, &mut out);
    assert!(out == &a * &b);
    a.div_with_out(&b, &mut out);
    assert!(out == &a / &b);
    a.rem_with_out(&b, &mut out);
    assert!(out == &a % &b);
    a.bitand_with_out(&b, &mut out);
    assert!(out == &a & &b);
    a.bitor_with_out(&b, &mut out);
    assert!(out == &a | &b);
    a.bitxor_with_out(&b, &mut out);
    assert!(out == &a ^ &b);
}

#[test]
fn output_form_with_a_scalar_on_the_right() {
    let a = grid();
    let s = Tensor::new(vec![10]);
    let mut out = Tensor::filled(&[2, 3], -1);
    a.sub_with_out(&s, &mut out);
    assert_eq!(out.as_slice(), &[-9, -8, -7, -6, -5, -4]);
    assert_eq!(out.shape(), &[2, 3]);
    assert!(out == a.clone() - &s);
}

#[test]
fn output_form_with_a_scalar_on_the_left() {
    let a = grid();
    let s = Tensor::new(vec![10]);
    let mut out = Tensor::filled(&[2, 3], -1);
    s.sub_with_out(&a, &mut out);
    assert_eq!(out.as_slice(), &[9, 8, 7, 6, 5, 4]);
    assert_eq!(out.shape(), &[2, 3]);
    assert!(out == s.clone() - &a);
}

#[test]
fn output_form_with_two_scalars() {
    let a = Tensor::new(vec![5]).reshape(&[1, 1]);
    let b = Tensor::new(vec![7]);
    let mut out = Tensor::filled(&[1, 1], 0);
    a.add_with_out(&b, &mut out);
    assert_eq!(out.as_slice(), &[12]);
    assert_eq!(out.shape(), &[1, 1]);
}

#[test]
fn output_form_with_equal_shapes() {
    let a = grid();
    let b = Tensor::new(vec![6, 5, 4, 3, 2, 1]).reshape(&[2, 3]);
    let mut out = Tensor::filled(&[2, 3], 99);
    a.mul_with_out(&b, &mut out);
    assert_eq!(out.as_slice(), &[6, 10, 12, 12, 10, 6]);
    assert!(out == a.clone() * &b);
}

#[test]
fn empty_tensors_combine_to_an_empty_tensor() {
    let a: Tensor<i32> = Tensor::new(vec![]);
    let b: Tensor<i32> = Tensor::new(vec![]);
    let sum = &a + &b;
    assert_eq!(sum.shape(), &[0]);
    assert_eq!(sum.size(), 0);
    let scaled = a + Tensor::new(vec![3]);
    assert_eq!(scaled.shape(), &[0]);
}

#[test]
fn conformable_tells_which_tensors_combine() {
    let a = grid();
    assert!(conformable(&a, &grid()));
    assert!(conformable(&a, &Tensor::new(vec![1])));
    assert!(conformable(&Tensor::new(vec![1]), &a));
    assert!(conformable(&Tensor::new(vec![1]), &Tensor::new(vec![2]).reshape(&[1, 1])));
    assert!(!conformable(&a, &Tensor::new(vec![1, 2, 3, 4, 5, 6])));
    assert!(!conformable(&a, &Tensor::new(vec![1, 2, 3, 4, 5, 6]).reshape(&[3, 2])));
    assert!(!conformable(&a, &Tensor::new(vec![1, 2, 3])));
}

#[test]
fn result_shape_is_that_of_the_operand_not_stretched() {
    let a = grid();
    let s = Tensor::new(vec![1]);
    let t = Tensor::new(vec![1]).reshape(&[1, 1]);
    assert_eq!(result_shape(&a, &s), &[2, 3]);
    assert_eq!(result_shape(&s, &a), &[2, 3]);
    assert_eq!(result_shape(&a, &grid()), &[2, 3]);
    assert_eq!(result_shape(&s, &t), &[1]);
    assert_eq!(result_shape(&t, &s), &[1, 1]);
}

#[test]
fn output_shaped_by_result_shape() {
    let a = grid();
    let s = Tensor::new(vec![3]);
    let mut out = Tensor::filled(result_shape(&s, &a), 0);
    s.mul_with_out(&a, &mut out);
    assert!(out == &s * &a);
    assert_eq!(out.as_slice(), &[3, 6, 9, 12, 15, 18]);
}

#[test]
fn engine_under_a_named_operator() {
    let a = Tensor::new(vec![8, 6, 4]);
    let s = Tensor::new(vec![2]);
    assert_eq!(apply_owned::<i32, Division>(a.clone(), &s).as_slice(), &[4, 3, 2]);
    assert_eq!(apply_owned::<i32, Division>(Tensor::new(vec![24]), &a).as_slice(), &[3, 4, 6]);
    assert_eq!(apply_borrowed::<i32, Subtraction>(&a, &a).as_slice(), &[0, 0, 0]);
    assert_eq!(apply_scalar::<i32, Addition>(a.clone(), 1).as_slice(), &[9, 7, 5]);
    let mut out = Tensor::filled(&[3], 0);
    apply_with_out::<i32, Subtraction>(&s, &a, &mut out);
    assert_eq!(out.as_slice(), &[-6, -4, -2]);
}

#[test]
fn floats_combine_as_well() {
    let a = Tensor::new(vec![1.5, 2.5]);
    let b = Tensor::new(vec![0.5, 0.25]);
    assert_eq!((&a + &b).as_slice(), &[2.0, 2.75]);
    assert_eq!((&a * &b).as_slice(), &[0.75, 0.625]);
    assert_eq!((a / 0.5).as_slice(), &[3.0, 5.0]);
}
