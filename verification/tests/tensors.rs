use numeric::Tensor;

#[test]
fn new_is_a_vector() {
    let t = Tensor::new(vec![4, 5, 6]);
    assert_eq!(t.shape(), &[3]);
    assert_eq!(t.size(), 3);
    assert_eq!(t.as_slice(), &[4, 5, 6]);
}

#[test]
fn filled_has_the_shape_and_the_value() {
    let t = Tensor::filled(&[2, 3], 7);
    assert_eq!(t.shape(), &[2, 3]);
    assert_eq!(t.size(), 6);
    assert_eq!(t.as_slice(), &[7, 7, 7, 7, 7, 7]);
}

#[test]
fn filled_with_the_empty_shape_is_a_scalar() {
    let t = Tensor::filled(&[], 1.5);
    assert_eq!(t.size(), 1);
    assert!(t.is_scalar());
    assert_eq!(t.scalar_value(), 1.5);
}

#[test]
fn filled_with_a_zero_dimension_is_empty() {
    let t = Tensor::filled(&[3, 0], 1u8);
    assert_eq!(t.shape(), &[3, 0]);
    assert_eq!(t.size(), 0);
}

#[test]
fn scalar_is_a_matter_of_size() {
    assert!(Tensor::new(vec![3]).is_scalar());
    assert!(Tensor::new(vec![3]).reshape(&[1, 1, 1]).is_scalar());
    assert!(!Tensor::new(vec![3, 4]).is_scalar());
    assert!(!Tensor::new(Vec::<i32>::new()).is_scalar());
}

#[test]
fn scalar_value_is_the_one_element() {
    assert_eq!(Tensor::new(vec![42]).scalar_value(), 42);
}

#[test]
fn get_and_set_by_position() {
    let mut t = Tensor::new(vec![1, 2, 3, 4]).reshape(&[2, 2]);
    assert_eq!(t.get(2), 3);
    t.set(2, 30);
    assert_eq!(t.get(2), 30);
    assert_eq!(t.as_slice(), &[1, 2, 30, 4]);
    assert_eq!(t.shape(), &[2, 2]);
}

#[test]
fn index_reads_by_position() {
    let t = Tensor::new(vec![10, 20, 30]);
    assert_eq!(t[0], 10);
    assert_eq!(t[2], 30);
}

#[test]
fn clone_has_a_buffer_of_its_own() {
    let a = Tensor::new(vec![1, 2, 3, 4]).reshape(&[2, 2]);
    let mut b = a.clone();
    assert!(a == b);
    b.set(0, 9);
    assert_eq!(a.as_slice(), &[1, 2, 3, 4]);
    assert_eq!(b.as_slice(), &[9, 2, 3, 4]);
    assert!(a != b);
}

#[test]
fn equal_tensors_have_equal_shapes_and_elements() {
    let a = Tensor::new(vec![1, 2, 3, 4]);
    assert!(a == Tensor::new(vec![1, 2, 3, 4]));
    assert!(a != Tensor::new(vec![1, 2, 3, 5]));
    assert!(a != Tensor::new(vec![1, 2, 3]));
    assert!(a != Tensor::new(vec![1, 2, 3, 4]).reshape(&[2, 2]));
    let square = Tensor::new(vec![1, 2, 3, 4]).reshape(&[2, 2]);
    let column = Tensor::new(vec![1, 2, 3, 4]).reshape(&[4, 1]);
    assert!(square != column);
}

#[test]
fn a_tensor_with_nan_differs_from_itself() {
    let a = Tensor::new(vec![f64::NAN]);
    assert!(a != a.clone());
}
