use numeric::Tensor;

#[test]
fn negation_of_an_owned_tensor() {
    let t = -Tensor::new(vec![1, -2, 0, 4]).reshape(&[2, 2]);
    assert_eq!(t.as_slice(), &[-1, 2, 0, -4]);
    assert_eq!(t.shape(), &[2, 2]);
}

#[test]
fn negation_of_a_borrowed_tensor() {
    let a = Tensor::new(vec![1.5, -2.5]);
    let t = -&a;
    assert_eq!(t.as_slice(), &[-1.5, 2.5]);
    assert_eq!(a.as_slice(), &[1.5, -2.5]);
}

#[test]
fn negating_twice_gives_the_tensor_back() {
    let a = Tensor::new(vec![3, -1, 0, i64::MAX, i64::MIN + 1, 7]).reshape(&[3, 2]);
    assert!(-(-a.clone()) == a);
    assert!(-&(-&a) == a);
    let f = Tensor::new(vec![0.5, -0.0, 1e300]);
    assert!(-(-f.clone()) == f);
}

#[test]
fn negation_of_an_empty_tensor() {
    let a: Tensor<i8> = Tensor::new(vec![]);
    assert_eq!((-a).size(), 0);
}
