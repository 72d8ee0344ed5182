//! The tensor value: a dense row-major buffer of elements under a shape.

use vstd::prelude::*;
use vstd::slice::slice_to_vec;
use crate::shape::{checked_volume, reshape_fits, reshaped_dims, resolve, volume};
use crate::shape::lemma_volume_single;
use std::ops::Index;

verus! {

/// What a tensor is, mathematically: its dimension sizes and its elements
/// in row-major order.
#[verifier::ext_equal]
pub struct TensorModel<T> {
    pub dims: Seq<usize>,
    pub elems: Seq<T>,
}

impl<T> TensorModel<T> {
    /// The buffer holds exactly the elements that the shape asks for.
    pub open spec fn wf(self) -> bool {
        self.elems.len() == volume(self.dims)
    }

    /// A scalar tensor holds one element, whatever its rank.
    pub open spec fn is_scalar(self) -> bool {
        self.elems.len() == 1
    }

    /// The rank-1 tensor of the given elements.
    pub open spec fn vector(elems: Seq<T>) -> Self {
        TensorModel { dims: seq![elems.len() as usize], elems }
    }

    /// The tensor of the given shape whose every element is `value`.
    pub open spec fn uniform(dims: Seq<usize>, value: T) -> Self {
        TensorModel { dims, elems: Seq::new(volume(dims), |i: int| value) }
    }

    /// The same elements under the requested shape.
    pub open spec fn reshaped(self, requested: Seq<isize>) -> Self {
        TensorModel { dims: reshaped_dims(requested, self.elems.len()), elems: self.elems }
    }
}

/// An owned dense tensor. Its buffer always holds as many elements as the
/// product of its dimension sizes.
#[derive(Debug)]
pub struct Tensor<T> {
    data: Vec<T>,
    shape: Vec<usize>,
}

impl<T> View for Tensor<T> {
    type V = TensorModel<T>;

    /// The shape and the buffer. A value whose buffer did not match its
    /// shape, which no execution produces, reads as the vector of its
    /// buffer, so that every model is well-formed.
    closed spec fn view(&self) -> TensorModel<T> {
        if self.well_formed() {
            TensorModel { dims: self.shape@, elems: self.data@ }
        } else {
            TensorModel::vector(self.data@)
        }
    }
}

impl<T> Tensor<T> {
    #[verifier::type_invariant]
    spec fn well_formed(&self) -> bool {
        self.data@.len() == volume(self.shape@)
    }

    /// The model of a tensor is well-formed, and its elements fit in
    /// memory.
    pub proof fn lemma_model_wf(&self)
        ensures
            self@.wf(),
            self@.elems.len() <= usize::MAX,
    {
        assert(self.data@.len() == self.data.len());
        if !self.well_formed() {
            lemma_volume_single(self.data.len());
        }
    }

    /// The rank-1 tensor that holds `data` in the order given.
    pub fn new(data: Vec<T>) -> (t: Tensor<T>)
        ensures
            t@ == TensorModel::vector(data@),
    {
        let mut shape: Vec<usize> = Vec::with_capacity(1);
        shape.push(data.len());
        proof {
            lemma_volume_single(data.len());
            assert(shape@ =~= seq![data@.len() as usize]);
        }
        Tensor { data, shape }
    }

    /// The dimension sizes.
    pub fn shape(&self) -> (dims: &[usize])
        ensures
            dims@ == self@.dims,
    {
        proof {
            use_type_invariant(self);
        }
        self.shape.as_slice()
    }

    /// The number of elements, which is the product of the dimension sizes.
    pub fn size(&self) -> (n: usize)
        ensures
            n == self@.elems.len(),
    {
        proof {
            use_type_invariant(self);
        }
        self.data.len()
    }

    /// Whether the tensor holds exactly one element.
    pub fn is_scalar(&self) -> (b: bool)
        ensures
            b == self@.is_scalar(),
    {
        proof {
            use_type_invariant(self);
        }
        self.data.len() == 1
    }

    /// The elements in row-major order.
    pub fn as_slice(&self) -> (elems: &[T])
        ensures
            elems@ == self@.elems,
    {
        proof {
            use_type_invariant(self);
        }
        self.data.as_slice()
    }

    /// The same buffer under another shape. An entry of `-1` stands for the
    /// size that makes the element count come out.
    pub fn reshape(self, requested: &[isize]) -> (t: Tensor<T>)
        requires
            reshape_fits(requested@, self@.elems.len()),
        ensures
            t@ == self@.reshaped(requested@),
    {
        let dims: Option<Vec<usize>> = resolve(requested, self.data.len());
        Tensor { data: self.data, shape: dims.unwrap() }
    }
}

impl<T: Copy> Tensor<T> {
    /// The tensor of the given shape whose every element is `value`.
    pub fn filled(shape: &[usize], value: T) -> (t: Tensor<T>)
        requires
            volume(shape@) <= usize::MAX,
        ensures
            t@ == TensorModel::uniform(shape@, value),
    {
        let n: usize = checked_volume(shape).unwrap();
        let mut data: Vec<T> = Vec::with_capacity(n);
        let mut i: usize = 0;
        while i < n
            invariant
                i <= n,
                data@.len() == i,
                forall|j: int| 0 <= j < i ==> data@[j] == value,
            decreases n - i,
        {
            data.push(value);
            i += 1;
        }
        let t = Tensor { data, shape: slice_to_vec(shape) };
        proof {
            assert(t@.elems =~= TensorModel::uniform(shape@, value).elems);
        }
        t
    }

    /// The one element of a scalar tensor.
    pub fn scalar_value(&self) -> (v: T)
        requires
            self@.is_scalar(),
        ensures
            v == self@.elems[0],
    {
        self.data[0]
    }

    /// The element at position `i` of the buffer.
    pub fn get(&self, i: usize) -> (v: T)
        requires
            i < self@.elems.len(),
        ensures
            v == self@.elems[i as int],
    {
        self.data[i]
    }

    /// Puts `v` at position `i` of the buffer.
    pub fn set(&mut self, i: usize, v: T)
        requires
            i < old(self)@.elems.len(),
        ensures
            final(self)@.dims == old(self)@.dims,
            final(self)@.elems == old(self)@.elems.update(i as int, v),
    {
        proof {
            use_type_invariant(&*self);
        }
        self.data[i] = v;
    }
}

impl<T: Copy> Clone for Tensor<T> {
    /// A tensor of the same shape with a buffer of its own.
    fn clone(&self) -> (copy: Tensor<T>)
        ensures
            copy@ == self@,
    {
        proof {
            use_type_invariant(self);
        }
        Tensor {
            data: slice_to_vec(self.data.as_slice()),
            shape: slice_to_vec(self.shape.as_slice()),
        }
    }
}

impl<T> vstd::std_specs::core::IndexSpecImpl<usize> for Tensor<T> {
    open spec fn index_req(&self, index: &usize) -> bool {
        *index < self@.elems.len()
    }
}

impl<T> Index<usize> for Tensor<T> {
    type Output = T;

    /// The element at position `index` of the buffer.
    fn index(&self, index: usize) -> (elem: &T)
        ensures
            *elem == self@.elems[index as int],
    {
        &self.data[index]
    }
}

} // verus!
