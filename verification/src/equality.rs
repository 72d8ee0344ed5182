//! `==` on tensors: equal shapes and equal elements.

use vstd::prelude::*;
use vstd::std_specs::cmp::PartialEqSpec;
use crate::shape::same_dims;
use crate::tensor::Tensor;

verus! {

impl<T: PartialEq> vstd::std_specs::cmp::PartialEqSpecImpl for Tensor<T> {
    open spec fn obeys_eq_spec() -> bool {
        T::obeys_eq_spec()
    }

    /// Two tensors are equal where their shapes are the same and their
    /// elements are equal position by position.
    open spec fn eq_spec(&self, other: &Tensor<T>) -> bool {
        &&& self@.dims == other@.dims
        &&& self@.elems.len() == other@.elems.len()
        &&& forall|i: int|
            0 <= i < self@.elems.len() ==> #[trigger] self@.elems[i].eq_spec(&other@.elems[i])
    }
}

impl<T: PartialEq> PartialEq for Tensor<T> {
    fn eq(&self, other: &Tensor<T>) -> (same: bool) {
        if !same_dims(self.shape(), other.shape()) {
            return false;
        }
        proof {
            self.lemma_model_wf();
            other.lemma_model_wf();
        }
        let n: usize = self.size();
        let mut i: usize = 0;
        while i < n
            invariant
                i <= n,
                n == self@.elems.len(),
                n == other@.elems.len(),
                T::obeys_eq_spec() ==> forall|j: int|
                    0 <= j < i ==> #[trigger] self@.elems[j].eq_spec(&other@.elems[j]),
            decreases n - i,
        {
            if self[i] != other[i] {
                return false;
            }
            i += 1;
        }
        true
    }
}

/// Where `==` on elements is equality, `==` on tensors is equality of
/// their models.
pub proof fn lemma_eq_is_model_equality<T: PartialEq>(a: Tensor<T>, b: Tensor<T>)
    requires
        forall|x: T, y: T| #[trigger] x.eq_spec(&y) <==> (x == y),
    ensures
        a.eq_spec(&b) <==> (a@ == b@),
{
    if a.eq_spec(&b) {
        assert forall|i: int| 0 <= i < a@.elems.len() implies a@.elems[i] == b@.elems[i] by {
            assert(a@.elems[i].eq_spec(&b@.elems[i]));
        }
        assert(a@ =~= b@);
    }
}

} // verus!
