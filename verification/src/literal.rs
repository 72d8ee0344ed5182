//! Construction of tensors from written-out values: a list of elements, one
//! element repeated, or rows of elements.

use vstd::prelude::*;
use crate::shape::{known_volume, reshape_fits, reshaped_dims, substituted, wildcards, WILDCARD};
use crate::shape::lemma_volume_pair;
use crate::tensor::{Tensor, TensorModel};

verus! {

/// The elements of the rows one after another, first row first.
pub open spec fn row_major<T>(rows: Seq<Vec<T>>) -> Seq<T>
    decreases rows.len(),
{
    if rows.len() == 0 {
        Seq::empty()
    } else {
        row_major(rows.drop_last()) + rows.last()@
    }
}

/// The shape that a literal of `count` rows asks for: that many rows, and
/// as many columns as the elements make.
pub open spec fn by_rows(count: nat) -> Seq<isize> {
    seq![count as isize, WILDCARD]
}

/// What the shape of a literal of rows comes to: it fits where there is at
/// least one row and the rows divide the elements evenly, and then it has
/// `count` rows of `len / count` columns.
pub proof fn lemma_by_rows(count: nat, len: nat)
    requires
        count <= isize::MAX,
        len <= usize::MAX,
    ensures
        reshape_fits(by_rows(count), len) <==> count > 0 && len % count == 0,
        reshape_fits(by_rows(count), len) ==> reshaped_dims(by_rows(count), len) == seq![
            count as usize,
            (len / count) as usize,
        ],
{
    let requested = by_rows(count);
    assert(requested.drop_last() =~= seq![count as isize]);
    assert(requested.drop_last().drop_last() =~= Seq::<isize>::empty());
    assert(wildcards(requested.drop_last().drop_last()) == 0);
    assert(wildcards(requested.drop_last()) == 0);
    assert(wildcards(requested) == 1);
    assert(substituted(requested, 1) =~= seq![count as usize, 1usize]);
    lemma_volume_pair(count as usize, 1);
    assert(known_volume(requested) == count);
    if reshape_fits(requested, len) {
        let cols = len / count;
        assert(0 <= cols <= len) by (nonlinear_arith)
            requires
                count > 0,
                cols == len / count,
        ;
        assert(substituted(requested, cols as usize) =~= seq![count as usize, cols as usize]);
    }
}

/// The first rows hold no more elements than all of them.
pub proof fn lemma_row_major_prefix<T>(rows: Seq<Vec<T>>, r: int)
    requires
        0 <= r <= rows.len(),
    ensures
        row_major(rows.take(r)).len() <= row_major(rows).len(),
    decreases rows.len(),
{
    if r == rows.len() {
        assert(rows.take(r) =~= rows);
    } else {
        lemma_row_major_prefix(rows.drop_last(), r);
        assert(rows.drop_last().take(r) =~= rows.take(r));
    }
}

/// The rank-1 tensor of the elements written out.
pub fn vector<T>(elems: Vec<T>) -> (t: Tensor<T>)
    ensures
        t@ == TensorModel::vector(elems@),
{
    Tensor::new(elems)
}

/// The rank-1 tensor of `count` elements that all equal `value`.
pub fn repeated<T: Copy>(value: T, count: usize) -> (t: Tensor<T>)
    ensures
        t@ == TensorModel::vector(Seq::new(count as nat, |i: int| value)),
{
    let mut elems: Vec<T> = Vec::with_capacity(count);
    let mut i: usize = 0;
    while i < count
        invariant
            i <= count,
            elems@.len() == i,
            forall|j: int| 0 <= j < i ==> elems@[j] == value,
        decreases count - i,
    {
        elems.push(value);
        i += 1;
    }
    proof {
        assert(elems@ =~= Seq::new(count as nat, |i: int| value));
    }
    Tensor::new(elems)
}

/// The elements of the rows in one buffer, first row first.
pub fn flatten<T: Copy>(rows: &Vec<Vec<T>>) -> (flat: Vec<T>)
    ensures
        flat@ == row_major(rows@),
{
    let mut flat: Vec<T> = Vec::new();
    let count: usize = rows.len();
    let mut r: usize = 0;
    while r < count
        invariant
            r <= count,
            count == rows@.len(),
            flat@ == row_major(rows@.take(r as int)),
        decreases count - r,
    {
        let row: &Vec<T> = &rows[r];
        let width: usize = row.len();
        let ghost done = flat@;
        let mut c: usize = 0;
        while c < width
            invariant
                c <= width,
                width == row@.len(),
                flat@ == done + row@.take(c as int),
            decreases width - c,
        {
            flat.push(row[c]);
            proof {
                assert(row@.take(c + 1) =~= row@.take(c as int).push(row@[c as int]));
                assert(flat@ =~= done + row@.take(c + 1));
            }
            c += 1;
        }
        proof {
            assert(row@.take(width as int) =~= row@);
            assert(rows@.take(r + 1).drop_last() =~= rows@.take(r as int));
            assert(rows@.take(r + 1).last() == rows@[r as int]);
        }
        r += 1;
    }
    proof {
        assert(rows@.take(count as int) =~= rows@);
    }
    flat
}

/// Whether the rows make a matrix: there is at least one row, the rows
/// divide the elements evenly, and rows and elements can be counted.
pub open spec fn rows_make_matrix<T>(rows: Seq<Vec<T>>) -> bool {
    &&& rows.len() <= isize::MAX
    &&& row_major(rows).len() <= usize::MAX
    &&& reshape_fits(by_rows(rows.len()), row_major(rows).len())
}

/// Decides whether the rows make a matrix.
pub fn rows_fit<T>(rows: &Vec<Vec<T>>) -> (ok: bool)
    ensures
        ok == rows_make_matrix(rows@),
{
    let count: usize = rows.len();
    if count == 0 || count > isize::MAX as usize {
        proof {
            if count == 0 {
                assert(row_major(rows@).len() == 0);
                lemma_by_rows(0, 0);
            }
        }
        return false;
    }
    let mut total: usize = 0;
    let mut r: usize = 0;
    while r < count
        invariant
            r <= count,
            count == rows@.len(),
            total == row_major(rows@.take(r as int)).len(),
        decreases count - r,
    {
        proof {
            assert(rows@.take(r + 1).drop_last() =~= rows@.take(r as int));
            assert(rows@.take(r + 1).last() == rows@[r as int]);
            lemma_row_major_prefix(rows@, r + 1);
        }
        match total.checked_add(rows[r].len()) {
            Some(sum) => {
                total = sum;
            },
            None => {
                return false;
            },
        }
        r += 1;
    }
    proof {
        assert(rows@.take(count as int) =~= rows@);
        lemma_by_rows(count as nat, total as nat);
    }
    total % count == 0
}

/// The rank-2 tensor of the rows written out: the elements in row-major
/// order, under the shape of as many rows as were given.
pub fn matrix<T: Copy>(rows: Vec<Vec<T>>) -> (t: Tensor<T>)
    requires
        rows_make_matrix(rows@),
    ensures
        t@ == TensorModel::vector(row_major(rows@)).reshaped(by_rows(rows@.len())),
        t@.elems == row_major(rows@),
        t@.dims == seq![rows@.len() as usize, (row_major(rows@).len() / rows@.len()) as usize],
{
    proof {
        lemma_by_rows(rows@.len(), row_major(rows@).len());
    }
    let flat: Vec<T> = flatten(&rows);
    let mut requested: Vec<isize> = Vec::with_capacity(2);
    requested.push(rows.len() as isize);
    requested.push(WILDCARD);
    proof {
        assert(requested@ =~= by_rows(rows@.len()));
    }
    Tensor::new(flat).reshape(requested.as_slice())
}

} // verus!
