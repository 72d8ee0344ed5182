//! Shapes: the number of elements that a list of dimension sizes holds, and
//! the resolution of a requested shape that may leave one dimension open.

use vstd::prelude::*;

verus! {

/// The entry of a requested shape that leaves its dimension open: the size
/// is then solved from the number of elements.
pub const WILDCARD: isize = -1;

/// Number of elements that a tensor of the given dimensions holds: the
/// product of the dimension sizes, `1` for the empty shape.
pub open spec fn volume(dims: Seq<usize>) -> nat
    decreases dims.len(),
{
    if dims.len() == 0 {
        1
    } else {
        volume(dims.drop_last()) * (dims.last() as nat)
    }
}

/// How many entries of a requested shape are wildcards.
pub open spec fn wildcards(requested: Seq<isize>) -> nat
    decreases requested.len(),
{
    if requested.len() == 0 {
        0
    } else {
        wildcards(requested.drop_last()) + if requested.last() == WILDCARD {
            1nat
        } else {
            0nat
        }
    }
}

/// The requested shape with `fill` in the place of every wildcard.
pub open spec fn substituted(requested: Seq<isize>, fill: usize) -> Seq<usize> {
    Seq::new(
        requested.len(),
        |i: int|
            if requested[i] == WILDCARD {
                fill
            } else {
                requested[i] as usize
            },
    )
}

/// Product of the entries of a requested shape that are given, that is, of
/// all but the wildcards.
pub open spec fn known_volume(requested: Seq<isize>) -> nat {
    volume(substituted(requested, 1))
}

/// Whether `size` elements can be laid out in the requested shape: no entry
/// is below the wildcard, at most one entry is a wildcard, and either the
/// given entries multiply to `size`, or the one wildcard can be solved
/// because their product is positive and divides `size`.
pub open spec fn reshape_fits(requested: Seq<isize>, size: nat) -> bool {
    &&& forall|i: int| 0 <= i < requested.len() ==> requested[i] >= WILDCARD
    &&& wildcards(requested) <= 1
    &&& if wildcards(requested) == 0 {
        known_volume(requested) == size
    } else {
        known_volume(requested) > 0 && size % known_volume(requested) == 0
    }
}

/// The dimensions that `size` elements take in the requested shape: the
/// given entries as they are, the wildcard solved from `size`.
pub open spec fn reshaped_dims(requested: Seq<isize>, size: nat) -> Seq<usize> {
    if wildcards(requested) == 0 {
        substituted(requested, 1)
    } else {
        substituted(requested, (size / known_volume(requested)) as usize)
    }
}

/// Appending a dimension multiplies the volume by its size.
pub proof fn lemma_volume_push(dims: Seq<usize>, d: usize)
    ensures
        volume(dims.push(d)) == volume(dims) * (d as nat),
{
    assert(dims.push(d).drop_last() =~= dims);
}

/// A rank-1 shape holds as many elements as its one dimension says.
pub proof fn lemma_volume_single(d: usize)
    ensures
        volume(seq![d]) == d,
{
    let none = Seq::<usize>::empty();
    assert(seq![d] =~= none.push(d));
    lemma_volume_push(none, d);
    assert(volume(none) == 1);
    assert(volume(none) * (d as nat) == d) by (nonlinear_arith)
        requires
            volume(none) == 1,
    ;
}

/// A rank-2 shape holds rows times columns elements.
pub proof fn lemma_volume_pair(rows: usize, cols: usize)
    ensures
        volume(seq![rows, cols]) == rows * cols,
{
    assert(seq![rows, cols] =~= seq![rows].push(cols));
    lemma_volume_single(rows);
    lemma_volume_push(seq![rows], cols);
}

/// One dimension of size zero makes the whole shape empty.
pub proof fn lemma_volume_zero(dims: Seq<usize>, k: int)
    requires
        0 <= k < dims.len(),
        dims[k] == 0,
    ensures
        volume(dims) == 0,
    decreases dims.len(),
{
    let front = volume(dims.drop_last());
    let back = dims.last() as nat;
    if k < dims.len() - 1 {
        lemma_volume_zero(dims.drop_last(), k);
    }
    assert(front * back == 0) by (nonlinear_arith)
        requires
            front == 0 || back == 0,
    ;
}

/// Where no dimension from `i` on is zero, the first `i` dimensions hold no
/// more elements than all of them.
pub proof fn lemma_volume_prefix(dims: Seq<usize>, i: int)
    requires
        0 <= i <= dims.len(),
        forall|j: int| i <= j < dims.len() ==> dims[j] > 0,
    ensures
        volume(dims.take(i)) <= volume(dims),
    decreases dims.len(),
{
    if i == dims.len() {
        assert(dims.take(i) =~= dims);
    } else {
        let front = volume(dims.drop_last());
        let back = dims.last() as nat;
        lemma_volume_prefix(dims.drop_last(), i);
        assert(dims.drop_last().take(i) =~= dims.take(i));
        assert(front <= front * back) by (nonlinear_arith)
            requires
                back >= 1,
        ;
    }
}

/// A requested shape without wildcards has no wildcard entry.
pub proof fn lemma_no_wildcard(requested: Seq<isize>)
    requires
        wildcards(requested) == 0,
    ensures
        forall|i: int| 0 <= i < requested.len() ==> requested[i] != WILDCARD,
    decreases requested.len(),
{
    if requested.len() > 0 {
        lemma_no_wildcard(requested.drop_last());
        assert forall|i: int| 0 <= i < requested.len() implies requested[i] != WILDCARD by {
            if i < requested.len() - 1 {
                assert(requested.drop_last()[i] == requested[i]);
            }
        }
    }
}

/// In a requested shape with one wildcard, every entry but that one is
/// given.
pub proof fn lemma_single_wildcard(requested: Seq<isize>, k: int)
    requires
        wildcards(requested) == 1,
        0 <= k < requested.len(),
        requested[k] == WILDCARD,
    ensures
        forall|i: int| 0 <= i < requested.len() && i != k ==> requested[i] != WILDCARD,
    decreases requested.len(),
{
    let front = requested.drop_last();
    if requested.last() == WILDCARD {
        lemma_no_wildcard(front);
        assert forall|i: int| 0 <= i < requested.len() && i != k implies requested[i]
            != WILDCARD by {
            if i < requested.len() - 1 {
                assert(front[i] == requested[i]);
            }
            if k < requested.len() - 1 {
                assert(front[k] == requested[k]);
            }
        }
    } else {
        assert(front[k] == requested[k]);
        lemma_single_wildcard(front, k);
        assert forall|i: int| 0 <= i < requested.len() && i != k implies requested[i]
            != WILDCARD by {
            if i < requested.len() - 1 {
                assert(front[i] == requested[i]);
            }
        }
    }
}

/// What is put in the place of the wildcards does not matter where there is
/// none, and multiplies the volume where there is one.
pub proof fn lemma_substituted_volume(requested: Seq<isize>, fill: usize)
    requires
        wildcards(requested) <= 1,
    ensures
        wildcards(requested) == 0 ==> substituted(requested, fill) == substituted(requested, 1),
        wildcards(requested) == 1 ==> volume(substituted(requested, fill)) == known_volume(
            requested,
        ) * (fill as nat),
    decreases requested.len(),
{
    if wildcards(requested) == 0 {
        lemma_no_wildcard(requested);
        assert(substituted(requested, fill) =~= substituted(requested, 1));
    } else {
        let front = requested.drop_last();
        let f = fill as nat;
        lemma_substituted_volume(front, fill);
        assert(substituted(requested, fill).drop_last() =~= substituted(front, fill));
        assert(substituted(requested, 1).drop_last() =~= substituted(front, 1));
        let k = known_volume(front);
        if requested.last() == WILDCARD {
            assert(substituted(requested, fill).last() == fill);
            assert(substituted(requested, 1).last() == 1);
            assert(known_volume(requested) == k * 1);
            assert(volume(substituted(requested, fill)) == k * f);
            assert(k * 1 * f == k * f) by (nonlinear_arith);
        } else {
            let d = (requested.last() as usize) as nat;
            assert(substituted(requested, fill).last() == requested.last() as usize);
            assert(substituted(requested, 1).last() == requested.last() as usize);
            assert(known_volume(requested) == k * d);
            assert(volume(substituted(requested, fill)) == (k * f) * d);
            assert((k * f) * d == (k * d) * f) by (nonlinear_arith);
        }
    }
}

/// A request that leaves no dimension open has no wildcard: it fits
/// exactly where its entries multiply to the size, and it resolves to its
/// own entries.
pub proof fn lemma_exact_request(requested: Seq<isize>, size: nat)
    requires
        forall|i: int| 0 <= i < requested.len() ==> requested[i] >= 0,
    ensures
        wildcards(requested) == 0,
        reshape_fits(requested, size) <==> known_volume(requested) == size,
        reshaped_dims(requested, size) == Seq::new(
            requested.len(),
            |i: int| requested[i] as usize,
        ),
    decreases requested.len(),
{
    if requested.len() > 0 {
        let front = requested.drop_last();
        assert forall|i: int| 0 <= i < front.len() implies front[i] >= 0 by {
            assert(front[i] == requested[i]);
        }
        lemma_exact_request(front, size);
    }
    assert(substituted(requested, 1) =~= Seq::new(
        requested.len(),
        |i: int| requested[i] as usize,
    ));
}

/// A shape that fits holds exactly the elements it was resolved for.
pub proof fn lemma_reshape_keeps_size(requested: Seq<isize>, size: nat)
    requires
        reshape_fits(requested, size),
        size <= usize::MAX,
    ensures
        volume(reshaped_dims(requested, size)) == size,
        reshaped_dims(requested, size).len() == requested.len(),
{
    if wildcards(requested) == 1 {
        let k = known_volume(requested);
        let q = size / k;
        assert(0 <= q <= size && k * q == size) by (nonlinear_arith)
            requires
                k > 0,
                size % k == 0,
                q == size / k,
        ;
        lemma_substituted_volume(requested, q as usize);
    }
}

/// Whether two shapes are the same, dimension by dimension.
pub fn same_dims(left: &[usize], right: &[usize]) -> (same: bool)
    ensures
        same == (left@ == right@),
{
    let n: usize = left.len();
    if right.len() != n {
        return false;
    }
    let mut i: usize = 0;
    while i < n
        invariant
            i <= n,
            n == left@.len(),
            n == right@.len(),
            forall|j: int| 0 <= j < i ==> left@[j] == right@[j],
        decreases n - i,
    {
        if left[i] != right[i] {
            return false;
        }
        i += 1;
    }
    proof {
        assert(left@ =~= right@);
    }
    true
}

/// The number of elements of a shape, where it fits in a `usize`.
pub fn checked_volume(dims: &[usize]) -> (total: Option<usize>)
    ensures
        match total {
            Some(v) => v == volume(dims@),
            None => volume(dims@) > usize::MAX,
        },
{
    let n: usize = dims.len();
    let mut k: usize = 0;
    while k < n
        invariant
            k <= n,
            n == dims@.len(),
            forall|j: int| 0 <= j < k ==> dims@[j] > 0,
        decreases n - k,
    {
        if dims[k] == 0 {
            proof {
                lemma_volume_zero(dims@, k as int);
            }
            return Some(0);
        }
        k += 1;
    }
    let mut acc: usize = 1;
    let mut i: usize = 0;
    while i < n
        invariant
            i <= n,
            n == dims@.len(),
            forall|j: int| 0 <= j < n ==> dims@[j] > 0,
            acc == volume(dims@.take(i as int)),
        decreases n - i,
    {
        proof {
            assert(dims@.take(i + 1).drop_last() =~= dims@.take(i as int));
            assert(dims@.take(i + 1).last() == dims@[i as int]);
            lemma_volume_prefix(dims@, i + 1);
        }
        match acc.checked_mul(dims[i]) {
            Some(next) => {
                acc = next;
            },
            None => {
                return None;
            },
        }
        i += 1;
    }
    proof {
        assert(dims@.take(n as int) =~= dims@);
    }
    Some(acc)
}

/// Resolves a requested shape for `size` elements: the dimensions where the
/// request fits, nothing where it does not.
pub fn resolve(requested: &[isize], size: usize) -> (dims: Option<Vec<usize>>)
    ensures
        dims is Some <==> reshape_fits(requested@, size as nat),
        dims matches Some(d) ==> d@ == reshaped_dims(requested@, size as nat) && volume(d@)
            == size,
{
    let n: usize = requested.len();
    let mut given: Vec<usize> = Vec::with_capacity(n);
    let mut open: usize = 0;
    let mut at: usize = 0;
    let mut i: usize = 0;
    while i < n
        invariant
            i <= n,
            n == requested@.len(),
            forall|j: int| 0 <= j < i ==> requested@[j] >= WILDCARD,
            given@ == substituted(requested@.take(i as int), 1),
            open == wildcards(requested@.take(i as int)),
            open <= i,
            open > 0 ==> at < i && requested@[at as int] == WILDCARD,
        decreases n - i,
    {
        let entry: isize = requested[i];
        proof {
            assert(requested@.take(i + 1).drop_last() =~= requested@.take(i as int));
            assert(requested@.take(i + 1).last() == entry);
        }
        if entry < WILDCARD {
            return None;
        }
        if entry == WILDCARD {
            open += 1;
            at = i;
            given.push(1);
        } else {
            given.push(entry as usize);
        }
        proof {
            assert(given@ =~= substituted(requested@.take(i + 1), 1));
        }
        i += 1;
    }
    proof {
        assert(requested@.take(n as int) =~= requested@);
    }
    let known: Option<usize> = checked_volume(given.as_slice());
    if open == 0 {
        match known {
            Some(k) => {
                if k == size {
                    Some(given)
                } else {
                    None
                }
            },
            None => None,
        }
    } else if open == 1 {
        let fill: usize = match known {
            Some(k) => {
                if k == 0 || size % k != 0 {
                    return None;
                }
                size / k
            },
            None => {
                proof {
                    let k = known_volume(requested@);
                    let s = size as nat;
                    assert(s % k == s && s / k == 0) by (nonlinear_arith)
                        requires
                            0 <= s < k,
                    ;
                }
                if size != 0 {
                    return None;
                }
                0
            },
        };
        given[at] = fill;
        proof {
            lemma_single_wildcard(requested@, at as int);
            assert(given@ =~= substituted(requested@, fill));
            lemma_reshape_keeps_size(requested@, size as nat);
        }
        Some(given)
    } else {
        None
    }
}

} // verus!
