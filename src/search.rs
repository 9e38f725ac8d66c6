use vstd::prelude::*;

use crate::error::{Computation, DftError};
use crate::field::{is_rect, Field};

verus! {

/// Whether `k` is the first index at which `below` holds.
pub open spec fn is_first_below(below: Seq<bool>, k: int) -> bool {
    &&& 0 <= k < below.len()
    &&& below[k]
    &&& forall|j: int| 0 <= j < k ==> !below[j]
}

/// Locates where a profile crosses a threshold between two grid points.
///
/// `below[k]` tells whether the profile lies below the threshold at grid
/// point `k`. The result is the first such point, which is the right end of
/// the bracketing interval `[k - 1, k]`. When no point lies below the
/// threshold, or already the first one does, no interval brackets the
/// crossing and the interfacial thickness is undefined.
pub fn crossing_index(below: &Vec<bool>) -> (r: Result<usize, DftError>)
    ensures
        r matches Ok(k) ==> k > 0 && is_first_below(below@, k as int),
        r is Err <==> (forall|k: int| 0 < k < below@.len() ==> !is_first_below(below@, k)),
        r matches Err(e) ==> e == (DftError::PreconditionViolation {
            computation: Computation::InterfacialThickness,
        }),
{
    let mut k: usize = 0;
    while k < below.len()
        invariant
            k <= below@.len(),
            forall|j: int| 0 <= j < k ==> !below@[j],
        decreases below@.len() - k,
    {
        if below[k] {
            if k == 0 {
                assert forall|m: int| 0 < m < below@.len() implies !is_first_below(below@, m) by {
                    assert(below@[0]);
                }
                return Err(
                    DftError::PreconditionViolation { computation: Computation::InterfacialThickness },
                );
            }
            assert(is_first_below(below@, k as int));
            return Ok(k);
        }
        k = k + 1;
    }
    Err(DftError::PreconditionViolation { computation: Computation::InterfacialThickness })
}

/// Lays out a pairwise quantity of `n` components: entry (i, j) for i != j
/// is `entry(i, j)`, and every diagonal entry is `zero`.
///
/// This is the layout of the relative adsorptions, where the adsorption of a
/// component relative to its own dividing surface vanishes by definition.
pub fn pairwise_matrix<S: Copy, F: Fn(usize, usize) -> S>(n: usize, zero: S, entry: F) -> (r: Field<S>)
    requires
        forall|i: usize, j: usize| i < n && j < n && i != j ==> entry.requires((i, j)),
    ensures
        is_rect(r@, n as nat, n as nat),
        r.width() == n,
        forall|i: int| 0 <= i < n ==> #[trigger] r@[i][i] == zero,
        forall|i: int, j: int|
            0 <= i < n && 0 <= j < n && i != j ==> entry.ensures((i as usize, j as usize), #[trigger] r@[i][j]),
{
    let e = &entry;
    let f = |i: usize, j: usize| -> (v: S)
        requires
            i < n && j < n,
            forall|i: usize, j: usize| i < n && j < n && i != j ==> e.requires((i, j)),
        ensures
            i == j ==> v == zero,
            i != j ==> e.ensures((i, j), v),
        {
            if i == j {
                zero
            } else {
                e(i, j)
            }
        };
    let r = Field::from_shape_fn(n, n, f);
    assert forall|i: int| 0 <= i < n implies #[trigger] r@[i][i] == zero by {
        assert(f.ensures((i as usize, i as usize), r@[i][i]));
    }
    assert forall|i: int, j: int| 0 <= i < n && 0 <= j < n && i != j implies entry.ensures(
        (i as usize, j as usize),
        #[trigger] r@[i][j],
    ) by {
        assert(f.ensures((i as usize, j as usize), r@[i][j]));
    }
    r
}

/// Brackets each of `n_new` target coordinates among `n_old` increasing
/// sample coordinates, walking both in increasing order.
///
/// `beyond(i, k)` tells whether target `i` lies beyond sample `k`. Entry `i`
/// of the result is the first sample at or after the previous target's
/// bracket that target `i` does not lie beyond, or `n_old` when it lies
/// beyond all of them. A result of 0 places the target on the left tail, one
/// of `n_old` on the right tail, and any other `k` between samples `k - 1`
/// and `k`.
pub fn tail_brackets<F: Fn(usize, usize) -> bool>(n_new: usize, n_old: usize, beyond: F) -> (r: Vec<usize>)
    requires
        forall|i: usize, k: usize| i < n_new && k < n_old ==> beyond.requires((i, k)),
    ensures
        r@.len() == n_new,
        forall|i: int| 0 <= i < n_new ==> #[trigger] r@[i] <= n_old,
        forall|i: int| 0 < i < n_new ==> r@[i - 1] <= #[trigger] r@[i],
        forall|i: int| 0 <= i < n_new && r@[i] < n_old ==> beyond.ensures((i as usize, #[trigger] r@[i]), false),
        forall|i: int, k: int|
            0 <= i < n_new && (if i == 0 { 0 } else { r@[i - 1] as int }) <= k < r@[i] ==> #[trigger] beyond.ensures(
                (i as usize, k as usize),
                true,
            ),
{
    let mut r: Vec<usize> = Vec::new();
    let mut k: usize = 0;
    let mut i: usize = 0;
    while i < n_new
        invariant
            i <= n_new,
            r@.len() == i,
            k <= n_old,
            i > 0 ==> r@[i - 1] == k,
            i == 0 ==> k == 0,
            forall|i: usize, k: usize| i < n_new && k < n_old ==> beyond.requires((i, k)),
            forall|m: int| 0 <= m < i ==> #[trigger] r@[m] <= n_old,
            forall|m: int| 0 < m < i ==> r@[m - 1] <= #[trigger] r@[m],
            forall|m: int| 0 <= m < i && r@[m] < n_old ==> beyond.ensures((m as usize, #[trigger] r@[m]), false),
            forall|m: int, l: int|
                0 <= m < i && (if m == 0 { 0 } else { r@[m - 1] as int }) <= l < r@[m] ==> #[trigger] beyond.ensures(
                    (m as usize, l as usize),
                    true,
                ),
        decreases n_new - i,
    {
        let start: usize = k;
        while k < n_old && beyond(i, k)
            invariant
                i < n_new,
                start <= k <= n_old,
                forall|i: usize, k: usize| i < n_new && k < n_old ==> beyond.requires((i, k)),
                forall|l: int| start <= l < k ==> #[trigger] beyond.ensures((i, l as usize), true),
            decreases n_old - k,
        {
            k = k + 1;
        }
        let ghost prev = r@;
        r.push(k);
        assert forall|m: int, l: int|
            0 <= m <= i && (if m == 0 { 0 } else { r@[m - 1] as int }) <= l < r@[m] implies #[trigger] beyond.ensures(
            (m as usize, l as usize),
            true,
        ) by {
            if m < i {
                assert(r@[m] == prev[m]);
                if m > 0 {
                    assert(r@[m - 1] == prev[m - 1]);
                }
            } else {
                if m > 0 {
                    assert(r@[m - 1] == prev[m - 1]);
                }
                assert(start <= l);
            }
        }
        i = i + 1;
    }
    r
}

} // verus!
