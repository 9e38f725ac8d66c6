use vstd::prelude::*;

use crate::field::{is_rect, Field};

verus! {

/// Whether entry `v` of a raw potential at grid point `j` was kept as it is
/// or replaced by `cutoff`, as the clamping rule decides: a grid point beyond
/// the confinement boundary, or a value above the cutoff, gives the cutoff.
pub open spec fn clamped_entry<S, F: Fn(usize) -> bool, G: Fn(S) -> bool>(
    outside: F,
    above: G,
    j: usize,
    v: S,
    cutoff: S,
    r: S,
) -> bool {
    ||| (outside.ensures((j,), false) && above.ensures((v,), false) && r == v)
    ||| (outside.ensures((j,), true) && r == cutoff)
    ||| (outside.ensures((j,), false) && above.ensures((v,), true) && r == cutoff)
}

/// Bounds a raw external potential (segments by grid points) by `cutoff`.
///
/// `outside(j)` tells whether grid point `j` lies beyond the confinement
/// boundary, and `above(v)` whether a value exceeds the cutoff. Every entry
/// of the result is the cutoff or a raw value that was found not to exceed
/// it, so the field is bounded and safe to exponentiate.
pub fn clamp_potential<S: Copy, F: Fn(usize) -> bool, G: Fn(S) -> bool>(
    raw: &Field<S>,
    cutoff: S,
    outside: F,
    above: G,
) -> (r: Field<S>)
    requires
        forall|j: usize| j < raw.width() ==> outside.requires((j,)),
        forall|i: int, j: int|
            0 <= i < raw@.len() && 0 <= j < raw.width() ==> above.requires((#[trigger] raw@[i][j],)),
    ensures
        is_rect(r@, raw@.len(), raw.width()),
        r.width() == raw.width(),
        forall|i: int, j: int|
            0 <= i < raw@.len() && 0 <= j < raw.width() ==> clamped_entry(
                outside,
                above,
                j as usize,
                raw@[i][j],
                cutoff,
                #[trigger] r@[i][j],
            ),
        forall|i: int, j: int|
            0 <= i < raw@.len() && 0 <= j < raw.width() ==> (#[trigger] r@[i][j] == cutoff || above.ensures(
                (r@[i][j],),
                false,
            )),
{
    let (rows, cols) = raw.shape();
    let o = &outside;
    let a = &above;
    let f = |i: usize, j: usize| -> (v: S)
        requires
            i < rows && j < cols,
            forall|j: usize| j < raw.width() ==> o.requires((j,)),
            forall|i: int, j: int|
                0 <= i < raw@.len() && 0 <= j < raw.width() ==> a.requires((#[trigger] raw@[i][j],)),
        ensures
            clamped_entry(o, a, j, raw@[i as int][j as int], cutoff, v),
        {
            if o(j) {
                cutoff
            } else {
                let x = *raw.get(i, j);
                if a(x) {
                    cutoff
                } else {
                    x
                }
            }
        };
    let r = Field::from_shape_fn(rows, cols, f);
    assert forall|i: int, j: int| 0 <= i < raw@.len() && 0 <= j < raw.width() implies clamped_entry(
        outside,
        above,
        j as usize,
        raw@[i][j],
        cutoff,
        #[trigger] r@[i][j],
    ) by {
        assert(f.ensures((i as usize, j as usize), r@[i][j]));
    }
    r
}

} // verus!
