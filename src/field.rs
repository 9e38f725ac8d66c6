use vstd::prelude::*;

use crate::error::{Computation, DftError};

verus! {

/// Whether `v` holds `rows` rows of `cols` entries each.
pub open spec fn is_rect<S>(v: Seq<Seq<S>>, rows: nat, cols: nat) -> bool {
    &&& v.len() == rows
    &&& forall|i: int| 0 <= i < v.len() ==> (#[trigger] v[i]).len() == cols
}

/// A rectangular array of values, one row per segment and one column per
/// grid point: the layout of density and external-potential fields.
pub struct Field<S> {
    rows: Vec<Vec<S>>,
    cols: usize,
}

impl<S> View for Field<S> {
    type V = Seq<Seq<S>>;

    closed spec fn view(&self) -> Seq<Seq<S>> {
        self.rows@.map_values(|r: Vec<S>| r@)
    }
}

impl<S> Field<S> {
    #[verifier::type_invariant]
    spec fn inv(&self) -> bool {
        forall|i: int| 0 <= i < self.rows@.len() ==> (#[trigger] self.rows@[i])@.len() == self.cols
    }

    /// Number of grid points (columns), also known for a field without rows.
    pub closed spec fn width(&self) -> nat {
        self.cols as nat
    }

    /// Number of rows and columns; every row has `width()` entries.
    pub fn shape(&self) -> (r: (usize, usize))
        ensures
            r.0 == self@.len(),
            r.1 == self.width(),
            is_rect(self@, r.0 as nat, r.1 as nat),
    {
        proof {
            use_type_invariant(self);
        }
        (self.rows.len(), self.cols)
    }

    /// The field made of `rows`, each of which must have `cols` entries.
    pub fn from_rows(rows: Vec<Vec<S>>, cols: usize) -> (r: Option<Self>)
        ensures
            r.is_some() == (forall|i: int| 0 <= i < rows@.len() ==> (#[trigger] rows@[i])@.len() == cols),
            r matches Some(f) ==> f@ == rows@.map_values(|v: Vec<S>| v@) && f.width() == cols,
    {
        let mut i: usize = 0;
        while i < rows.len()
            invariant
                0 <= i <= rows@.len(),
                forall|k: int| 0 <= k < i ==> (#[trigger] rows@[k])@.len() == cols,
            decreases rows@.len() - i,
        {
            if rows[i].len() != cols {
                return None;
            }
            i = i + 1;
        }
        Some(Field { rows, cols })
    }

    /// The field of `rows` by `cols` whose entry (i, j) is `f(i, j)`.
    pub fn from_shape_fn<F: Fn(usize, usize) -> S>(rows: usize, cols: usize, f: F) -> (r: Self)
        requires
            forall|i: usize, j: usize| i < rows && j < cols ==> f.requires((i, j)),
        ensures
            is_rect(r@, rows as nat, cols as nat),
            r.width() == cols,
            forall|i: int, j: int|
                0 <= i < rows && 0 <= j < cols ==> f.ensures((i as usize, j as usize), #[trigger] r@[i][j]),
    {
        let mut out: Vec<Vec<S>> = Vec::new();
        let mut i: usize = 0;
        while i < rows
            invariant
                i <= rows,
                out@.len() == i,
                forall|i: usize, j: usize| i < rows && j < cols ==> f.requires((i, j)),
                forall|k: int| 0 <= k < i ==> (#[trigger] out@[k])@.len() == cols,
                forall|k: int, j: int|
                    0 <= k < i && 0 <= j < cols ==> f.ensures((k as usize, j as usize), #[trigger] out@[k]@[j]),
            decreases rows - i,
        {
            let mut row: Vec<S> = Vec::new();
            let mut j: usize = 0;
            while j < cols
                invariant
                    i < rows,
                    j <= cols,
                    row@.len() == j,
                    forall|i: usize, j: usize| i < rows && j < cols ==> f.requires((i, j)),
                    forall|l: int| 0 <= l < j ==> f.ensures((i, l as usize), #[trigger] row@[l]),
                decreases cols - j,
            {
                row.push(f(i, j));
                j = j + 1;
            }
            out.push(row);
            i = i + 1;
        }
        let r = Field { rows: out, cols };
        assert forall|i: int, j: int| 0 <= i < rows && 0 <= j < cols implies f.ensures(
            (i as usize, j as usize),
            #[trigger] r@[i][j],
        ) by {
            assert(r@[i] == out@[i]@);
        }
        r
    }

    /// The field of `rows` by `cols` with every entry equal to `value`.
    pub fn filled(rows: usize, cols: usize, value: S) -> (r: Self)
        where
            S: Copy,
        ensures
            is_rect(r@, rows as nat, cols as nat),
            r.width() == cols,
            forall|i: int, j: int| 0 <= i < rows && 0 <= j < cols ==> #[trigger] r@[i][j] == value,
    {
        Self::from_shape_fn(rows, cols, |i: usize, j: usize| -> (v: S) ensures v == value { value })
    }

    /// The row of segment `i`.
    pub fn row(&self, i: usize) -> (r: &Vec<S>)
        requires
            i < self@.len(),
        ensures
            r@ == self@[i as int],
    {
        &self.rows[i]
    }

    /// The entry of segment `i` at grid point `j`.
    pub fn get(&self, i: usize, j: usize) -> (r: &S)
        requires
            i < self@.len(),
            j < self.width(),
        ensures
            *r == self@[i as int][j as int],
    {
        proof {
            use_type_invariant(self);
        }
        let row = &self.rows[i];
        &row[j]
    }

    /// The rows of the field.
    pub fn into_rows(self) -> (r: Vec<Vec<S>>)
        ensures
            r@.map_values(|v: Vec<S>| v@) == self@,
    {
        self.rows
    }

    /// Succeeds exactly when the field has `rows` rows of `cols` entries;
    /// otherwise reports the mismatch against `computation`.
    pub fn check_shape(&self, rows: usize, cols: usize, computation: Computation) -> (r: Result<(), DftError>)
        ensures
            r is Ok <==> (self@.len() == rows && self.width() == cols),
            r matches Err(e) ==> e == (DftError::ShapeMismatch {
                computation,
                expected_segments: rows,
                expected_points: cols,
                found_segments: self@.len() as usize,
                found_points: self.width() as usize,
            }),
    {
        let (n, m) = self.shape();
        if n == rows && m == cols {
            Ok(())
        } else {
            Err(
                DftError::ShapeMismatch {
                    computation,
                    expected_segments: rows,
                    expected_points: cols,
                    found_segments: n,
                    found_points: m,
                },
            )
        }
    }
}

} // verus!
