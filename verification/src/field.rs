//! Two-dimensional fields of samples.
//!
//! A sample is a single-precision number, carried as its 32-bit pattern. The
//! samples of a field live in an `ndarray` array; the functions here are the
//! only ones that touch it.

use vstd::prelude::*;

verus! {

/// A field of samples with a fixed number of rows and columns. Verus does not
/// look into the array: what it holds is what `matrix_rows` and
/// `matrix_ncols` name.
#[verifier::external_body]
pub struct Matrix {
    cells: ndarray::Array2<u32>,
}

/// The samples of a field, one sequence for each row, first row first.
pub uninterp spec fn matrix_rows(u: Matrix) -> Seq<Seq<u32>>;

/// The number of columns of a field, which a field without rows has too.
pub uninterp spec fn matrix_ncols(u: Matrix) -> nat;

/// Row-major `samples` cut into `nrows` rows of `ncols` samples each.
pub open spec fn rows_of(samples: Seq<u32>, nrows: nat, ncols: nat) -> Seq<Seq<u32>> {
    Seq::new(nrows, |i: int| samples.subrange(i * ncols, (i + 1) * ncols))
}

/// Whether `len` samples fill a field of `nrows` by `ncols`, and the array can
/// hold a field of that shape: the product of its axis lengths, zero lengths
/// left out, is at most `isize::MAX`.
pub open spec fn shape_fits(nrows: nat, ncols: nat, len: nat) -> bool {
    &&& nrows * ncols == len
    &&& nrows <= isize::MAX
    &&& ncols <= isize::MAX
    &&& len <= isize::MAX
}

/// `ndarray::Array2::from_shape_vec` with the shape `(nrows, ncols)` in the
/// default row-major layout. It succeeds exactly when the shape fits the
/// number of samples; the sample at row `i`, column `j` is then
/// `samples[i * ncols + j]`.
#[verifier::external_body]
fn array_from_shape_vec(nrows: usize, ncols: usize, samples: Vec<u32>) -> (made: Option<Matrix>)
    ensures
        made.is_some() <==> shape_fits(nrows as nat, ncols as nat, samples@.len()),
        made matches Some(u) ==> matrix_rows(u) == rows_of(samples@, nrows as nat, ncols as nat)
            && matrix_ncols(u) == ncols,
{
    match ndarray::Array2::from_shape_vec((nrows, ncols), samples) {
        Ok(cells) => Some(Matrix { cells }),
        Err(_) => None,
    }
}

/// `ndarray::ArrayBase::dim` of a two-dimensional array: the number of rows,
/// then the number of columns.
#[verifier::external_body]
fn array_dim(u: &Matrix) -> (dim: (usize, usize))
    ensures
        dim.0 == matrix_rows(*u).len(),
        dim.1 == matrix_ncols(*u),
{
    u.cells.dim()
}

/// `ndarray::ArrayBase::outer_iter`, and `ndarray::ArrayBase::iter` on each
/// row view that it yields: the rows in order, each with its samples in
/// order. Every row has as many samples as the field has columns.
#[verifier::external_body]
fn array_rows(u: &Matrix) -> (rows: Vec<Vec<u32>>)
    ensures
        rows.deep_view() == matrix_rows(*u),
        forall|i: int| 0 <= i < rows.len() ==> (#[trigger] rows[i]).len() == matrix_ncols(*u),
{
    u.cells.outer_iter().map(|row| row.iter().map(|e| *e).collect()).collect()
}

impl View for Matrix {
    type V = Seq<Seq<u32>>;

    open spec fn view(&self) -> Seq<Seq<u32>> {
        matrix_rows(*self)
    }
}

impl Matrix {
    /// The number of rows, as a specification.
    pub open spec fn spec_nrows(&self) -> nat {
        matrix_rows(*self).len()
    }

    /// The number of columns, as a specification.
    pub open spec fn spec_ncols(&self) -> nat {
        matrix_ncols(*self)
    }

    /// Builds a field of `nrows` by `ncols` from row-major samples, or
    /// nothing when the samples do not fill that shape.
    pub fn from_shape_vec(nrows: usize, ncols: usize, samples: Vec<u32>) -> (made: Option<Matrix>)
        ensures
            made.is_some() <==> shape_fits(nrows as nat, ncols as nat, samples@.len()),
            made matches Some(u) ==> u@ == rows_of(samples@, nrows as nat, ncols as nat)
                && u.spec_ncols() == ncols,
    {
        array_from_shape_vec(nrows, ncols, samples)
    }

    /// The number of rows.
    pub fn nrows(&self) -> (n: usize)
        ensures
            n == self.spec_nrows(),
    {
        array_dim(self).0
    }

    /// The number of columns.
    pub fn ncols(&self) -> (n: usize)
        ensures
            n == self.spec_ncols(),
    {
        array_dim(self).1
    }

    /// The samples, row by row.
    pub fn rows(&self) -> (rows: Vec<Vec<u32>>)
        ensures
            rows.deep_view() == self@,
            forall|i: int| 0 <= i < rows.len() ==> (#[trigger] rows[i]).len() == self.spec_ncols(),
    {
        array_rows(self)
    }
}

} // verus!
