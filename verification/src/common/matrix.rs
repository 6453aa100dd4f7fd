//! Column-major matrices: an owned one and a borrowed view. Entry (i, j) of an
//! `nrows x ncols` matrix lives at position `j * nrows + i` of its values, which
//! is how R lays a matrix out in memory.
use vstd::prelude::*;

verus! {

/// The position of entry (i, j) in the column-major values of a matrix with
/// `nrows` rows.
pub open spec fn col_major_index(i: int, j: int, nrows: int) -> int {
    j * nrows + i
}

/// Distinct entries of a matrix sit at distinct positions, all inside the
/// values.
pub proof fn lemma_col_major_index(i: int, j: int, nrows: int, ncols: int)
    requires
        0 <= i < nrows,
        0 <= j < ncols,
    ensures
        0 <= col_major_index(i, j, nrows) < nrows * ncols,
        col_major_index(i, j, nrows) + nrows <= nrows * ncols || j == ncols - 1,
{
    assert(0 <= j * nrows + i < nrows * ncols) by (nonlinear_arith)
        requires
            0 <= i < nrows,
            0 <= j < ncols,
    ;
    assert(j * nrows + i + nrows <= nrows * ncols || j == ncols - 1) by (nonlinear_arith)
        requires
            0 <= i < nrows,
            0 <= j < ncols,
    ;
}

/// A position inside the values of a matrix with `nrows > 0` rows is the
/// position of exactly one entry.
pub proof fn lemma_col_major_index_unique(i1: int, j1: int, i2: int, j2: int, nrows: int)
    requires
        0 <= i1 < nrows,
        0 <= i2 < nrows,
        0 <= j1,
        0 <= j2,
        col_major_index(i1, j1, nrows) == col_major_index(i2, j2, nrows),
    ensures
        i1 == i2,
        j1 == j2,
{
    assert(j1 == j2) by (nonlinear_arith)
        requires
            0 <= i1 < nrows,
            0 <= i2 < nrows,
            0 <= j1,
            0 <= j2,
            j1 * nrows + i1 == j2 * nrows + i2,
    ;
}

/// Stepping to the next column moves the position on by one column's length.
pub proof fn lemma_next_column(j: int, nrows: int)
    ensures
        (j + 1) * nrows == j * nrows + nrows,
{
    assert((j + 1) * nrows == j * nrows + nrows) by (nonlinear_arith);
}

/// Every position inside the values of a matrix with `nrows > 0` rows is the
/// position of the entry in row `t % nrows` and column `t / nrows`.
pub proof fn lemma_position_decomposes(t: int, nrows: int, ncols: int)
    requires
        0 <= t < nrows * ncols,
        0 < nrows,
    ensures
        0 <= t % nrows < nrows,
        0 <= t / nrows < ncols,
        col_major_index(t % nrows, t / nrows, nrows) == t,
{
    vstd::arithmetic::div_mod::lemma_fundamental_div_mod(t, nrows);
    vstd::arithmetic::div_mod::lemma_mod_pos_bound(t, nrows);
    let q = t / nrows;
    let m = t % nrows;
    assert(nrows * q == q * nrows) by (nonlinear_arith);
    assert(0 <= q < ncols) by (nonlinear_arith)
        requires
            t == q * nrows + m,
            0 <= m < nrows,
            0 <= t < nrows * ncols,
            0 < nrows,
    ;
}

/// An owned matrix stored column by column.
#[derive(Debug)]
pub struct DenseMatrix<T> {
    nrows: usize,
    ncols: usize,
    data: Vec<T>,
}

impl<T> DenseMatrix<T> {
    #[verifier::type_invariant]
    spec fn shape_holds(self) -> bool {
        self.data.len() == self.nrows * self.ncols
    }

    /// The number of rows.
    pub closed spec fn rows(self) -> nat {
        self.nrows as nat
    }

    /// The number of columns.
    pub closed spec fn cols(self) -> nat {
        self.ncols as nat
    }

    /// All entries, column by column.
    pub closed spec fn values(self) -> Seq<T> {
        self.data@
    }

    /// Entry (i, j).
    pub open spec fn at(self, i: int, j: int) -> T {
        self.values()[col_major_index(i, j, self.rows() as int)]
    }

    /// The matrix whose columns are the consecutive runs of `nrows` values.
    pub fn from_column_major(values: Vec<T>, nrows: usize, ncols: usize) -> (m: Self)
        requires
            values.len() == nrows * ncols,
        ensures
            m.rows() == nrows,
            m.cols() == ncols,
            m.values() == values@,
    {
        DenseMatrix { nrows, ncols, data: values }
    }

    pub fn nrows(&self) -> (n: usize)
        ensures
            n == self.rows(),
            self.values().len() == self.rows() * self.cols(),
    {
        proof {
            use_type_invariant(self);
        }
        self.nrows
    }

    pub fn ncols(&self) -> (n: usize)
        ensures
            n == self.cols(),
            self.values().len() == self.rows() * self.cols(),
    {
        proof {
            use_type_invariant(self);
        }
        self.ncols
    }

    /// Entry (i, j).
    pub fn get(&self, i: usize, j: usize) -> (v: &T)
        requires
            i < self.rows(),
            j < self.cols(),
        ensures
            *v == self.at(i as int, j as int),
    {
        proof {
            use_type_invariant(self);
            lemma_col_major_index(i as int, j as int, self.nrows as int, self.ncols as int);
        }
        &self.data[j * self.nrows + i]
    }

    /// All entries, column by column.
    pub fn as_column_major(&self) -> (s: &[T])
        ensures
            s@ == self.values(),
            s@.len() == self.rows() * self.cols(),
    {
        proof {
            use_type_invariant(self);
        }
        self.data.as_slice()
    }

    /// The entries, column by column, giving up the matrix.
    pub fn into_column_major(self) -> (v: Vec<T>)
        ensures
            v@ == self.values(),
            v@.len() == self.rows() * self.cols(),
    {
        proof {
            use_type_invariant(&self);
        }
        self.data
    }
}

impl<T: Copy> DenseMatrix<T> {
    /// The matrix made of the given rows of `self`, in the given order.
    pub fn select_rows(&self, rows: &[usize]) -> (m: DenseMatrix<T>)
        requires
            forall|k: int| 0 <= k < rows@.len() ==> rows@[k] < self.rows(),
        ensures
            m.rows() == rows@.len(),
            m.cols() == self.cols(),
            forall|i: int, j: int|
                0 <= i < m.rows() && 0 <= j < m.cols() ==> #[trigger] m.at(i, j) == self.at(
                    rows@[i] as int,
                    j,
                ),
    {
        proof {
            use_type_invariant(self);
        }
        let n_new = rows.len();
        let mut data: Vec<T> = Vec::new();
        let mut j: usize = 0;
        while j < self.ncols
            invariant
                self.data.len() == self.nrows * self.ncols,
                n_new == rows@.len(),
                forall|k: int| 0 <= k < rows@.len() ==> rows@[k] < self.nrows,
                j <= self.ncols,
                data@.len() == j * n_new,
                forall|i: int, jj: int|
                    0 <= i < n_new && 0 <= jj < j ==> #[trigger] data@[col_major_index(
                        i,
                        jj,
                        n_new as int,
                    )] == self.at(rows@[i] as int, jj),
            decreases self.ncols - j,
        {
            let ghost before = data@;
            let mut k: usize = 0;
            while k < n_new
                invariant
                    self.data.len() == self.nrows * self.ncols,
                    n_new == rows@.len(),
                    forall|kk: int| 0 <= kk < rows@.len() ==> rows@[kk] < self.nrows,
                    j < self.ncols,
                    k <= n_new,
                    before.len() == j * n_new,
                    data@.len() == j * n_new + k,
                    forall|t: int| 0 <= t < before.len() ==> data@[t] == before[t],
                    forall|i: int|
                        0 <= i < k ==> #[trigger] data@[j * n_new + i] == self.at(
                            rows@[i] as int,
                            j as int,
                        ),
                decreases n_new - k,
            {
                let r = rows[k];
                proof {
                    lemma_col_major_index(r as int, j as int, self.nrows as int, self.ncols as int);
                }
                data.push(self.data[j * self.nrows + r]);
                k = k + 1;
            }
            proof {
                lemma_next_column(j as int, n_new as int);
                assert forall|i: int, jj: int|
                    0 <= i < n_new && 0 <= jj < j + 1 implies #[trigger] data@[col_major_index(
                    i,
                    jj,
                    n_new as int,
                )] == self.at(rows@[i] as int, jj) by {
                    if jj < j {
                        lemma_col_major_index(i, jj, n_new as int, j as int);
                        assert(n_new * j == j * n_new) by (nonlinear_arith);
                        assert(data@[col_major_index(i, jj, n_new as int)] == before[col_major_index(i, jj, n_new as int)]);
                    } else {
                        assert(data@[j * n_new + i] == self.at(rows@[i] as int, j as int));
                    }
                }
            }
            j = j + 1;
        }
        proof {
            assert(n_new * j == j * n_new) by (nonlinear_arith);
        }
        DenseMatrix { nrows: n_new, ncols: self.ncols, data }
    }

    /// A copy of the entries, column by column.
    pub fn to_column_major_vec(&self) -> (v: Vec<T>)
        ensures
            v@ == self.values(),
            v@.len() == self.rows() * self.cols(),
    {
        proof {
            use_type_invariant(self);
        }
        copy_slice(self.data.as_slice())
    }
}

/// A copy of `s`.
pub fn copy_slice<T: Copy>(s: &[T]) -> (v: Vec<T>)
    ensures
        v@ == s@,
{
    let mut v: Vec<T> = Vec::new();
    let mut k: usize = 0;
    while k < s.len()
        invariant
            k <= s@.len(),
            v@ == s@.subrange(0, k as int),
        decreases s@.len() - k,
    {
        v.push(s[k]);
        k = k + 1;
    }
    assert(s@.subrange(0, s@.len() as int) == s@);
    v
}

/// A borrowed matrix laid out column by column over a slice.
#[derive(Debug)]
pub struct MatrixView<'a, T> {
    nrows: usize,
    ncols: usize,
    data: &'a [T],
}

impl<'a, T> MatrixView<'a, T> {
    #[verifier::type_invariant]
    spec fn shape_holds(self) -> bool {
        self.data@.len() == self.nrows * self.ncols
    }

    /// The number of rows.
    pub closed spec fn rows(self) -> nat {
        self.nrows as nat
    }

    /// The number of columns.
    pub closed spec fn cols(self) -> nat {
        self.ncols as nat
    }

    /// All entries, column by column.
    pub closed spec fn values(self) -> Seq<T> {
        self.data@
    }

    /// Entry (i, j).
    pub open spec fn at(self, i: int, j: int) -> T {
        self.values()[col_major_index(i, j, self.rows() as int)]
    }

    /// The matrix whose columns are the consecutive runs of `nrows` values.
    pub fn from_column_major_slice(values: &'a [T], nrows: usize, ncols: usize) -> (m: Self)
        requires
            values@.len() == nrows * ncols,
        ensures
            m.rows() == nrows,
            m.cols() == ncols,
            m.values() == values@,
    {
        MatrixView { nrows, ncols, data: values }
    }

    pub fn nrows(&self) -> (n: usize)
        ensures
            n == self.rows(),
            self.values().len() == self.rows() * self.cols(),
    {
        proof {
            use_type_invariant(self);
        }
        self.nrows
    }

    pub fn ncols(&self) -> (n: usize)
        ensures
            n == self.cols(),
            self.values().len() == self.rows() * self.cols(),
    {
        proof {
            use_type_invariant(self);
        }
        self.ncols
    }

    /// Entry (i, j).
    pub fn get(&self, i: usize, j: usize) -> (v: &T)
        requires
            i < self.rows(),
            j < self.cols(),
        ensures
            *v == self.at(i as int, j as int),
    {
        proof {
            use_type_invariant(self);
            lemma_col_major_index(i as int, j as int, self.nrows as int, self.ncols as int);
        }
        let len = self.data.len();
        assert(len == self.nrows * self.ncols);
        &self.data[j * self.nrows + i]
    }

    /// All entries, column by column.
    pub fn as_column_major(&self) -> (s: &'a [T])
        ensures
            s@ == self.values(),
            s@.len() == self.rows() * self.cols(),
    {
        proof {
            use_type_invariant(self);
        }
        self.data
    }
}

impl<'a, T: Copy> MatrixView<'a, T> {
    /// An owned copy of the viewed matrix.
    pub fn to_owned(&self) -> (m: DenseMatrix<T>)
        ensures
            m.rows() == self.rows(),
            m.cols() == self.cols(),
            m.values() == self.values(),
    {
        proof {
            use_type_invariant(self);
        }
        DenseMatrix { nrows: self.nrows, ncols: self.ncols, data: copy_slice(self.data) }
    }
}

} // verus!
