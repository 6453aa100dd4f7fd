//! How numeric inputs are taken in: an R object's matrix shape and values,
//! read as a dense matrix, a sparse matrix in compressed columns, or a vector.
use vstd::prelude::*;
use crate::common::error::{ModelError, SparseSlot};
use crate::common::matrix::{copy_slice, DenseMatrix, MatrixView};

verus! {

/// What an R object offers to the matrix reader. An object with a `dim`
/// attribute is a `Matrix`; otherwise one of class `dgCMatrix` is a
/// `DgCMatrix`; anything else is `Other`. A slice is `None` where the object
/// holds no values of the required type (or the slot is missing).
#[derive(Debug)]
pub enum RobjMatrix<'a, T> {
    Matrix { nrows: usize, ncols: usize, real_values: Option<&'a [T]> },
    DgCMatrix {
        nrows: usize,
        ncols: usize,
        p: Option<&'a [i32]>,
        i: Option<&'a [i32]>,
        x: Option<&'a [T]>,
    },
    Other { nrows: usize, ncols: usize },
}

/// A matrix input as the solvers receive it.
#[derive(Debug)]
pub enum InputMatrix<'a, T> {
    /// A dense matrix read in place.
    Dense(MatrixView<'a, T>),
    /// A sparse matrix in compressed sparse column form.
    SparseCscOwned {
        nrows: usize,
        ncols: usize,
        col_ptrs: Vec<usize>,
        row_indices: Vec<usize>,
        values: Vec<T>,
    },
    /// Any other object, known only by its dimensions.
    CustomPlaceholder { nrows: usize, ncols: usize },
}

/// The index that an R integer stands for, converted as `i32 as usize` does.
pub open spec fn index_of(x: i32) -> usize {
    x as usize
}

/// Every R integer of `s` converted to an index.
pub open spec fn indices_of(s: Seq<i32>) -> Seq<usize> {
    s.map_values(|x: i32| index_of(x))
}

/// `s` converted element by element with `as usize`.
pub fn integers_to_indices(s: &[i32]) -> (v: Vec<usize>)
    ensures
        v@ == indices_of(s@),
{
    let mut v: Vec<usize> = Vec::new();
    let mut k: usize = 0;
    while k < s.len()
        invariant
            k <= s@.len(),
            v@ == indices_of(s@.subrange(0, k as int)),
        decreases s@.len() - k,
    {
        v.push(s[k] as usize);
        assert(indices_of(s@.subrange(0, k + 1)) =~= indices_of(s@.subrange(0, k as int)).push(
            index_of(s@[k as int]),
        ));
        k = k + 1;
    }
    assert(s@.subrange(0, s@.len() as int) == s@);
    v
}

impl<'a, T> RobjMatrix<'a, T> {
    /// The dimensions that the object reports.
    pub open spec fn dims(self) -> (usize, usize) {
        match self {
            RobjMatrix::Matrix { nrows, ncols, .. } => (nrows, ncols),
            RobjMatrix::DgCMatrix { nrows, ncols, .. } => (nrows, ncols),
            RobjMatrix::Other { nrows, ncols } => (nrows, ncols),
        }
    }

    /// What reading the object as a matrix yields, up to the values of a
    /// successful read: `Ok(())` where it succeeds, the error where it does not.
    pub open spec fn read_outcome(self) -> Result<(), ModelError> {
        match self {
            RobjMatrix::Matrix { nrows, ncols, real_values } => match real_values {
                None => Err(ModelError::DenseNotReal),
                Some(v) => if v@.len() != nrows * ncols {
                    Err(ModelError::DenseLengthMismatch { len: v@.len() as usize, nrows, ncols })
                } else {
                    Ok(())
                },
            },
            RobjMatrix::DgCMatrix { p, i, x, .. } => if p is None {
                Err(ModelError::MissingSparseSlot { slot: SparseSlot::P })
            } else if i is None {
                Err(ModelError::MissingSparseSlot { slot: SparseSlot::I })
            } else if x is None {
                Err(ModelError::MissingSparseSlot { slot: SparseSlot::X })
            } else {
                Ok(())
            },
            RobjMatrix::Other { .. } => Ok(()),
        }
    }
}

impl<'a, T> InputMatrix<'a, T> {
    /// The dimensions of the matrix.
    pub open spec fn dims(self) -> (usize, usize) {
        match self {
            InputMatrix::Dense(m) => (m.rows() as usize, m.cols() as usize),
            InputMatrix::SparseCscOwned { nrows, ncols, .. } => (nrows, ncols),
            InputMatrix::CustomPlaceholder { nrows, ncols } => (nrows, ncols),
        }
    }

    /// The number of rows.
    pub fn nrows(&self) -> (n: usize)
        ensures
            n == self.dims().0,
            self matches InputMatrix::Dense(m) ==> n == m.rows(),
            self matches InputMatrix::SparseCscOwned { nrows, .. } ==> n == nrows,
            self matches InputMatrix::CustomPlaceholder { nrows, .. } ==> n == nrows,
    {
        match self {
            InputMatrix::Dense(m) => m.nrows(),
            InputMatrix::SparseCscOwned { nrows, .. } => *nrows,
            InputMatrix::CustomPlaceholder { nrows, .. } => *nrows,
        }
    }

    /// The number of columns.
    pub fn ncols(&self) -> (n: usize)
        ensures
            n == self.dims().1,
            self matches InputMatrix::Dense(m) ==> n == m.cols(),
            self matches InputMatrix::SparseCscOwned { ncols, .. } ==> n == ncols,
            self matches InputMatrix::CustomPlaceholder { ncols, .. } ==> n == ncols,
    {
        match self {
            InputMatrix::Dense(m) => m.ncols(),
            InputMatrix::SparseCscOwned { ncols, .. } => *ncols,
            InputMatrix::CustomPlaceholder { ncols, .. } => *ncols,
        }
    }
}

impl<'a, T: Copy> InputMatrix<'a, T> {
    /// Reads an R object as a matrix: a dense matrix is viewed in place after
    /// its length is checked, a dgCMatrix is copied slot by slot (R integers
    /// becoming indices), and anything else is kept by its dimensions.
    pub fn try_from_robj(obj: RobjMatrix<'a, T>) -> (r: Result<Self, ModelError>)
        requires
            obj matches RobjMatrix::Matrix { nrows, ncols, .. } ==> nrows * ncols <= usize::MAX,
        ensures
            obj.read_outcome() is Err ==> r == Err::<Self, ModelError>(
                obj.read_outcome()->Err_0,
            ),
            obj.read_outcome() is Ok ==> r is Ok,
            r matches Ok(m) ==> m.dims() == obj.dims(),
            r matches Ok(m) ==> match obj {
                RobjMatrix::Matrix { nrows, ncols, real_values } => m matches InputMatrix::Dense(
                    v,
                ) && v.rows() == nrows && v.cols() == ncols && v.values() == real_values->0@,
                RobjMatrix::DgCMatrix { p, i, x, .. } => m matches InputMatrix::SparseCscOwned {
                    col_ptrs,
                    row_indices,
                    values,
                    ..
                } && col_ptrs@ == indices_of(p->0@) && row_indices@ == indices_of(i->0@)
                    && values@ == x->0@,
                RobjMatrix::Other { .. } => m is CustomPlaceholder,
            },
            obj matches RobjMatrix::Matrix { nrows, ncols, real_values } ==> (real_values matches Some(
                v,
            ) ==> (v@.len() == nrows * ncols ==> (r matches Ok(InputMatrix::Dense(m)) && m.rows()
                == nrows && m.cols() == ncols && m.values() == v@))),
            obj matches RobjMatrix::Matrix { nrows, ncols, real_values } ==> (real_values matches Some(
                v,
            ) ==> (v@.len() != nrows * ncols ==> r == Err::<Self, ModelError>(
                ModelError::DenseLengthMismatch { len: v@.len() as usize, nrows, ncols },
            ))),
            obj matches RobjMatrix::Matrix { real_values, .. } ==> (real_values is None ==> r
                == Err::<Self, ModelError>(ModelError::DenseNotReal)),
            obj matches RobjMatrix::DgCMatrix { nrows, ncols, p, i, x } ==> (p matches Some(pp) ==> (
            i matches Some(ii) ==> (x matches Some(xx) ==> (r matches Ok(
                InputMatrix::SparseCscOwned { nrows: rn, ncols: cn, col_ptrs, row_indices, values },
            ) && rn == nrows && cn == ncols && col_ptrs@.len() == pp@.len() && (forall|k: int|
                0 <= k < pp@.len() ==> #[trigger] col_ptrs@[k] == pp@[k] as usize)
                && row_indices@.len() == ii@.len() && (forall|k: int|
                0 <= k < ii@.len() ==> #[trigger] row_indices@[k] == ii@[k] as usize)
                && values@ == xx@)))),
            obj matches RobjMatrix::DgCMatrix { p, .. } ==> (p is None ==> r == Err::<Self, ModelError>(
                ModelError::MissingSparseSlot { slot: SparseSlot::P },
            )),
            obj matches RobjMatrix::DgCMatrix { p, i, .. } ==> (p is Some ==> (i is None ==> r == Err::<
                Self,
                ModelError,
            >(ModelError::MissingSparseSlot { slot: SparseSlot::I }))),
            obj matches RobjMatrix::DgCMatrix { p, i, x, .. } ==> (p is Some ==> (i is Some ==> (x is None
                ==> r == Err::<Self, ModelError>(
                ModelError::MissingSparseSlot { slot: SparseSlot::X },
            )))),
            obj matches RobjMatrix::Other { nrows, ncols } ==> (r matches Ok(
                InputMatrix::CustomPlaceholder { nrows: rn, ncols: cn },
            ) && rn == nrows && cn == ncols),
    {
        match obj {
            RobjMatrix::Matrix { nrows, ncols, real_values } => {
                match real_values {
                    None => Err(ModelError::DenseNotReal),
                    Some(values) => {
                        if values.len() != nrows * ncols {
                            Err(
                                ModelError::DenseLengthMismatch {
                                    len: values.len(),
                                    nrows,
                                    ncols,
                                },
                            )
                        } else {
                            Ok(
                                InputMatrix::Dense(
                                    MatrixView::from_column_major_slice(values, nrows, ncols),
                                ),
                            )
                        }
                    },
                }
            },
            RobjMatrix::DgCMatrix { nrows, ncols, p, i, x } => {
                let col_ptrs = match p {
                    None => {
                        return Err(ModelError::MissingSparseSlot { slot: SparseSlot::P });
                    },
                    Some(p) => integers_to_indices(p),
                };
                let row_indices = match i {
                    None => {
                        return Err(ModelError::MissingSparseSlot { slot: SparseSlot::I });
                    },
                    Some(i) => integers_to_indices(i),
                };
                let values = match x {
                    None => {
                        return Err(ModelError::MissingSparseSlot { slot: SparseSlot::X });
                    },
                    Some(x) => copy_slice(x),
                };
                Ok(InputMatrix::SparseCscOwned { nrows, ncols, col_ptrs, row_indices, values })
            },
            RobjMatrix::Other { nrows, ncols } => Ok(InputMatrix::CustomPlaceholder { nrows, ncols }),
        }
    }
}

/// The dimensions of a matrix input are those it was built with: a dense view's
/// rows and columns, and the stored counts of a sparse matrix or a placeholder.
pub proof fn lemma_input_dims<'a, T>(m: InputMatrix<'a, T>)
    ensures
        m matches InputMatrix::Dense(v) ==> m.dims() == (v.rows() as usize, v.cols() as usize),
        m matches InputMatrix::SparseCscOwned { nrows, ncols, .. } ==> m.dims() == (nrows, ncols),
        m matches InputMatrix::CustomPlaceholder { nrows, ncols } ==> m.dims() == (nrows, ncols),
{
}

/// The dimensions an R object reports are those it was described with.
pub proof fn lemma_robj_dims<'a, T>(obj: RobjMatrix<'a, T>)
    ensures
        obj matches RobjMatrix::Matrix { nrows, ncols, .. } ==> obj.dims() == (nrows, ncols),
        obj matches RobjMatrix::DgCMatrix { nrows, ncols, .. } ==> obj.dims() == (nrows, ncols),
        obj matches RobjMatrix::Other { nrows, ncols } ==> obj.dims() == (nrows, ncols),
{
}

/// Reads an R object as a dense matrix, copying its values. A sparse matrix
/// and any other object are refused, after the checks of `try_from_robj`.
pub fn dense_matrix_from_robj<'a, T: Copy>(obj: RobjMatrix<'a, T>, role: &str) -> (r: Result<
    DenseMatrix<T>,
    ModelError,
>)
    requires
        obj matches RobjMatrix::Matrix { nrows, ncols, .. } ==> nrows * ncols <= usize::MAX,
    ensures
        obj.read_outcome() is Err ==> r == Err::<DenseMatrix<T>, ModelError>(
            obj.read_outcome()->Err_0,
        ),
        obj.read_outcome() is Ok ==> match obj {
            RobjMatrix::Matrix { nrows, ncols, real_values } => r matches Ok(m) && m.rows()
                == nrows && m.cols() == ncols && m.values() == real_values->0@,
            RobjMatrix::DgCMatrix { .. } => r matches Err(
                ModelError::SparseNotSupported { role: ro },
            ) && ro@ == role@,
            RobjMatrix::Other { .. } => r matches Err(ModelError::NotDenseMatrix { role: ro })
                && ro@ == role@,
        },
        obj matches RobjMatrix::Matrix { nrows, ncols, real_values } ==> (real_values matches Some(
            v,
        ) ==> (v@.len() == nrows * ncols ==> (r matches Ok(m) && m.rows() == nrows && m.cols()
            == ncols && m.values() == v@))),
        obj matches RobjMatrix::Matrix { nrows, ncols, real_values } ==> (real_values matches Some(
            v,
        ) ==> (v@.len() != nrows * ncols ==> r == Err::<DenseMatrix<T>, ModelError>(
            ModelError::DenseLengthMismatch { len: v@.len() as usize, nrows, ncols },
        ))),
        obj matches RobjMatrix::Matrix { real_values, .. } ==> (real_values is None ==> r == Err::<
            DenseMatrix<T>,
            ModelError,
        >(ModelError::DenseNotReal)),
        obj matches RobjMatrix::DgCMatrix { p, i, x, .. } ==> (p is Some && i is Some && x is Some
            ==> (r matches Err(ModelError::SparseNotSupported { role: ro }) && ro@ == role@)),
        obj matches RobjMatrix::DgCMatrix { p, .. } ==> (p is None ==> r == Err::<
            DenseMatrix<T>,
            ModelError,
        >(ModelError::MissingSparseSlot { slot: SparseSlot::P })),
        obj is Other ==> (r matches Err(ModelError::NotDenseMatrix { role: ro }) && ro@ == role@),
        r is Ok ==> obj is Matrix,
{
    let mat = InputMatrix::try_from_robj(obj)?;
    match mat {
        InputMatrix::Dense(m) => Ok(m.to_owned()),
        InputMatrix::SparseCscOwned { .. } => Err(
            ModelError::SparseNotSupported { role: role.to_owned() },
        ),
        InputMatrix::CustomPlaceholder { .. } => Err(
            ModelError::NotDenseMatrix { role: role.to_owned() },
        ),
    }
}

/// The shape that values of length `len` are read in: the object's own
/// dimensions where it has them, else `default_ncols` columns of
/// `len / default_ncols` rows.
pub open spec fn vector_or_matrix_shape(
    len: nat,
    dims: Option<(usize, usize)>,
    default_ncols: usize,
) -> Option<(nat, nat)> {
    match dims {
        Some((nr, nc)) => Some((nr as nat, nc as nat)),
        None => if default_ncols == 0 || len % (default_ncols as nat) != 0 {
            None
        } else {
            Some(((len / (default_ncols as nat)) as nat, default_ncols as nat))
        },
    }
}

/// Reads numeric values as a matrix: with the object's dimensions (`dims`)
/// where it has them, else as `default_ncols` columns. `values` are the
/// object's numbers, already converted to the element type.
pub fn numeric_vector_or_matrix_from_robj<T: Copy>(
    values: Vec<T>,
    dims: Option<(usize, usize)>,
    role: &str,
    default_ncols: usize,
) -> (r: Result<DenseMatrix<T>, ModelError>)
    requires
        dims matches Some((nr, nc)) ==> nr * nc <= usize::MAX,
    ensures
        match vector_or_matrix_shape(values@.len(), dims, default_ncols) {
            None => r matches Err(ModelError::IncompatibleDefaultNcols { role: ro, len, default_ncols: d })
                && ro@ == role@ && len == values@.len() && d == default_ncols,
            Some((nr, nc)) => if values@.len() != nr * nc {
                r matches Err(ModelError::ShapeLengthMismatch { role: ro, len, nrows, ncols }) && ro@
                    == role@ && len == values@.len() && nrows == nr && ncols == nc
            } else {
                r matches Ok(m) && m.rows() == nr && m.cols() == nc && m.values() == values@
            },
        },
        dims matches Some((nr, nc)) ==> (values@.len() == nr * nc ==> (r matches Ok(m) && m.rows()
            == nr && m.cols() == nc && m.values() == values@)),
        dims matches Some((nr, nc)) ==> (values@.len() != nr * nc ==> (r matches Err(
            ModelError::ShapeLengthMismatch { len, nrows, ncols, .. },
        ) && len == values@.len() && nrows == nr && ncols == nc)),
        dims is None ==> (default_ncols == 0 ==> r is Err),
        dims is None && default_ncols > 0 ==> (values@.len() % (default_ncols as nat) == 0 <==> r is Ok),
        dims is None ==> (r matches Ok(m) ==> m.cols() == default_ncols && m.rows() * m.cols()
            == values@.len() && m.values() == values@),
        r matches Ok(m) ==> m.values() == values@ && m.rows() * m.cols() == values@.len(),
{
    let len = values.len();
    let (nr, nc) = match dims {
        Some((nr, nc)) => (nr, nc),
        None => {
            if default_ncols == 0 || len % default_ncols != 0 {
                return Err(
                    ModelError::IncompatibleDefaultNcols {
                        role: role.to_owned(),
                        len,
                        default_ncols,
                    },
                );
            }
            proof {
                assert((len / default_ncols) * default_ncols == len) by (nonlinear_arith)
                    requires
                        default_ncols > 0,
                        len % default_ncols == 0,
                ;
            }
            (len / default_ncols, default_ncols)
        },
    };
    if len != nr * nc {
        return Err(
            ModelError::ShapeLengthMismatch { role: role.to_owned(), len, nrows: nr, ncols: nc },
        );
    }
    Ok(DenseMatrix::from_column_major(values, nr, nc))
}

/// Reads an optional numeric vector of length `n`: a missing (NULL) one is `n`
/// copies of `default_value`, a given one must have length `n`.
pub fn optional_numeric_vector_from_robj<T: Copy>(
    values: Option<Vec<T>>,
    n: usize,
    default_value: T,
    role: &str,
) -> (r: Result<Vec<T>, ModelError>)
    ensures
        match values {
            None => r matches Ok(v) && v@ == Seq::new(n as nat, |k: int| default_value),
            Some(given) => if given@.len() != n {
                r matches Err(ModelError::VectorLengthMismatch { role: ro, len, expected }) && ro@
                    == role@ && len == given@.len() && expected == n
            } else {
                r == Ok::<Vec<T>, ModelError>(given)
            },
        },
{
    match values {
        None => {
            let mut v: Vec<T> = Vec::new();
            let mut k: usize = 0;
            while k < n
                invariant
                    k <= n,
                    v@ == Seq::new(k as nat, |t: int| default_value),
                decreases n - k,
            {
                v.push(default_value);
                k = k + 1;
                assert(v@ =~= Seq::new(k as nat, |t: int| default_value));
            }
            Ok(v)
        },
        Some(given) => {
            if given.len() != n {
                let len = given.len();
                Err(ModelError::VectorLengthMismatch { role: role.to_owned(), len, expected: n })
            } else {
                Ok(given)
            }
        },
    }
}

/// A matrix kept in the storage that its source came in.
#[derive(Debug)]
pub enum MatrixStorage<T> {
    Dense(DenseMatrix<T>),
    SparseCscOwned {
        nrows: usize,
        ncols: usize,
        col_ptrs: Vec<usize>,
        row_indices: Vec<usize>,
        values: Vec<T>,
    },
}

/// How the covariance of a mixed model's response is given.
#[derive(Debug)]
pub enum CovarianceKernel<T> {
    /// General positive semi-definite matrices.
    GeneralPsd(Vec<MatrixStorage<T>>),
    /// Random-effect designs Z whose products Z Z' make up the covariance.
    FactorizedZ { z_matrices: Vec<MatrixStorage<T>>, is_block_diagonal: bool },
    /// Matrices that the variance components scale.
    VarianceComponents { matrices: Vec<MatrixStorage<T>> },
}

} // verus!
