//! The decisions of a (weighted) linear least-squares fit: which estimation
//! targets and solvers are accepted, how the response and design are read,
//! which coefficients a rank-deficient fit leaves undetermined, and the
//! bookkeeping of ranks, pivots and degrees of freedom.
use vstd::prelude::*;
use crate::common::error::ModelError;
use crate::common::matrix::{col_major_index, copy_slice, DenseMatrix, MatrixView};
use crate::common::method::{ApproximationMethod, ClosedFormSolver};
use crate::common::pet::Pet;

verus! {

/// Whether a linear model accepts an estimation target: OLS and LS always,
/// WLS when the fit is weighted.
pub open spec fn lm_pet_allowed(pet: Pet, weighted: bool) -> bool {
    pet == Pet::Ols || pet == Pet::Ls || (weighted && pet == Pet::Wls)
}

/// Accepts the estimation targets of a (weighted) linear model.
pub fn check_lm_pet(pet: Pet, weighted: bool) -> (r: Result<(), ModelError>)
    ensures
        lm_pet_allowed(pet, weighted) ==> r is Ok,
        !lm_pet_allowed(pet, weighted) ==> r == Err::<(), ModelError>(
            ModelError::LmPetUnsupported { weighted },
        ),
        pet == Pet::Ols ==> r is Ok,
        pet == Pet::Ls ==> r is Ok,
        pet == Pet::Wls ==> (r is Ok <==> weighted),
        pet == Pet::Mle || pet == Pet::Reml ==> r == Err::<(), ModelError>(
            ModelError::LmPetUnsupported { weighted },
        ),
{
    if weighted {
        if pet != Pet::Ols && pet != Pet::Ls && pet != Pet::Wls {
            return Err(ModelError::LmPetUnsupported { weighted });
        }
    } else if pet != Pet::Ols && pet != Pet::Ls {
        return Err(ModelError::LmPetUnsupported { weighted });
    }
    Ok(())
}

/// Refuses a design without rows.
pub fn check_nonempty(n: usize) -> (r: Result<(), ModelError>)
    ensures
        n == 0 ==> r == Err::<(), ModelError>(ModelError::NoCases),
        n != 0 ==> r is Ok,
{
    if n == 0 {
        Err(ModelError::NoCases)
    } else {
        Ok(())
    }
}

/// Refuses a response with another number of rows than the design.
pub fn check_rows(x_rows: usize, y_rows: usize) -> (r: Result<(), ModelError>)
    ensures
        y_rows != x_rows ==> r == Err::<(), ModelError>(ModelError::RowMismatch { x_rows, y_rows }),
        y_rows == x_rows ==> r is Ok,
{
    if y_rows != x_rows {
        Err(ModelError::RowMismatch { x_rows, y_rows })
    } else {
        Ok(())
    }
}

/// Refuses a weight vector whose length is not the number of rows.
pub fn check_weights_length(len: usize, n: usize) -> (r: Result<(), ModelError>)
    ensures
        len != n ==> r == Err::<(), ModelError>(
            ModelError::WeightsLengthMismatch { len, expected: n },
        ),
        len == n ==> r is Ok,
{
    if len != n {
        Err(ModelError::WeightsLengthMismatch { len, expected: n })
    } else {
        Ok(())
    }
}

/// Views the design in place. `dims` are the object's matrix dimensions
/// (`None` where it is no matrix), `real_values` its double values (`None`
/// where it holds none).
pub fn dense_matrix_ref_from_robj<'a, T>(
    dims: Option<(usize, usize)>,
    real_values: Option<&'a [T]>,
    role: &str,
) -> (r: Result<MatrixView<'a, T>, ModelError>)
    requires
        dims matches Some((nr, nc)) ==> nr * nc <= usize::MAX,
    ensures
        dims is None ==> (r matches Err(ModelError::NotNumericMatrix { role: ro }) && ro@ == role@),
        dims matches Some((nr, nc)) ==> (match real_values {
            None => r matches Err(ModelError::NotDoubleMatrix { role: ro }) && ro@ == role@,
            Some(v) => if v@.len() != nr * nc {
                r matches Err(ModelError::ExpectedLengthMismatch { role: ro, len, nrows, ncols })
                    && ro@ == role@ && len == v@.len() && nrows == nr && ncols == nc
            } else {
                r matches Ok(m) && m.rows() == nr && m.cols() == nc && m.values() == v@
            },
        }),
{
    let (nr, nc) = match dims {
        None => {
            return Err(ModelError::NotNumericMatrix { role: role.to_owned() });
        },
        Some(d) => d,
    };
    let slice = match real_values {
        None => {
            return Err(ModelError::NotDoubleMatrix { role: role.to_owned() });
        },
        Some(s) => s,
    };
    if slice.len() != nr * nc {
        return Err(
            ModelError::ExpectedLengthMismatch {
                role: role.to_owned(),
                len: slice.len(),
                nrows: nr,
                ncols: nc,
            },
        );
    }
    Ok(MatrixView::from_column_major_slice(slice, nr, nc))
}

/// Reads (and copies) the response: a matrix keeps its dimensions, a vector
/// becomes one column.
pub fn response_matrix_from_robj<T: Copy>(
    dims: Option<(usize, usize)>,
    real_values: Option<&[T]>,
    role: &str,
) -> (r: Result<DenseMatrix<T>, ModelError>)
    requires
        dims matches Some((nr, nc)) ==> nr * nc <= usize::MAX,
    ensures
        match real_values {
            None => r matches Err(ModelError::NotDoubleVectorOrMatrix { role: ro }) && ro@ == role@,
            Some(v) => match dims {
                Some((nr, nc)) => if v@.len() != nr * nc {
                    r matches Err(
                        ModelError::ExpectedLengthMismatch { role: ro, len, nrows, ncols },
                    ) && ro@ == role@ && len == v@.len() && nrows == nr && ncols == nc
                } else {
                    r matches Ok(m) && m.rows() == nr && m.cols() == nc && m.values() == v@
                },
                None => r matches Ok(m) && m.rows() == v@.len() && m.cols() == 1 && m.values()
                    == v@,
            },
        },
{
    let slice = match real_values {
        None => {
            return Err(ModelError::NotDoubleVectorOrMatrix { role: role.to_owned() });
        },
        Some(s) => s,
    };
    match dims {
        Some((nr, nc)) => {
            if slice.len() != nr * nc {
                return Err(
                    ModelError::ExpectedLengthMismatch {
                        role: role.to_owned(),
                        len: slice.len(),
                        nrows: nr,
                        ncols: nc,
                    },
                );
            }
            Ok(DenseMatrix::from_column_major(copy_slice(slice), nr, nc))
        },
        None => {
            let len = slice.len();
            Ok(DenseMatrix::from_column_major(copy_slice(slice), len, 1))
        },
    }
}

/// The shape that a response is read in: its matrix dimensions, or one column
/// of all its values.
pub open spec fn response_shape(len: nat, dims: Option<(usize, usize)>) -> (nat, nat) {
    match dims {
        Some((nr, nc)) => (nr as nat, nc as nat),
        None => (len, 1),
    }
}

/// Views the response in place and checks that it has `n_expected` rows.
pub fn response_matrix_ref_from_robj<'a, T>(
    dims: Option<(usize, usize)>,
    real_values: Option<&'a [T]>,
    n_expected: usize,
    role: &str,
) -> (r: Result<MatrixView<'a, T>, ModelError>)
    requires
        dims matches Some((nr, nc)) ==> nr * nc <= usize::MAX,
    ensures
        match real_values {
            None => r matches Err(ModelError::NotDoubleVectorOrMatrix { role: ro }) && ro@ == role@,
            Some(v) => {
                let (nr, nc) = response_shape(v@.len(), dims);
                if nr != n_expected {
                    r matches Err(ModelError::RowCountMismatch { role: ro, nrows, expected })
                        && ro@ == role@ && nrows == nr && expected == n_expected
                } else if v@.len() != nr * nc {
                    r matches Err(
                        ModelError::ExpectedLengthMismatch { role: ro, len, nrows, ncols },
                    ) && ro@ == role@ && len == v@.len() && nrows == nr && ncols == nc
                } else {
                    r matches Ok(m) && m.rows() == nr && m.cols() == nc && m.values() == v@
                }
            },
        },
        real_values matches Some(v) ==> (dims matches Some((nr, nc)) ==> {
            &&& nr != n_expected ==> (r matches Err(
                ModelError::RowCountMismatch { nrows, expected, .. },
            ) && nrows == nr && expected == n_expected)
            &&& nr == n_expected && v@.len() == nr * nc ==> (r matches Ok(m) && m.rows() == nr
                && m.cols() == nc && m.values() == v@)
        }),
        dims is None ==> (real_values matches Some(v) ==> {
            &&& v@.len() != n_expected ==> (r matches Err(
                ModelError::RowCountMismatch { nrows, expected, .. },
            ) && nrows == v@.len() && expected == n_expected)
            &&& v@.len() == n_expected ==> (r matches Ok(m) && m.rows() == v@.len() && m.cols()
                == 1 && m.values() == v@)
        }),
        r matches Ok(m) ==> m.rows() == n_expected,
{
    let slice = match real_values {
        None => {
            return Err(ModelError::NotDoubleVectorOrMatrix { role: role.to_owned() });
        },
        Some(s) => s,
    };
    let (nr, nc) = match dims {
        Some((nr, nc)) => (nr, nc),
        None => (slice.len(), 1),
    };
    if nr != n_expected {
        return Err(
            ModelError::RowCountMismatch { role: role.to_owned(), nrows: nr, expected: n_expected },
        );
    }
    if slice.len() != nr * nc {
        return Err(
            ModelError::ExpectedLengthMismatch {
                role: role.to_owned(),
                len: slice.len(),
                nrows: nr,
                ncols: nc,
            },
        );
    }
    Ok(MatrixView::from_column_major_slice(slice, nr, nc))
}

/// The targets that a linear model accepts: OLS and LS always; a weighted fit
/// accepts everything an unweighted one does and WLS besides; ML and REML
/// never.
pub proof fn lemma_lm_pet_rules(pet: Pet, weighted: bool)
    ensures
        lm_pet_allowed(pet, false) ==> lm_pet_allowed(pet, true),
        lm_pet_allowed(pet, true) && !lm_pet_allowed(pet, false) <==> pet == Pet::Wls,
        pet == Pet::Ols || pet == Pet::Ls ==> lm_pet_allowed(pet, weighted),
        pet == Pet::Mle || pet == Pet::Reml ==> !lm_pet_allowed(pet, weighted),
{
}

/// How the solver plan depends on the shape of the design: the QR methods
/// refuse only designs with fewer rows than columns when singular fits are not
/// allowed, so every design with at least as many rows as columns gets its QR
/// solver; Cholesky is planned for every shape; the reserved and iterative
/// methods are never planned.
pub proof fn lemma_least_squares_plan_rules(
    method: ApproximationMethod,
    nrows: usize,
    ncols: usize,
    singular_ok: bool,
)
    ensures
        method == ApproximationMethod::ClosedForm(ClosedFormSolver::ColPivQr) && (nrows >= ncols
            || singular_ok) ==> least_squares_plan(method, nrows, ncols, singular_ok) == Ok::<
            LeastSquaresSolver,
            ModelError,
        >(LeastSquaresSolver::ColPivQr),
        method == ApproximationMethod::ClosedForm(ClosedFormSolver::QrHouseholder) && (nrows
            >= ncols || singular_ok) ==> least_squares_plan(method, nrows, ncols, singular_ok)
            == Ok::<LeastSquaresSolver, ModelError>(LeastSquaresSolver::QrHouseholder),
        method == ApproximationMethod::ClosedForm(ClosedFormSolver::Cholesky) ==> least_squares_plan(
            method,
            nrows,
            ncols,
            singular_ok,
        ) == Ok::<LeastSquaresSolver, ModelError>(LeastSquaresSolver::Cholesky),
        least_squares_plan(method, nrows, ncols, singular_ok) is Err && (method
            == ApproximationMethod::ClosedForm(ClosedFormSolver::ColPivQr) || method
            == ApproximationMethod::ClosedForm(ClosedFormSolver::QrHouseholder)) ==> nrows < ncols
            && !singular_ok,
        least_squares_plan(method, nrows, ncols, singular_ok) matches Ok(s) ==> method
            == ApproximationMethod::ClosedForm(
            match s {
                LeastSquaresSolver::QrHouseholder => ClosedFormSolver::QrHouseholder,
                LeastSquaresSolver::ColPivQr => ClosedFormSolver::ColPivQr,
                LeastSquaresSolver::Cholesky => ClosedFormSolver::Cholesky,
            },
        ),
        singular_ok ==> (least_squares_plan(method, nrows, ncols, true) is Ok <==> (method
            is ClosedForm && method != ApproximationMethod::ClosedForm(ClosedFormSolver::Dqrls)
            && method != ApproximationMethod::ClosedForm(ClosedFormSolver::Svd))),
        least_squares_plan(method, nrows, ncols, false) is Ok ==> least_squares_plan(
            method,
            nrows,
            ncols,
            true,
        ) == least_squares_plan(method, nrows, ncols, false),
{
}

/// A response given with matrix dimensions is read in exactly those
/// dimensions; a plain vector is read as one column of all its values.
pub proof fn lemma_response_shape(len: nat, dims: Option<(usize, usize)>)
    ensures
        dims matches Some((nr, nc)) ==> response_shape(len, dims) == (nr as nat, nc as nat),
        dims is None ==> response_shape(len, dims) == (len, 1nat),
{
}

/// The closed-form solvers that a linear model runs.
#[derive(Debug, Clone, Copy, PartialEq, Eq, Structural)]
pub enum LeastSquaresSolver {
    QrHouseholder,
    ColPivQr,
    Cholesky,
}

/// The solver that a linear fit of an `nrows x ncols` design runs with the
/// given method, or why it runs none.
pub open spec fn least_squares_plan(
    method: ApproximationMethod,
    nrows: usize,
    ncols: usize,
    singular_ok: bool,
) -> Result<LeastSquaresSolver, ModelError> {
    match method {
        ApproximationMethod::ClosedForm(ClosedFormSolver::QrHouseholder) => if nrows < ncols
            && !singular_ok {
            Err(ModelError::UnderdeterminedQr { pivoted: false, nrows, ncols })
        } else {
            Ok(LeastSquaresSolver::QrHouseholder)
        },
        ApproximationMethod::ClosedForm(ClosedFormSolver::ColPivQr) => if nrows < ncols
            && !singular_ok {
            Err(ModelError::UnderdeterminedQr { pivoted: true, nrows, ncols })
        } else {
            Ok(LeastSquaresSolver::ColPivQr)
        },
        ApproximationMethod::ClosedForm(ClosedFormSolver::Cholesky) => Ok(
            LeastSquaresSolver::Cholesky,
        ),
        ApproximationMethod::ClosedForm(ClosedFormSolver::Dqrls) => Err(
            ModelError::DqrlsNotImplemented,
        ),
        ApproximationMethod::ClosedForm(ClosedFormSolver::Svd) => Err(
            ModelError::SvdNotImplemented,
        ),
        ApproximationMethod::Optimization(_) => Err(ModelError::ClosedFormRequired),
    }
}

/// Chooses the solver of a linear fit, refusing methods that are reserved or
/// not closed-form, and (unless singular fits are allowed) QR problems with
/// fewer rows than columns.
pub fn plan_least_squares(
    method: ApproximationMethod,
    nrows: usize,
    ncols: usize,
    singular_ok: bool,
) -> (r: Result<LeastSquaresSolver, ModelError>)
    ensures
        r == least_squares_plan(method, nrows, ncols, singular_ok),
        method == ApproximationMethod::ClosedForm(ClosedFormSolver::ColPivQr) ==> (nrows >= ncols
            || singular_ok ==> r == Ok::<LeastSquaresSolver, ModelError>(
            LeastSquaresSolver::ColPivQr,
        )) && (nrows < ncols && !singular_ok ==> r == Err::<LeastSquaresSolver, ModelError>(
            ModelError::UnderdeterminedQr { pivoted: true, nrows, ncols },
        )),
        method == ApproximationMethod::ClosedForm(ClosedFormSolver::QrHouseholder) ==> (nrows
            >= ncols || singular_ok ==> r == Ok::<LeastSquaresSolver, ModelError>(
            LeastSquaresSolver::QrHouseholder,
        )) && (nrows < ncols && !singular_ok ==> r == Err::<LeastSquaresSolver, ModelError>(
            ModelError::UnderdeterminedQr { pivoted: false, nrows, ncols },
        )),
        method == ApproximationMethod::ClosedForm(ClosedFormSolver::Cholesky) ==> r == Ok::<
            LeastSquaresSolver,
            ModelError,
        >(LeastSquaresSolver::Cholesky),
        method == ApproximationMethod::ClosedForm(ClosedFormSolver::Dqrls) ==> r == Err::<
            LeastSquaresSolver,
            ModelError,
        >(ModelError::DqrlsNotImplemented),
        method == ApproximationMethod::ClosedForm(ClosedFormSolver::Svd) ==> r == Err::<
            LeastSquaresSolver,
            ModelError,
        >(ModelError::SvdNotImplemented),
        method is Optimization ==> r == Err::<LeastSquaresSolver, ModelError>(
            ModelError::ClosedFormRequired,
        ),
{
    match method {
        ApproximationMethod::ClosedForm(ClosedFormSolver::QrHouseholder) => {
            if nrows < ncols && !singular_ok {
                Err(ModelError::UnderdeterminedQr { pivoted: false, nrows, ncols })
            } else {
                Ok(LeastSquaresSolver::QrHouseholder)
            }
        },
        ApproximationMethod::ClosedForm(ClosedFormSolver::ColPivQr) => {
            if nrows < ncols && !singular_ok {
                Err(ModelError::UnderdeterminedQr { pivoted: true, nrows, ncols })
            } else {
                Ok(LeastSquaresSolver::ColPivQr)
            }
        },
        ApproximationMethod::ClosedForm(ClosedFormSolver::Cholesky) => Ok(
            LeastSquaresSolver::Cholesky,
        ),
        ApproximationMethod::ClosedForm(ClosedFormSolver::Dqrls) => Err(
            ModelError::DqrlsNotImplemented,
        ),
        ApproximationMethod::ClosedForm(ClosedFormSolver::Svd) => Err(
            ModelError::SvdNotImplemented,
        ),
        ApproximationMethod::Optimization(_) => Err(ModelError::ClosedFormRequired),
    }
}

/// Refuses a column-pivoted fit whose estimated rank is below the number of
/// columns, unless singular fits are allowed.
pub fn check_estimated_rank(rank: usize, ncols: usize, singular_ok: bool) -> (r: Result<
    (),
    ModelError,
>)
    ensures
        rank < ncols && !singular_ok ==> r == Err::<(), ModelError>(
            ModelError::SingularFit { rank, ncols },
        ),
        !(rank < ncols && !singular_ok) ==> r is Ok,
{
    if rank < ncols && !singular_ok {
        Err(ModelError::SingularFit { rank, ncols })
    } else {
        Ok(())
    }
}

/// What a least-squares solve reports besides its coefficients.
#[derive(Debug)]
pub struct LeastSquaresSummary {
    /// The rank that the fit is taken to have.
    pub rank: usize,
    /// Whether some columns were left undetermined by pivoting.
    pub pivoted: bool,
    /// Whether the solver yields the effects Q'y.
    pub has_effects: bool,
    /// The solver's name.
    pub method: &'static str,
}

/// The rank, pivoting, effects and name that a solver reports for a design
/// with `ncols` columns. Only the column-pivoted QR estimates the rank (as
/// `estimated_rank`); the others take the design to be of full column rank.
pub fn summarize_least_squares(
    solver: LeastSquaresSolver,
    ncols: usize,
    estimated_rank: usize,
) -> (s: LeastSquaresSummary)
    ensures
        solver == LeastSquaresSolver::QrHouseholder ==> s.rank == ncols && !s.pivoted
            && s.has_effects && s.method@ == "householder_qr"@,
        solver == LeastSquaresSolver::ColPivQr ==> s.rank == estimated_rank && s.pivoted == (
        estimated_rank < ncols) && s.has_effects && s.method@ == "col_piv_qr"@,
        solver == LeastSquaresSolver::Cholesky ==> s.rank == ncols && !s.pivoted
            && !s.has_effects && s.method@ == "cholesky"@,
{
    match solver {
        LeastSquaresSolver::QrHouseholder => LeastSquaresSummary {
            rank: ncols,
            pivoted: false,
            has_effects: true,
            method: "householder_qr",
        },
        LeastSquaresSolver::ColPivQr => LeastSquaresSummary {
            rank: estimated_rank,
            pivoted: estimated_rank < ncols,
            has_effects: true,
            method: "col_piv_qr",
        },
        LeastSquaresSolver::Cholesky => LeastSquaresSummary {
            rank: ncols,
            pivoted: false,
            has_effects: false,
            method: "cholesky",
        },
    }
}

/// The column permutation of a pivoted QR, as a vector of 0-based columns.
pub fn permutation_forward_to_usize_vec(forward: &[usize]) -> (v: Vec<usize>)
    ensures
        v@ == forward@,
{
    copy_slice(forward)
}

/// The coefficients of all responses, one response after another: entry
/// (j, c) of the `p x r` coefficient matrix is at position `c * p + j`.
pub fn coefficients_from_beta<T: Copy>(beta: &DenseMatrix<T>) -> (v: Vec<T>)
    ensures
        v@ == beta.values(),
        v@.len() == beta.rows() * beta.cols(),
{
    beta.to_column_major_vec()
}

/// Whether coefficient `j` of a fit with `p` columns and rank `rank` is left
/// undetermined (aliased). With a column permutation of length `p`, the
/// aliased coefficients are the columns that the permutation puts at
/// positions `rank..p`; without one, they are the columns `rank..p`
/// themselves. A fit of full rank aliases nothing.
pub open spec fn is_aliased(j: int, p: int, rank: int, pivot: Option<Seq<usize>>) -> bool {
    rank < p && if pivot is Some && pivot->0.len() == p {
        exists|k: int| rank <= k < p && #[trigger] pivot->0[k] == j
    } else {
        rank <= j
    }
}

/// The pivot slice, seen as a sequence.
pub open spec fn pivot_view(pivot: Option<&[usize]>) -> Option<Seq<usize>> {
    match pivot {
        Some(s) => Some(s@),
        None => None,
    }
}

/// For each column j < p, whether it is aliased.
fn aliased_columns(p: usize, rank: usize, pivot: Option<&[usize]>) -> (mask: Vec<bool>)
    ensures
        mask@.len() == p,
        forall|j: int|
            0 <= j < p ==> #[trigger] mask@[j] == is_aliased(j, p as int, rank as int, pivot_view(pivot)),
{
    let mut mask: Vec<bool> = Vec::new();
    let mut j: usize = 0;
    while j < p
        invariant
            j <= p,
            mask@ == Seq::new(j as nat, |t: int| false),
        decreases p - j,
    {
        mask.push(false);
        j = j + 1;
        assert(mask@ =~= Seq::new(j as nat, |t: int| false));
    }
    if rank >= p {
        return mask;
    }
    match pivot {
        Some(pv) if pv.len() == p => {
            let mut k: usize = rank;
            while k < p
                invariant
                    rank <= k <= p,
                    pv@.len() == p,
                    mask@.len() == p,
                    forall|j: int|
                        0 <= j < p ==> #[trigger] mask@[j] == exists|kk: int|
                            rank <= kk < k && #[trigger] pv@[kk] == j,
                decreases p - k,
            {
                let col = pv[k];
                if col < p {
                    mask.set(col, true);
                }
                proof {
                    assert forall|j: int| 0 <= j < p implies #[trigger] mask@[j] == exists|kk: int|
                        rank <= kk < k + 1 && #[trigger] pv@[kk] == j by {
                        if pv@[k as int] == j {
                            assert(rank <= k < k + 1 && pv@[k as int] == j);
                        }
                        if exists|kk: int| rank <= kk < k + 1 && #[trigger] pv@[kk] == j {
                            let kk = choose|kk: int| rank <= kk < k + 1 && #[trigger] pv@[kk] == j;
                            if kk < k {
                                assert(rank <= kk < k && pv@[kk] == j);
                            }
                        }
                    }
                }
                k = k + 1;
            }
        },
        _ => {
            let mut k: usize = rank;
            while k < p
                invariant
                    rank <= k <= p,
                    mask@.len() == p,
                    forall|j: int| 0 <= j < p ==> #[trigger] mask@[j] == (rank <= j < k),
                decreases p - k,
            {
                mask.set(k, true);
                k = k + 1;
            }
        },
    }
    mask
}

/// The coefficients `values` of all responses (one response after another,
/// `p` per response) with every aliased coefficient replaced by `alias`.
pub open spec fn aliased_coefficients<T>(
    values: Seq<T>,
    p: int,
    rank: int,
    pivot: Option<Seq<usize>>,
    alias: T,
) -> Seq<T> {
    Seq::new(
        values.len(),
        |t: int|
            if is_aliased(t % p, p, rank, pivot) {
                alias
            } else {
                values[t]
            },
    )
}

/// The coefficients of all responses, one response after another, with every
/// aliased coefficient replaced by `alias` (a missing value). Entry (j, c) of
/// the `p x r` matrix `beta` is at position `c * p + j`.
pub fn coefficients_from_beta_with_pivot_aliases<T: Copy>(
    beta: &DenseMatrix<T>,
    rank: usize,
    pivot: Option<&[usize]>,
    alias: T,
) -> (v: Vec<T>)
    ensures
        v@.len() == beta.rows() * beta.cols(),
        forall|j: int, c: int|
            0 <= j < beta.rows() && 0 <= c < beta.cols() ==> #[trigger] v@[col_major_index(
                j,
                c,
                beta.rows() as int,
            )] == if is_aliased(j, beta.rows() as int, rank as int, pivot_view(pivot)) {
                alias
            } else {
                beta.at(j, c)
            },
        v@ == aliased_coefficients(beta.values(), beta.rows() as int, rank as int, pivot_view(pivot), alias),
        rank >= beta.rows() ==> v@ == beta.values(),
        pivot is None ==> forall|j: int, c: int|
            0 <= j < beta.rows() && 0 <= c < beta.cols() ==> #[trigger] v@[col_major_index(
                j,
                c,
                beta.rows() as int,
            )] == if rank <= j {
                alias
            } else {
                beta.at(j, c)
            },
        pivot matches Some(pv) ==> (pv@.len() != beta.rows() ==> forall|j: int, c: int|
            0 <= j < beta.rows() && 0 <= c < beta.cols() ==> #[trigger] v@[col_major_index(
                j,
                c,
                beta.rows() as int,
            )] == if rank <= j {
                alias
            } else {
                beta.at(j, c)
            }),
        pivot matches Some(pv) ==> (pv@.len() == beta.rows() ==> forall|j: int, c: int|
            0 <= j < beta.rows() && 0 <= c < beta.cols() ==> #[trigger] v@[col_major_index(
                j,
                c,
                beta.rows() as int,
            )] == if rank < beta.rows() && exists|k: int|
                rank <= k < beta.rows() && #[trigger] pv@[k] == j {
                alias
            } else {
                beta.at(j, c)
            }),
{
    let p = beta.nrows();
    let r = beta.ncols();
    let mask = aliased_columns(p, rank, pivot);
    let mut out: Vec<T> = Vec::new();
    let mut c: usize = 0;
    while c < r
        invariant
            p == beta.rows(),
            r == beta.cols(),
            mask@.len() == p,
            forall|j: int|
                0 <= j < p ==> #[trigger] mask@[j] == is_aliased(j, p as int, rank as int, pivot_view(pivot)),
            c <= r,
            out@.len() == c * p,
            forall|j: int, cc: int|
                0 <= j < p && 0 <= cc < c ==> #[trigger] out@[col_major_index(j, cc, p as int)]
                    == if mask@[j] {
                    alias
                } else {
                    beta.at(j, cc)
                },
        decreases r - c,
    {
        let ghost before = out@;
        let mut j: usize = 0;
        while j < p
            invariant
                p == beta.rows(),
                r == beta.cols(),
                mask@.len() == p,
                c < r,
                j <= p,
                before.len() == c * p,
                out@.len() == c * p + j,
                forall|t: int| 0 <= t < before.len() ==> out@[t] == before[t],
                forall|jj: int|
                    0 <= jj < j ==> #[trigger] out@[c * p + jj] == if mask@[jj] {
                        alias
                    } else {
                        beta.at(jj, c as int)
                    },
            decreases p - j,
        {
            if mask[j] {
                out.push(alias);
            } else {
                out.push(*beta.get(j, c));
            }
            j = j + 1;
        }
        proof {
            crate::common::matrix::lemma_next_column(c as int, p as int);
            assert forall|jj: int, cc: int|
                0 <= jj < p && 0 <= cc < c + 1 implies #[trigger] out@[col_major_index(
                jj,
                cc,
                p as int,
            )] == if mask@[jj] {
                alias
            } else {
                beta.at(jj, cc)
            } by {
                if cc < c {
                    crate::common::matrix::lemma_col_major_index(jj, cc, p as int, c as int);
                    assert(p * c == c * p) by (nonlinear_arith);
                    assert(out@[col_major_index(jj, cc, p as int)] == before[col_major_index(
                        jj,
                        cc,
                        p as int,
                    )]);
                } else {
                    assert(out@[c * p + jj] == if mask@[jj] {
                        alias
                    } else {
                        beta.at(jj, c as int)
                    });
                }
            }
        }
        c = c + 1;
    }
    proof {
        assert(c * p == p * c) by (nonlinear_arith);
        let spec_v = aliased_coefficients(beta.values(), p as int, rank as int, pivot_view(pivot), alias);
        assert(beta.values().len() == p * r);
        assert forall|t: int| 0 <= t < out@.len() implies out@[t] == spec_v[t] by {
            crate::common::matrix::lemma_position_decomposes(t, p as int, r as int);
            let jj = t % (p as int);
            let cc = t / (p as int);
            assert(out@[col_major_index(jj, cc, p as int)] == if mask@[jj] {
                alias
            } else {
                beta.at(jj, cc)
            });
        }
        assert(out@ =~= spec_v);
        if rank >= p {
            lemma_full_rank_aliases_nothing(beta.values(), p as int, rank as int, pivot_view(pivot), alias);
        }
    }
    out
}

/// A fit of full rank (rank at least the number of columns) leaves every
/// coefficient as estimated.
pub proof fn lemma_full_rank_aliases_nothing<T>(
    values: Seq<T>,
    p: int,
    rank: int,
    pivot: Option<Seq<usize>>,
    alias: T,
)
    requires
        rank >= p,
    ensures
        aliased_coefficients(values, p, rank, pivot, alias) == values,
{
    assert(aliased_coefficients(values, p, rank, pivot, alias) =~= values);
}

/// The columns of a fit with `p` columns and rank `rank` that are aliased.
pub open spec fn aliased_column_set(p: int, rank: int, pivot: Option<Seq<usize>>) -> Set<int> {
    Set::new(|j: int| 0 <= j < p && is_aliased(j, p, rank, pivot))
}

/// Whether `pv` is a permutation of the columns `0..p`.
pub open spec fn is_column_permutation(pv: Seq<usize>, p: int) -> bool {
    &&& pv.len() == p
    &&& forall|k: int| 0 <= k < p ==> #[trigger] pv[k] < p
    &&& forall|k1: int, k2: int| 0 <= k1 < p && 0 <= k2 < p && k1 != k2 ==> pv[k1] != pv[k2]
}

/// A rank-deficient fit leaves exactly `p - rank` coefficients of each
/// response undetermined, whether its columns were permuted or not; a fit of
/// full rank leaves none.
pub proof fn lemma_aliased_count(p: nat, rank: nat, pivot: Option<Seq<usize>>)
    requires
        pivot matches Some(pv) ==> is_column_permutation(pv, p as int),
    ensures
        aliased_column_set(p as int, rank as int, pivot).finite(),
        aliased_column_set(p as int, rank as int, pivot).len() == if rank < p {
            (p - rank) as nat
        } else {
            0
        },
{
    let set = aliased_column_set(p as int, rank as int, pivot);
    if rank >= p {
        assert(set =~= Set::<int>::empty());
    } else {
        vstd::set_lib::lemma_int_range(rank as int, p as int);
        let range = vstd::set_lib::set_int_range(rank as int, p as int);
        match pivot {
            Some(pv) => {
                let f = |k: int| pv[k] as int;
                assert(vstd::relations::injective_on(f, range)) by {
                    assert forall|k1: int, k2: int|
                        range.contains(k1) && range.contains(k2) && #[trigger] f(k1) == #[trigger] f(
                            k2,
                        ) implies k1 == k2 by {
                        if k1 != k2 {
                            assert(pv[k1] != pv[k2]);
                        }
                    }
                }
                assert forall|j: int| #[trigger] set.contains(j) <==> range.map(f).contains(j) by {
                    if set.contains(j) {
                        let k = choose|k: int| rank <= k < p && #[trigger] pv[k] == j;
                        assert(range.contains(k) && f(k) == j);
                    }
                    if range.map(f).contains(j) {
                        let k = choose|k: int| range.contains(k) && f(k) == j;
                        assert(rank <= k < p && pv[k] == j);
                        assert(pv[k] < p);
                    }
                }
                assert(set =~= range.map(f));
                vstd::set_lib::lemma_map_size(range, set, f);
            },
            None => {
                assert(set =~= range);
            },
        }
    }
}

/// The column permutation with 1-based columns, as R numbers them; empty
/// where there is none.
pub fn pivot_1based_or_empty(pivot: Option<&[usize]>) -> (v: Vec<i32>)
    requires
        pivot matches Some(pv) ==> forall|k: int| 0 <= k < pv@.len() ==> pv@[k] < usize::MAX,
    ensures
        pivot is None ==> v@.len() == 0,
        pivot matches Some(pv) ==> v@.len() == pv@.len() && forall|k: int|
            0 <= k < pv@.len() ==> #[trigger] v@[k] == (pv@[k] + 1) as i32,
{
    let mut v: Vec<i32> = Vec::new();
    match pivot {
        None => {},
        Some(pv) => {
            let mut k: usize = 0;
            while k < pv.len()
                invariant
                    k <= pv@.len(),
                    forall|t: int| 0 <= t < pv@.len() ==> pv@[t] < usize::MAX,
                    v@.len() == k,
                    forall|t: int| 0 <= t < k ==> #[trigger] v@[t] == (pv@[t] + 1) as i32,
                decreases pv@.len() - k,
            {
                v.push((pv[k] + 1) as i32);
                k = k + 1;
            }
        },
    }
    v
}

/// The number of set flags.
pub open spec fn count_set(flags: Seq<bool>) -> nat
    decreases flags.len(),
{
    if flags.len() == 0 {
        0
    } else {
        count_set(flags.drop_last()) + if flags.last() {
            1nat
        } else {
            0nat
        }
    }
}

/// The rows whose flag is set, in increasing order: the observations that a
/// weighted fit keeps (those of non-zero weight).
pub fn nonzero_rows(nonzero: &[bool]) -> (rows: Vec<usize>)
    ensures
        rows@.len() == count_set(nonzero@),
        forall|k: int| 0 <= k < rows@.len() ==> #[trigger] rows@[k] < nonzero@.len() && nonzero@[rows@[k] as int],
        forall|k1: int, k2: int| 0 <= k1 < k2 < rows@.len() ==> rows@[k1] < rows@[k2],
        forall|t: int| 0 <= t < nonzero@.len() && #[trigger] nonzero@[t] ==> rows@.contains(t as usize),
{
    let mut rows: Vec<usize> = Vec::new();
    let mut t: usize = 0;
    while t < nonzero.len()
        invariant
            t <= nonzero@.len(),
            forall|k: int| 0 <= k < rows@.len() ==> #[trigger] rows@[k] < t && nonzero@[rows@[k] as int],
            forall|k1: int, k2: int| 0 <= k1 < k2 < rows@.len() ==> rows@[k1] < rows@[k2],
            forall|u: int| 0 <= u < t && #[trigger] nonzero@[u] ==> rows@.contains(u as usize),
            rows@.len() == count_set(nonzero@.subrange(0, t as int)),
        decreases nonzero@.len() - t,
    {
        assert(nonzero@.subrange(0, t + 1).drop_last() =~= nonzero@.subrange(0, t as int));
        if nonzero[t] {
            let ghost before = rows@;
            rows.push(t);
            proof {
                assert forall|u: int| 0 <= u < t + 1 && #[trigger] nonzero@[u] implies rows@.contains(
                    u as usize,
                ) by {
                    if u < t {
                        let k = choose|k: int| 0 <= k < before.len() && before[k] == u as usize;
                        assert(rows@[k] == u as usize);
                    } else {
                        assert(rows@[before.len() as int] == u as usize);
                    }
                }
            }
        }
        t = t + 1;
    }
    assert(nonzero@.subrange(0, nonzero@.len() as int) =~= nonzero@);
    rows
}

/// The entries of `v` at the given positions, in the given order.
pub fn select_entries<T: Copy>(v: &[T], positions: &[usize]) -> (out: Vec<T>)
    requires
        forall|k: int| 0 <= k < positions@.len() ==> positions@[k] < v@.len(),
    ensures
        out@.len() == positions@.len(),
        forall|k: int| 0 <= k < positions@.len() ==> #[trigger] out@[k] == v@[positions@[k] as int],
{
    let mut out: Vec<T> = Vec::new();
    let mut k: usize = 0;
    while k < positions.len()
        invariant
            k <= positions@.len(),
            forall|t: int| 0 <= t < positions@.len() ==> positions@[t] < v@.len(),
            out@.len() == k,
            forall|t: int| 0 <= t < k ==> #[trigger] out@[t] == v@[positions@[t] as int],
        decreases positions@.len() - k,
    {
        out.push(v[positions[k]]);
        k = k + 1;
    }
    out
}

/// The residual degrees of freedom: the observations used less the rank,
/// and zero where the rank is not below them.
pub fn residual_degrees_of_freedom(n_used: usize, rank: usize) -> (df: usize)
    ensures
        df == if rank <= n_used {
            (n_used - rank) as usize
        } else {
            0
        },
{
    n_used.saturating_sub(rank)
}

/// Refuses a request for standard errors that the fit cannot give yet: with
/// several responses, or with a rank below the number of columns.
pub fn check_standard_errors(calc_se: bool, n_responses: usize, rank: usize, ncols: usize) -> (r:
    Result<(), ModelError>)
    ensures
        calc_se && n_responses != 1 ==> r == Err::<(), ModelError>(
            ModelError::MultiResponseStandardErrors,
        ),
        calc_se && n_responses == 1 && rank < ncols ==> r == Err::<(), ModelError>(
            ModelError::RankDeficientStandardErrors,
        ),
        !calc_se || (n_responses == 1 && rank >= ncols) ==> r is Ok,
{
    if calc_se && n_responses != 1 {
        return Err(ModelError::MultiResponseStandardErrors);
    }
    if calc_se && rank < ncols {
        return Err(ModelError::RankDeficientStandardErrors);
    }
    Ok(())
}

/// The ways through a linear fit.
#[derive(Debug, Clone, Copy, PartialEq, Eq, Structural)]
pub enum LmRoute {
    /// Unweighted, without offset or standard errors: the inputs are viewed in
    /// place.
    ViewFastPath,
    /// Weighted with some zero weight: the rows of zero weight are dropped
    /// before solving.
    ZeroWeightCore,
    /// Every other fit.
    Core,
}

/// The way through a linear fit: an unweighted fit without offset that asks
/// for no standard errors reads its inputs in place; a weighted fit with a
/// zero weight drops those rows first; every other fit takes the general way.
pub fn fit_route(weighted: bool, offset_is_null: bool, calc_se: bool, has_zero_weight: bool) -> (r:
    LmRoute)
    ensures
        !weighted && offset_is_null && !calc_se ==> r == LmRoute::ViewFastPath,
        !weighted && !(offset_is_null && !calc_se) ==> r == LmRoute::Core,
        weighted && has_zero_weight ==> r == LmRoute::ZeroWeightCore,
        weighted && !has_zero_weight ==> r == LmRoute::Core,
{
    if weighted {
        if has_zero_weight {
            LmRoute::ZeroWeightCore
        } else {
            LmRoute::Core
        }
    } else if offset_is_null && !calc_se {
        LmRoute::ViewFastPath
    } else {
        LmRoute::Core
    }
}

/// The number of observations that weights are made for: the design's rows
/// where it is a matrix, else the length of the response.
pub fn observation_count(x_dims: Option<(usize, usize)>, y_len: usize) -> (n: usize)
    ensures
        n == match x_dims {
            Some((nr, _)) => nr,
            None => y_len,
        },
{
    match x_dims {
        Some((nr, _)) => nr,
        None => y_len,
    }
}

} // verus!
