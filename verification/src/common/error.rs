use vstd::prelude::*;

verus! {

/// The slots of a compressed sparse column (dgCMatrix) object.
#[derive(Debug, Clone, Copy, PartialEq, Eq, Structural)]
pub enum SparseSlot {
    /// Column pointers.
    P,
    /// Row indices.
    I,
    /// Non-zero values.
    X,
}

/// Every way in which reading options or inputs, or checking a fit request,
/// can be refused. Each variant names the rule that was broken and carries the
/// values that the rule was checked on; `role` names the input concerned.
#[derive(Debug, PartialEq, Eq)]
pub enum ModelError {
    /// The estimation target is not one of OLS, LS, WLS, MLE (ML) or REML.
    UnknownPet,
    /// The approximation method is not one of the known names.
    UnknownMethod,
    /// The link is not one of identity, log, logit or inverse.
    UnknownLink,
    /// The family is not one of gaussian, poisson, binomial, nb or tweedie.
    UnknownFamily,
    /// A dense matrix whose values are not real numbers.
    DenseNotReal,
    /// A dense matrix whose number of values differs from rows times columns.
    DenseLengthMismatch { len: usize, nrows: usize, ncols: usize },
    /// A sparse matrix without a usable slot.
    MissingSparseSlot { slot: SparseSlot },
    /// A sparse matrix given where a dense one is needed.
    SparseNotSupported { role: String },
    /// An object that is neither a dense nor a sparse numeric matrix.
    NotDenseMatrix { role: String },
    /// An object that is not a numeric vector.
    NotNumericVector { role: String },
    /// A vector whose length is not a multiple of the requested column count
    /// (or a column count of zero).
    IncompatibleDefaultNcols { role: String, len: usize, default_ncols: usize },
    /// Values whose number differs from the rows times columns they are read as.
    ShapeLengthMismatch { role: String, len: usize, nrows: usize, ncols: usize },
    /// A vector of the wrong length.
    VectorLengthMismatch { role: String, len: usize, expected: usize },
    /// An object without matrix dimensions where a matrix is needed.
    NotNumericMatrix { role: String },
    /// A matrix whose values are not double-precision numbers.
    NotDoubleMatrix { role: String },
    /// A response whose values are not double-precision numbers.
    NotDoubleVectorOrMatrix { role: String },
    /// Values whose number differs from the rows times columns of the matrix
    /// they belong to.
    ExpectedLengthMismatch { role: String, len: usize, nrows: usize, ncols: usize },
    /// A matrix with another number of rows than required.
    RowCountMismatch { role: String, nrows: usize, expected: usize },
    /// A linear-model estimation target other than OLS or LS (and, when the
    /// fit is weighted, WLS).
    LmPetUnsupported { weighted: bool },
    /// A design matrix without rows.
    NoCases,
    /// Design and response with different numbers of rows.
    RowMismatch { x_rows: usize, y_rows: usize },
    /// A weight vector of the wrong length.
    WeightsLengthMismatch { len: usize, expected: usize },
    /// A QR least-squares problem with fewer rows than columns while singular
    /// fits are not allowed.
    UnderdeterminedQr { pivoted: bool, nrows: usize, ncols: usize },
    /// A column-pivoted QR whose estimated rank is below the column count while
    /// singular fits are not allowed.
    SingularFit { rank: usize, ncols: usize },
    /// The method names the R-style QR backend, which is reserved.
    DqrlsNotImplemented,
    /// The method names the SVD solver, which is not available.
    SvdNotImplemented,
    /// A linear model asked for with an iterative method.
    ClosedFormRequired,
    /// Standard errors asked for with more than one response.
    MultiResponseStandardErrors,
    /// Standard errors asked for on a rank-deficient fit.
    RankDeficientStandardErrors,
    /// A generalized linear model with a target other than MLE.
    GlmPetUnsupported,
    /// A generalized linear model with a method other than Fisher scoring.
    GlmMethodUnsupported,
    /// A generalized linear model whose response is not one column with as
    /// many rows as the design.
    GlmDimensionMismatch { n: usize, y_rows: usize, y_cols: usize },
    /// An iteration budget that is not positive.
    MaxIterNotPositive,
    /// A variance-component model with a target other than MLE or REML.
    VcmPetUnsupported,
    /// A variance-component model with more than one response.
    VcmMultivariateResponse,
    /// Response, design and random-effect design with different numbers of rows.
    VcmDimensionMismatch { y_rows: usize, x_rows: usize, z_rows: usize },
    /// A variance-component model with a method other than MM.
    VcmMethodUnsupported,
    /// A multivariate model whose design and response differ in rows.
    MvcmDimensionMismatch { x_rows: usize, y_rows: usize },
}

} // verus!
