use mrvcr::common::error::ModelError;
use mrvcr::common::matrix::DenseMatrix;
use mrvcr::common::method::{ApproximationMethod, ClosedFormSolver, NumericalOptimizer};
use mrvcr::common::pet::Pet;
use mrvcr::models::linear::lm::{
    check_estimated_rank, check_lm_pet, check_nonempty, check_rows, check_standard_errors,
    check_weights_length, coefficients_from_beta, coefficients_from_beta_with_pivot_aliases,
    dense_matrix_ref_from_robj, fit_route, nonzero_rows, observation_count,
    permutation_forward_to_usize_vec, pivot_1based_or_empty, plan_least_squares,
    residual_degrees_of_freedom, response_matrix_from_robj, response_matrix_ref_from_robj,
    select_entries, summarize_least_squares, LeastSquaresSolver, LmRoute,
};

#[test]
fn lm_pet_rules() {
    assert_eq!(check_lm_pet(Pet::Ols, false), Ok(()));
    assert_eq!(check_lm_pet(Pet::Ls, false), Ok(()));
    assert_eq!(check_lm_pet(Pet::Wls, false), Err(ModelError::LmPetUnsupported { weighted: false }));
    assert_eq!(check_lm_pet(Pet::Wls, true), Ok(()));
    assert_eq!(check_lm_pet(Pet::Mle, true), Err(ModelError::LmPetUnsupported { weighted: true }));
    assert_eq!(check_lm_pet(Pet::Reml, false), Err(ModelError::LmPetUnsupported { weighted: false }));
}

#[test]
fn row_checks() {
    assert_eq!(check_nonempty(0), Err(ModelError::NoCases));
    assert_eq!(check_nonempty(5), Ok(()));
    assert_eq!(check_rows(4, 3), Err(ModelError::RowMismatch { x_rows: 4, y_rows: 3 }));
    assert_eq!(check_rows(4, 4), Ok(()));
    assert_eq!(check_weights_length(3, 4), Err(ModelError::WeightsLengthMismatch { len: 3, expected: 4 }));
    assert_eq!(check_weights_length(4, 4), Ok(()));
}

#[test]
fn design_view_checks() {
    let values = [1.0, 2.0, 3.0, 4.0];
    let v = dense_matrix_ref_from_robj(Some((2, 2)), Some(&values[..]), "x").unwrap();
    assert_eq!(*v.get(1, 0), 2.0);
    assert_eq!(
        dense_matrix_ref_from_robj::<f64>(None, Some(&values[..]), "x").unwrap_err(),
        ModelError::NotNumericMatrix { role: "x".to_string() }
    );
    assert_eq!(
        dense_matrix_ref_from_robj::<f64>(Some((2, 2)), None, "x").unwrap_err(),
        ModelError::NotDoubleMatrix { role: "x".to_string() }
    );
    assert_eq!(
        dense_matrix_ref_from_robj(Some((3, 2)), Some(&values[..]), "x").unwrap_err(),
        ModelError::ExpectedLengthMismatch { role: "x".to_string(), len: 4, nrows: 3, ncols: 2 }
    );
}

#[test]
fn response_reading() {
    let values = [1.0, 2.0, 3.0];
    let y = response_matrix_from_robj(None, Some(&values[..]), "y").unwrap();
    assert_eq!((y.nrows(), y.ncols()), (3, 1));
    let y = response_matrix_from_robj(Some((1, 3)), Some(&values[..]), "y").unwrap();
    assert_eq!((y.nrows(), y.ncols()), (1, 3));
    assert_eq!(
        response_matrix_from_robj::<f64>(None, None, "y").unwrap_err(),
        ModelError::NotDoubleVectorOrMatrix { role: "y".to_string() }
    );
    assert_eq!(
        response_matrix_from_robj(Some((2, 2)), Some(&values[..]), "y").unwrap_err(),
        ModelError::ExpectedLengthMismatch { role: "y".to_string(), len: 3, nrows: 2, ncols: 2 }
    );
}

#[test]
fn response_view_checks_rows_first() {
    let values = [1.0, 2.0, 3.0, 4.0];
    let y = response_matrix_ref_from_robj(None, Some(&values[..]), 4, "y").unwrap();
    assert_eq!((y.nrows(), y.ncols()), (4, 1));
    let y = response_matrix_ref_from_robj(Some((2, 2)), Some(&values[..]), 2, "y").unwrap();
    assert_eq!(*y.get(1, 1), 4.0);
    assert_eq!(
        response_matrix_ref_from_robj(None, Some(&values[..]), 3, "y").unwrap_err(),
        ModelError::RowCountMismatch { role: "y".to_string(), nrows: 4, expected: 3 }
    );
    assert_eq!(
        response_matrix_ref_from_robj(Some((2, 3)), Some(&values[..]), 2, "y").unwrap_err(),
        ModelError::ExpectedLengthMismatch { role: "y".to_string(), len: 4, nrows: 2, ncols: 3 }
    );
    assert_eq!(
        response_matrix_ref_from_robj::<f64>(None, None, 2, "y").unwrap_err(),
        ModelError::NotDoubleVectorOrMatrix { role: "y".to_string() }
    );
}

#[test]
fn solver_plans() {
    let qr = ApproximationMethod::ClosedForm(ClosedFormSolver::QrHouseholder);
    let cp = ApproximationMethod::ClosedForm(ClosedFormSolver::ColPivQr);
    assert_eq!(plan_least_squares(qr, 5, 2, false), Ok(LeastSquaresSolver::QrHouseholder));
    assert_eq!(plan_least_squares(qr, 2, 5, false), Err(ModelError::UnderdeterminedQr { pivoted: false, nrows: 2, ncols: 5 }));
    assert_eq!(plan_least_squares(qr, 2, 5, true), Ok(LeastSquaresSolver::QrHouseholder));
    assert_eq!(plan_least_squares(cp, 2, 5, false), Err(ModelError::UnderdeterminedQr { pivoted: true, nrows: 2, ncols: 5 }));
    assert_eq!(plan_least_squares(cp, 5, 5, false), Ok(LeastSquaresSolver::ColPivQr));
    assert_eq!(
        plan_least_squares(ApproximationMethod::ClosedForm(ClosedFormSolver::Cholesky), 1, 9, false),
        Ok(LeastSquaresSolver::Cholesky)
    );
    assert_eq!(
        plan_least_squares(ApproximationMethod::ClosedForm(ClosedFormSolver::Dqrls), 5, 2, true),
        Err(ModelError::DqrlsNotImplemented)
    );
    assert_eq!(
        plan_least_squares(ApproximationMethod::ClosedForm(ClosedFormSolver::Svd), 5, 2, true),
        Err(ModelError::SvdNotImplemented)
    );
    assert_eq!(
        plan_least_squares(ApproximationMethod::Optimization(NumericalOptimizer::FisherScoring), 5, 2, true),
        Err(ModelError::ClosedFormRequired)
    );
}

#[test]
fn rank_and_summary() {
    assert_eq!(check_estimated_rank(2, 3, false), Err(ModelError::SingularFit { rank: 2, ncols: 3 }));
    assert_eq!(check_estimated_rank(2, 3, true), Ok(()));
    assert_eq!(check_estimated_rank(3, 3, false), Ok(()));

    let s = summarize_least_squares(LeastSquaresSolver::ColPivQr, 3, 2);
    assert_eq!((s.rank, s.pivoted, s.has_effects, s.method), (2, true, true, "col_piv_qr"));
    let s = summarize_least_squares(LeastSquaresSolver::ColPivQr, 3, 3);
    assert!(!s.pivoted);
    let s = summarize_least_squares(LeastSquaresSolver::QrHouseholder, 3, 0);
    assert_eq!((s.rank, s.pivoted, s.has_effects, s.method), (3, false, true, "householder_qr"));
    let s = summarize_least_squares(LeastSquaresSolver::Cholesky, 4, 0);
    assert_eq!((s.rank, s.pivoted, s.has_effects, s.method), (4, false, false, "cholesky"));
}

#[test]
fn coefficients_flatten_column_by_column() {
    let beta = DenseMatrix::from_column_major(vec![1.0, 2.0, 3.0, 4.0, 5.0, 6.0], 3, 2);
    assert_eq!(coefficients_from_beta(&beta), vec![1.0, 2.0, 3.0, 4.0, 5.0, 6.0]);
}

#[test]
fn pivot_aliases_follow_the_permutation() {
    let beta = DenseMatrix::from_column_major(vec![1.0, 2.0, 3.0, 4.0, 5.0, 6.0], 3, 2);
    let pivot = [2usize, 0, 1];
    let c = coefficients_from_beta_with_pivot_aliases(&beta, 2, Some(&pivot[..]), f64::NAN);
    assert_eq!(c.len(), 6);
    assert_eq!(c[0], 1.0);
    assert!(c[1].is_nan());
    assert_eq!(c[2], 3.0);
    assert_eq!(c[3], 4.0);
    assert!(c[4].is_nan());
    assert_eq!(c[5], 6.0);
    // Exactly p - rank coefficients of each response are aliased.
    assert_eq!(c.iter().filter(|v| v.is_nan()).count(), 2);
}

#[test]
fn pivot_aliases_without_permutation_take_trailing_columns() {
    let beta = DenseMatrix::from_column_major(vec![1, 2, 3, 4], 4, 1);
    assert_eq!(coefficients_from_beta_with_pivot_aliases(&beta, 2, None, -1), vec![1, 2, -1, -1]);
    // A pivot of the wrong length is ignored.
    let short = [3usize];
    assert_eq!(coefficients_from_beta_with_pivot_aliases(&beta, 3, Some(&short[..]), -1), vec![1, 2, 3, -1]);
    // A pivot entry outside the columns aliases nothing.
    let odd = [0usize, 1, 2, 9];
    assert_eq!(coefficients_from_beta_with_pivot_aliases(&beta, 3, Some(&odd[..]), -1), vec![1, 2, 3, 4]);
}

#[test]
fn full_rank_aliases_nothing() {
    let beta = DenseMatrix::from_column_major(vec![1, 2, 3, 4], 2, 2);
    let pivot = [1usize, 0];
    assert_eq!(coefficients_from_beta_with_pivot_aliases(&beta, 2, Some(&pivot[..]), 0), vec![1, 2, 3, 4]);
    assert_eq!(coefficients_from_beta_with_pivot_aliases(&beta, 5, None, 0), vec![1, 2, 3, 4]);
}

#[test]
fn pivots_are_reported_one_based() {
    let pivot = [2usize, 0, 1];
    assert_eq!(pivot_1based_or_empty(Some(&pivot[..])), vec![3, 1, 2]);
    assert_eq!(pivot_1based_or_empty(None), Vec::<i32>::new());
    assert_eq!(permutation_forward_to_usize_vec(&pivot), vec![2, 0, 1]);
}

#[test]
fn nonzero_rows_and_selection() {
    let flags = [true, false, false, true, true];
    let rows = nonzero_rows(&flags);
    assert_eq!(rows, vec![0, 3, 4]);
    assert_eq!(nonzero_rows(&[false, false]), Vec::<usize>::new());
    let weights = [0.5, 0.0, 0.0, 2.0, 1.0];
    assert_eq!(select_entries(&weights, &rows), vec![0.5, 2.0, 1.0]);
}

#[test]
fn degrees_of_freedom() {
    assert_eq!(residual_degrees_of_freedom(10, 3), 7);
    assert_eq!(residual_degrees_of_freedom(3, 3), 0);
    assert_eq!(residual_degrees_of_freedom(2, 3), 0);
    assert_eq!(residual_degrees_of_freedom(10, 3) + 3, 10);
}

#[test]
fn standard_error_requests() {
    assert_eq!(check_standard_errors(false, 3, 0, 5), Ok(()));
    assert_eq!(check_standard_errors(true, 2, 5, 5), Err(ModelError::MultiResponseStandardErrors));
    assert_eq!(check_standard_errors(true, 1, 4, 5), Err(ModelError::RankDeficientStandardErrors));
    assert_eq!(check_standard_errors(true, 1, 5, 5), Ok(()));
}

#[test]
fn routes() {
    assert_eq!(fit_route(false, true, false, false), LmRoute::ViewFastPath);
    assert_eq!(fit_route(false, true, true, false), LmRoute::Core);
    assert_eq!(fit_route(false, false, false, true), LmRoute::Core);
    assert_eq!(fit_route(true, true, false, true), LmRoute::ZeroWeightCore);
    assert_eq!(fit_route(true, true, false, false), LmRoute::Core);
    assert_eq!(observation_count(Some((7, 2)), 3), 7);
    assert_eq!(observation_count(None, 3), 3);
}
