use mrvcr::common::error::ModelError;
use mrvcr::common::method::{ApproximationMethod, ClosedFormSolver, NumericalOptimizer};
use mrvcr::common::pet::Pet;
use mrvcr::models::linear::glm::{check_glm_dimensions, check_glm_request, iteration_budget, IrlsProgress};
use mrvcr::models::vcomp::mvcm::check_mvcm_dimensions;
use mrvcr::models::vcomp::vcm::{check_vcm_dimensions, check_vcm_method, check_vcm_pet};

const FS: ApproximationMethod = ApproximationMethod::Optimization(NumericalOptimizer::FisherScoring);
const MM: ApproximationMethod = ApproximationMethod::Optimization(NumericalOptimizer::MmAlgorithm);

#[test]
fn glm_requests() {
    assert_eq!(check_glm_request(Pet::Mle, FS), Ok(()));
    assert_eq!(check_glm_request(Pet::Ols, FS), Err(ModelError::GlmPetUnsupported));
    assert_eq!(check_glm_request(Pet::Reml, MM), Err(ModelError::GlmPetUnsupported));
    assert_eq!(check_glm_request(Pet::Mle, MM), Err(ModelError::GlmMethodUnsupported));
    assert_eq!(
        check_glm_request(Pet::Mle, ApproximationMethod::ClosedForm(ClosedFormSolver::ColPivQr)),
        Err(ModelError::GlmMethodUnsupported)
    );
}

#[test]
fn glm_dimensions_and_budget() {
    assert_eq!(check_glm_dimensions(5, 5, 1), Ok(()));
    assert_eq!(check_glm_dimensions(5, 4, 1), Err(ModelError::GlmDimensionMismatch { n: 5, y_rows: 4, y_cols: 1 }));
    assert_eq!(check_glm_dimensions(5, 5, 2), Err(ModelError::GlmDimensionMismatch { n: 5, y_rows: 5, y_cols: 2 }));
    assert_eq!(iteration_budget(25), Ok(25));
    assert_eq!(iteration_budget(0), Err(ModelError::MaxIterNotPositive));
    assert_eq!(iteration_budget(-3), Err(ModelError::MaxIterNotPositive));
}

#[test]
fn vcm_rules() {
    assert_eq!(check_vcm_pet(Pet::Reml), Ok(()));
    assert_eq!(check_vcm_pet(Pet::Mle), Ok(()));
    assert_eq!(check_vcm_pet(Pet::Ols), Err(ModelError::VcmPetUnsupported));
    assert_eq!(check_vcm_dimensions(4, 1, 4, 4), Ok(()));
    assert_eq!(check_vcm_dimensions(4, 2, 3, 4), Err(ModelError::VcmMultivariateResponse));
    assert_eq!(
        check_vcm_dimensions(4, 1, 3, 4),
        Err(ModelError::VcmDimensionMismatch { y_rows: 4, x_rows: 3, z_rows: 4 })
    );
    assert_eq!(check_vcm_method(MM), Ok(()));
    assert_eq!(check_vcm_method(FS), Err(ModelError::VcmMethodUnsupported));
}

#[test]
fn mvcm_rules() {
    assert_eq!(check_mvcm_dimensions(3, 3), Ok(()));
    assert_eq!(check_mvcm_dimensions(3, 2), Err(ModelError::MvcmDimensionMismatch { x_rows: 3, y_rows: 2 }));
}

#[test]
fn scoring_iterations_stop_on_convergence() {
    let mut progress = IrlsProgress::start(5);
    let steps_below_tol = [false, false, true, false, false];
    let mut k = 0;
    while progress.next_iteration() {
        progress.record_step(steps_below_tol[k]);
        k += 1;
    }
    assert_eq!(progress.iterations(), 3);
    assert!(progress.converged());
}

#[test]
fn scoring_iterations_stop_at_the_budget() {
    let mut progress = IrlsProgress::start(2);
    while progress.next_iteration() {
        progress.record_step(false);
    }
    assert_eq!(progress.iterations(), 2);
    assert!(!progress.converged());
    let mut none = IrlsProgress::start(0);
    assert!(!none.next_iteration());
    assert_eq!(none.iterations(), 0);
}
