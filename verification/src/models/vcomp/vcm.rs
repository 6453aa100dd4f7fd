//! The decisions of a variance-component model fit with random-effect design Z.
use vstd::prelude::*;
use crate::common::error::ModelError;
use crate::common::method::{ApproximationMethod, NumericalOptimizer};
use crate::common::pet::Pet;

verus! {

/// Accepts maximum-likelihood and restricted maximum-likelihood targets.
pub fn check_vcm_pet(pet: Pet) -> (r: Result<(), ModelError>)
    ensures
        (pet == Pet::Reml || pet == Pet::Mle) ==> r is Ok,
        !(pet == Pet::Reml || pet == Pet::Mle) ==> r == Err::<(), ModelError>(
            ModelError::VcmPetUnsupported,
        ),
{
    if pet != Pet::Reml && pet != Pet::Mle {
        Err(ModelError::VcmPetUnsupported)
    } else {
        Ok(())
    }
}

/// Accepts a single response column whose rows match those of the design X and
/// of the random-effect design Z; the column count is checked first.
pub fn check_vcm_dimensions(y_rows: usize, y_cols: usize, x_rows: usize, z_rows: usize) -> (r:
    Result<(), ModelError>)
    ensures
        y_cols != 1 ==> r == Err::<(), ModelError>(ModelError::VcmMultivariateResponse),
        y_cols == 1 && (x_rows != y_rows || z_rows != y_rows) ==> r == Err::<(), ModelError>(
            ModelError::VcmDimensionMismatch { y_rows, x_rows, z_rows },
        ),
        y_cols == 1 && x_rows == y_rows && z_rows == y_rows ==> r is Ok,
{
    if y_cols != 1 {
        return Err(ModelError::VcmMultivariateResponse);
    }
    if x_rows != y_rows || z_rows != y_rows {
        return Err(ModelError::VcmDimensionMismatch { y_rows, x_rows, z_rows });
    }
    Ok(())
}

/// Accepts only the MM algorithm.
pub fn check_vcm_method(method: ApproximationMethod) -> (r: Result<(), ModelError>)
    ensures
        method == ApproximationMethod::Optimization(NumericalOptimizer::MmAlgorithm) ==> r is Ok,
        method != ApproximationMethod::Optimization(NumericalOptimizer::MmAlgorithm) ==> r
            == Err::<(), ModelError>(ModelError::VcmMethodUnsupported),
{
    match method {
        ApproximationMethod::Optimization(NumericalOptimizer::MmAlgorithm) => Ok(()),
        _ => Err(ModelError::VcmMethodUnsupported),
    }
}

} // verus!
