//! The decisions of a multivariate least-squares fit.
use vstd::prelude::*;
use crate::common::error::ModelError;

verus! {

/// Accepts a design and a response with the same number of rows.
pub fn check_mvcm_dimensions(x_rows: usize, y_rows: usize) -> (r: Result<(), ModelError>)
    ensures
        x_rows != y_rows ==> r == Err::<(), ModelError>(
            ModelError::MvcmDimensionMismatch { x_rows, y_rows },
        ),
        x_rows == y_rows ==> r is Ok,
{
    if x_rows != y_rows {
        Err(ModelError::MvcmDimensionMismatch { x_rows, y_rows })
    } else {
        Ok(())
    }
}

} // verus!
