//! Shared building blocks: estimation targets, solver choices, model families,
//! input storage and the text rules by which option names are read.
pub mod error;
pub mod families;
pub mod matrix;
pub mod method;
pub mod pet;
pub mod storage;
pub mod text;

pub use error::ModelError;
pub use method::ApproximationMethod;
pub use pet::Pet;
pub use storage::InputMatrix;

use vstd::prelude::*;

verus! {

/// A parametric statistical model.
pub trait StatisticalModel {
    /// How the model keeps its data (for example dense or sparse matrices).
    type Storage;

    /// The number of unknown parameters of the model.
    fn parameter_dimension(&self) -> usize;
}

} // verus!
