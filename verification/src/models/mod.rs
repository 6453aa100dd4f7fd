//! The models: linear and generalized linear models, and variance-component
//! models.
pub mod linear;
pub mod vcomp;
