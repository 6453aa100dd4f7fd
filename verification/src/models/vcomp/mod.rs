//! Variance-component models.
pub mod mvcm;
pub mod vcm;
