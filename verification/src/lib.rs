//! Model specification, input handling and fitting decisions for a family of
//! linear, generalized linear and variance-component models.
pub mod common;
pub mod models;
