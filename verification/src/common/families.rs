//! The model families and links that a generalized linear model is built from.
use vstd::prelude::*;

verus! {

/// The links between the mean and the linear predictor that the library
/// provides.
#[derive(Debug, Clone, Copy, PartialEq, Eq, Structural)]
pub enum StandardLink {
    Identity,
    Log,
    Logit,
    Inverse,
}

/// The normal distribution family.
#[derive(Debug, Clone, Copy, PartialEq, Eq, Structural)]
pub struct Gaussian;

/// The Poisson distribution family.
#[derive(Debug, Clone, Copy, PartialEq, Eq, Structural)]
pub struct Poisson;

/// The binomial distribution family.
#[derive(Debug, Clone, Copy, PartialEq, Eq, Structural)]
pub struct Binomial;

} // verus!
