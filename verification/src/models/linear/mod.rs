//! Linear and generalized linear models.
pub mod glm;
pub mod lm;
