//! The decisions of a generalized linear model fit: how its link and family
//! are named, which targets and methods it accepts, the shape of its inputs
//! and its iteration budget.
use vstd::prelude::*;
use crate::common::error::ModelError;
use crate::common::method::{ApproximationMethod, NumericalOptimizer};
use crate::common::pet::Pet;
use crate::common::text::{
    all_white_space, ascii_lower, lemma_lower_key_agrees, lemma_trim_ignores_padding, str_eq,
    to_ascii_lowercase_str, trim, trim_str,
};

verus! {

/// The link between the mean and the linear predictor of a generalized linear
/// model.
#[derive(Debug, Clone, Copy, PartialEq, Eq, Structural)]
pub enum Link {
    Identity,
    Log,
    Logit,
    Inverse,
}

/// The link that a lower-cased, trimmed name stands for.
pub open spec fn link_from_key(k: Seq<char>) -> Result<Link, ModelError> {
    if k == "identity"@ {
        Ok(Link::Identity)
    } else if k == "log"@ {
        Ok(Link::Log)
    } else if k == "logit"@ {
        Ok(Link::Logit)
    } else if k == "inverse"@ {
        Ok(Link::Inverse)
    } else {
        Err(ModelError::UnknownLink)
    }
}

/// The link that a name stands for: surrounding white space is ignored and
/// ASCII letters are read without regard to case.
pub open spec fn link_from_text(s: Seq<char>) -> Result<Link, ModelError> {
    link_from_key(ascii_lower(trim(s)))
}

impl<'a> TryFrom<&'a str> for Link {
    type Error = ModelError;

    fn try_from(s: &'a str) -> (r: Result<Link, ModelError>)
        ensures
            r == link_from_text(s@),
            (ascii_lower(trim(s@)) == "identity"@) ==> r == Ok::<Link, ModelError>(Link::Identity),
            (ascii_lower(trim(s@)) == "log"@) ==> r == Ok::<Link, ModelError>(Link::Log),
            (ascii_lower(trim(s@)) == "logit"@) ==> r == Ok::<Link, ModelError>(Link::Logit),
            (ascii_lower(trim(s@)) == "inverse"@) ==> r == Ok::<Link, ModelError>(Link::Inverse),
            (ascii_lower(trim(s@)) != "identity"@ && ascii_lower(trim(s@)) != "log"@ && ascii_lower(trim(s@)) != "logit"@ && ascii_lower(trim(s@)) != "inverse"@) ==> r == Err::<Link, ModelError>(ModelError::UnknownLink),
    {
        proof {
            reveal_strlit("identity");
            assert("identity"@.len() == 8);
            reveal_strlit("log");
            assert("log"@.len() == 3);
            reveal_strlit("logit");
            assert("logit"@.len() == 5);
            reveal_strlit("inverse");
            assert("inverse"@.len() == 7);
        }
        let key = to_ascii_lowercase_str(trim_str(s));
        let k = key.as_str();
        if str_eq(k, "identity") {
            Ok(Link::Identity)
        } else if str_eq(k, "log") {
            Ok(Link::Log)
        } else if str_eq(k, "logit") {
            Ok(Link::Logit)
        } else if str_eq(k, "inverse") {
            Ok(Link::Inverse)
        } else {
            Err(ModelError::UnknownLink)
        }
    }
}

impl<'a> vstd::std_specs::convert::TryFromSpecImpl<&'a str> for Link {
    open spec fn obeys_try_from_spec() -> bool {
        true
    }

    open spec fn try_from_spec(s: &'a str) -> Result<Link, ModelError> {
        link_from_text(s@)
    }
}

/// The distribution families of a generalized linear model, by name; the
/// negative binomial and Tweedie families also take a parameter.
#[derive(Debug, Clone, Copy, PartialEq, Eq, Structural)]
pub enum FamilyKind {
    Gaussian,
    Poisson,
    Binomial,
    NegativeBinomial,
    Tweedie,
}

/// The family that a lower-cased, trimmed name stands for.
pub open spec fn family_from_key(k: Seq<char>) -> Result<FamilyKind, ModelError> {
    if k == "gaussian"@ || k == "normal"@ {
        Ok(FamilyKind::Gaussian)
    } else if k == "poisson"@ {
        Ok(FamilyKind::Poisson)
    } else if k == "binomial"@ {
        Ok(FamilyKind::Binomial)
    } else if k == "nb"@ || k == "negative_binomial"@ || k == "negativebinomial"@ {
        Ok(FamilyKind::NegativeBinomial)
    } else if k == "tweedie"@ {
        Ok(FamilyKind::Tweedie)
    } else {
        Err(ModelError::UnknownFamily)
    }
}

/// The family that a name stands for: surrounding white space is ignored and
/// ASCII letters are read without regard to case.
pub open spec fn family_from_text(s: Seq<char>) -> Result<FamilyKind, ModelError> {
    family_from_key(ascii_lower(trim(s)))
}

impl FamilyKind {
    /// Reads a family name.
    pub fn parse(s: &str) -> (r: Result<FamilyKind, ModelError>)
        ensures
            r == family_from_text(s@),
            (ascii_lower(trim(s@)) == "gaussian"@ || ascii_lower(trim(s@)) == "normal"@) ==> r == Ok::<FamilyKind, ModelError>(FamilyKind::Gaussian),
            (ascii_lower(trim(s@)) == "poisson"@) ==> r == Ok::<FamilyKind, ModelError>(FamilyKind::Poisson),
            (ascii_lower(trim(s@)) == "binomial"@) ==> r == Ok::<FamilyKind, ModelError>(FamilyKind::Binomial),
            (ascii_lower(trim(s@)) == "nb"@ || ascii_lower(trim(s@)) == "negative_binomial"@ || ascii_lower(trim(s@)) == "negativebinomial"@) ==> r == Ok::<FamilyKind, ModelError>(FamilyKind::NegativeBinomial),
            (ascii_lower(trim(s@)) == "tweedie"@) ==> r == Ok::<FamilyKind, ModelError>(FamilyKind::Tweedie),
            (ascii_lower(trim(s@)) != "gaussian"@ && ascii_lower(trim(s@)) != "normal"@ && ascii_lower(trim(s@)) != "poisson"@ && ascii_lower(trim(s@)) != "binomial"@ && ascii_lower(trim(s@)) != "nb"@ && ascii_lower(trim(s@)) != "negative_binomial"@ && ascii_lower(trim(s@)) != "negativebinomial"@ && ascii_lower(trim(s@)) != "tweedie"@) ==> r == Err::<FamilyKind, ModelError>(ModelError::UnknownFamily),
    {
        proof {
            reveal_strlit("gaussian");
            assert("gaussian"@.len() == 8);
            reveal_strlit("normal");
            assert("normal"@.len() == 6);
            reveal_strlit("poisson");
            assert("poisson"@.len() == 7);
            reveal_strlit("binomial");
            assert("binomial"@.len() == 8);
            reveal_strlit("nb");
            assert("nb"@.len() == 2);
            reveal_strlit("negative_binomial");
            assert("negative_binomial"@.len() == 17);
            reveal_strlit("negativebinomial");
            assert("negativebinomial"@.len() == 16);
            reveal_strlit("tweedie");
            assert("tweedie"@.len() == 7);
            assert("gaussian"@[0] != "binomial"@[0]);
            assert("poisson"@[0] != "tweedie"@[0]);
        }
        let key = to_ascii_lowercase_str(trim_str(s));
        let k = key.as_str();
        if str_eq(k, "gaussian") || str_eq(k, "normal") {
            Ok(FamilyKind::Gaussian)
        } else if str_eq(k, "poisson") {
            Ok(FamilyKind::Poisson)
        } else if str_eq(k, "binomial") {
            Ok(FamilyKind::Binomial)
        } else if str_eq(k, "nb") || str_eq(k, "negative_binomial") || str_eq(
            k,
            "negativebinomial",
        ) {
            Ok(FamilyKind::NegativeBinomial)
        } else if str_eq(k, "tweedie") {
            Ok(FamilyKind::Tweedie)
        } else {
            Err(ModelError::UnknownFamily)
        }
    }
}

/// Accepts only maximum-likelihood estimation by Fisher scoring, checking the
/// target first.
pub fn check_glm_request(pet: Pet, method: ApproximationMethod) -> (r: Result<(), ModelError>)
    ensures
        pet != Pet::Mle ==> r == Err::<(), ModelError>(ModelError::GlmPetUnsupported),
        pet == Pet::Mle && method != ApproximationMethod::Optimization(
            NumericalOptimizer::FisherScoring,
        ) ==> r == Err::<(), ModelError>(ModelError::GlmMethodUnsupported),
        pet == Pet::Mle && method == ApproximationMethod::Optimization(
            NumericalOptimizer::FisherScoring,
        ) ==> r is Ok,
{
    if pet != Pet::Mle {
        return Err(ModelError::GlmPetUnsupported);
    }
    match method {
        ApproximationMethod::Optimization(NumericalOptimizer::FisherScoring) => Ok(()),
        _ => Err(ModelError::GlmMethodUnsupported),
    }
}

/// Accepts a response of exactly one column with as many rows (`y_rows`) as
/// the design has (`n`).
pub fn check_glm_dimensions(n: usize, y_rows: usize, y_cols: usize) -> (r: Result<(), ModelError>)
    ensures
        (y_rows != n || y_cols != 1) ==> r == Err::<(), ModelError>(
            ModelError::GlmDimensionMismatch { n, y_rows, y_cols },
        ),
        (y_rows == n && y_cols == 1) ==> r is Ok,
{
    if y_rows != n || y_cols != 1 {
        Err(ModelError::GlmDimensionMismatch { n, y_rows, y_cols })
    } else {
        Ok(())
    }
}

/// The number of scoring iterations allowed: `max_iter`, which must be
/// positive.
pub fn iteration_budget(max_iter: i32) -> (r: Result<usize, ModelError>)
    ensures
        max_iter <= 0 ==> r == Err::<usize, ModelError>(ModelError::MaxIterNotPositive),
        max_iter > 0 ==> r == Ok::<usize, ModelError>(max_iter as usize),
{
    if max_iter <= 0 {
        Err(ModelError::MaxIterNotPositive)
    } else {
        Ok(max_iter as usize)
    }
}

/// Two link names that differ only in the case of their ASCII letters stand
/// for the same link.
pub proof fn lemma_link_ignores_case(s1: Seq<char>, s2: Seq<char>)
    requires
        ascii_lower(s1) == ascii_lower(s2),
    ensures
        link_from_text(s1) == link_from_text(s2),
{
    lemma_lower_key_agrees(s1, s2);
}

/// White space around a link name does not change the link it stands for.
pub proof fn lemma_link_ignores_padding(before: Seq<char>, s: Seq<char>, after: Seq<char>)
    requires
        all_white_space(before),
        all_white_space(after),
    ensures
        link_from_text(before + s + after) == link_from_text(s),
{
    lemma_trim_ignores_padding(before, s, after);
}

/// Two family names that differ only in the case of their ASCII letters stand
/// for the same family.
pub proof fn lemma_family_ignores_case(s1: Seq<char>, s2: Seq<char>)
    requires
        ascii_lower(s1) == ascii_lower(s2),
    ensures
        family_from_text(s1) == family_from_text(s2),
{
    lemma_lower_key_agrees(s1, s2);
}

/// White space around a family name does not change the family it stands for.
pub proof fn lemma_family_ignores_padding(before: Seq<char>, s: Seq<char>, after: Seq<char>)
    requires
        all_white_space(before),
        all_white_space(after),
    ensures
        family_from_text(before + s + after) == family_from_text(s),
{
    lemma_trim_ignores_padding(before, s, after);
}

/// The progress of the scoring iterations: how many have been started out of
/// the budget, and whether a step has fallen below the tolerance.
#[derive(Debug)]
pub struct IrlsProgress {
    budget: usize,
    iterations: usize,
    converged: bool,
}

impl IrlsProgress {
    #[verifier::type_invariant]
    spec fn within_budget(self) -> bool {
        &&& self.iterations <= self.budget
        &&& self.converged ==> self.iterations > 0
    }

    /// The iteration budget.
    pub closed spec fn budget_spec(self) -> nat {
        self.budget as nat
    }

    /// The number of iterations started.
    pub closed spec fn iterations_spec(self) -> nat {
        self.iterations as nat
    }

    /// Whether a step has fallen below the tolerance.
    pub closed spec fn converged_spec(self) -> bool {
        self.converged
    }

    /// No iteration started yet.
    pub fn start(budget: usize) -> (s: Self)
        ensures
            s.budget_spec() == budget,
            s.iterations_spec() == 0,
            !s.converged_spec(),
    {
        IrlsProgress { budget, iterations: 0, converged: false }
    }

    /// Starts the next iteration if the fit has not converged and the budget
    /// is not spent, and says whether it did.
    pub fn next_iteration(&mut self) -> (started: bool)
        ensures
            started == (!old(self).converged_spec() && old(self).iterations_spec() < old(
                self,
            ).budget_spec()),
            final(self).iterations_spec() == old(self).iterations_spec() + if started {
                1nat
            } else {
                0nat
            },
            final(self).budget_spec() == old(self).budget_spec(),
            final(self).converged_spec() == old(self).converged_spec(),
    {
        proof {
            use_type_invariant(&*self);
        }
        if !self.converged && self.iterations < self.budget {
            self.iterations = self.iterations + 1;
            true
        } else {
            false
        }
    }

    /// Records the size of the last step: the fit has converged once a step
    /// falls below the tolerance. Only a started iteration records a step.
    pub fn record_step(&mut self, step_below_tol: bool)
        requires
            old(self).iterations_spec() > 0,
        ensures
            final(self).converged_spec() == (old(self).converged_spec() || step_below_tol),
            final(self).iterations_spec() == old(self).iterations_spec(),
            final(self).budget_spec() == old(self).budget_spec(),
    {
        proof {
            use_type_invariant(&*self);
        }
        if step_below_tol {
            self.converged = true;
        }
    }

    /// The number of iterations started.
    pub fn iterations(&self) -> (n: usize)
        ensures
            n == self.iterations_spec(),
            n <= self.budget_spec(),
    {
        proof {
            use_type_invariant(self);
        }
        self.iterations
    }

    /// Whether a step has fallen below the tolerance.
    pub fn converged(&self) -> (c: bool)
        ensures
            c == self.converged_spec(),
            c ==> self.iterations_spec() > 0,
    {
        proof {
            use_type_invariant(self);
        }
        self.converged
    }
}

} // verus!
