use mrvcr::common::error::ModelError;
use mrvcr::common::method::{ApproximationMethod, ClosedFormSolver, NumericalOptimizer};
use mrvcr::common::pet::Pet;
use mrvcr::models::linear::glm::{FamilyKind, Link};
use std::convert::TryFrom;

#[test]
fn pet_names_are_read() {
    assert_eq!(Pet::try_from("OLS"), Ok(Pet::Ols));
    assert_eq!(Pet::try_from("LS"), Ok(Pet::Ls));
    assert_eq!(Pet::try_from("WLS"), Ok(Pet::Wls));
    assert_eq!(Pet::try_from("MLE"), Ok(Pet::Mle));
    assert_eq!(Pet::try_from("ML"), Ok(Pet::Mle));
    assert_eq!(Pet::try_from("REML"), Ok(Pet::Reml));
}

#[test]
fn pet_reading_ignores_case_and_padding() {
    assert_eq!(Pet::try_from("  ols\t"), Ok(Pet::Ols));
    assert_eq!(Pet::try_from("ReMl"), Ok(Pet::Reml));
    assert_eq!(Pet::try_from("\u{00A0}wls\u{3000}"), Ok(Pet::Wls));
    assert_eq!(Pet::try_from("mL"), Pet::try_from("Ml"));
}

#[test]
fn pet_unknown_names_are_refused() {
    assert_eq!(Pet::try_from("GLS"), Err(ModelError::UnknownPet));
    assert_eq!(Pet::try_from(""), Err(ModelError::UnknownPet));
    assert_eq!(Pet::try_from("O LS"), Err(ModelError::UnknownPet));
    assert_eq!(Pet::try_from("OLSX"), Err(ModelError::UnknownPet));
}

fn closed(s: ClosedFormSolver) -> Result<ApproximationMethod, ModelError> {
    Ok(ApproximationMethod::ClosedForm(s))
}

fn optim(o: NumericalOptimizer) -> Result<ApproximationMethod, ModelError> {
    Ok(ApproximationMethod::Optimization(o))
}

#[test]
fn method_aliases_are_read() {
    for name in ["qr", "col_piv_qr", "column_pivoted_qr", "pivoted_qr"] {
        assert_eq!(ApproximationMethod::try_from(name), closed(ClosedFormSolver::ColPivQr));
    }
    for name in ["householder_qr", "unpivoted_qr", "plain_qr"] {
        assert_eq!(ApproximationMethod::try_from(name), closed(ClosedFormSolver::QrHouseholder));
    }
    for name in ["dqrls", "r_qr", "r_style_qr", "stats_qr"] {
        assert_eq!(ApproximationMethod::try_from(name), closed(ClosedFormSolver::Dqrls));
    }
    assert_eq!(ApproximationMethod::try_from("svd"), closed(ClosedFormSolver::Svd));
    for name in ["cholesky", "chol", "llt"] {
        assert_eq!(ApproximationMethod::try_from(name), closed(ClosedFormSolver::Cholesky));
    }
    for name in ["fs", "fisher", "fisher_scoring", "fisherscoring"] {
        assert_eq!(ApproximationMethod::try_from(name), optim(NumericalOptimizer::FisherScoring));
    }
    for name in ["newton", "newton_raphson", "newtonraphson"] {
        assert_eq!(ApproximationMethod::try_from(name), optim(NumericalOptimizer::NewtonRaphson));
    }
    for name in ["mm", "mm_algorithm", "mmalgorithm"] {
        assert_eq!(ApproximationMethod::try_from(name), optim(NumericalOptimizer::MmAlgorithm));
    }
}

#[test]
fn method_reading_ignores_case_hyphens_and_padding() {
    assert_eq!(ApproximationMethod::try_from("  Col-Piv-QR "), closed(ClosedFormSolver::ColPivQr));
    assert_eq!(ApproximationMethod::try_from("FisherScoring"), optim(NumericalOptimizer::FisherScoring));
    assert_eq!(ApproximationMethod::try_from("MM"), optim(NumericalOptimizer::MmAlgorithm));
    assert_eq!(ApproximationMethod::try_from("Newton-Raphson"), optim(NumericalOptimizer::NewtonRaphson));
    assert_eq!(ApproximationMethod::try_from("householder-qr"), ApproximationMethod::try_from("HOUSEHOLDER_QR"));
}

#[test]
fn method_unknown_names_are_refused() {
    assert_eq!(ApproximationMethod::try_from("lu"), Err(ModelError::UnknownMethod));
    assert_eq!(ApproximationMethod::try_from("q r"), Err(ModelError::UnknownMethod));
    assert_eq!(ApproximationMethod::try_from(""), Err(ModelError::UnknownMethod));
}

#[test]
fn link_names_are_read() {
    assert_eq!(Link::try_from("identity"), Ok(Link::Identity));
    assert_eq!(Link::try_from(" LOG "), Ok(Link::Log));
    assert_eq!(Link::try_from("Logit"), Ok(Link::Logit));
    assert_eq!(Link::try_from("inverse"), Ok(Link::Inverse));
    assert_eq!(Link::try_from("probit"), Err(ModelError::UnknownLink));
}

#[test]
fn family_names_are_read() {
    assert_eq!(FamilyKind::parse("gaussian"), Ok(FamilyKind::Gaussian));
    assert_eq!(FamilyKind::parse("Normal"), Ok(FamilyKind::Gaussian));
    assert_eq!(FamilyKind::parse("poisson"), Ok(FamilyKind::Poisson));
    assert_eq!(FamilyKind::parse(" BINOMIAL"), Ok(FamilyKind::Binomial));
    assert_eq!(FamilyKind::parse("nb"), Ok(FamilyKind::NegativeBinomial));
    assert_eq!(FamilyKind::parse("negative_binomial"), Ok(FamilyKind::NegativeBinomial));
    assert_eq!(FamilyKind::parse("NegativeBinomial"), Ok(FamilyKind::NegativeBinomial));
    assert_eq!(FamilyKind::parse("tweedie"), Ok(FamilyKind::Tweedie));
}

#[test]
fn family_reading_keeps_hyphens() {
    // Unlike method names, family names do not read a hyphen as an underscore.
    assert_eq!(FamilyKind::parse("negative-binomial"), Err(ModelError::UnknownFamily));
    assert_eq!(FamilyKind::parse("gamma"), Err(ModelError::UnknownFamily));
}
