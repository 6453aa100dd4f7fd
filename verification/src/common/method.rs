use vstd::prelude::*;
use crate::common::error::ModelError;
use crate::common::text::{
    all_white_space, ascii_lower, ascii_lower_char, hyphens_to_underscores,
    hyphens_to_underscores_str, is_white_space, keeps_white_space,
    lemma_case_folding_keeps_white_space, lemma_trim_ignores_padding, lemma_trim_map, str_eq,
    to_ascii_lowercase_str, trim, trim_str,
};

verus! {

/// Closed-form least-squares solvers.
#[derive(Debug, Clone, Copy, PartialEq, Eq, Structural)]
pub enum ClosedFormSolver {
    QrHouseholder,
    ColPivQr,
    Dqrls,
    Svd,
    Cholesky,
}

/// Iterative optimizers.
#[derive(Debug, Clone, Copy, PartialEq, Eq, Structural)]
pub enum NumericalOptimizer {
    FisherScoring,
    NewtonRaphson,
    MmAlgorithm,
}

/// How a model's estimates are computed.
#[derive(Debug, Clone, Copy, PartialEq, Eq, Structural)]
pub enum ApproximationMethod {
    ClosedForm(ClosedFormSolver),
    Optimization(NumericalOptimizer),
}


/// The method that a lower-cased, trimmed name with underscores for hyphens
/// stands for.
pub open spec fn method_from_key(k: Seq<char>) -> Result<ApproximationMethod, ModelError> {
    if k == "qr"@ || k == "col_piv_qr"@ || k == "column_pivoted_qr"@ || k == "pivoted_qr"@ {
        Ok(ApproximationMethod::ClosedForm(ClosedFormSolver::ColPivQr))
    } else if k == "householder_qr"@ || k == "unpivoted_qr"@ || k == "plain_qr"@ {
        Ok(ApproximationMethod::ClosedForm(ClosedFormSolver::QrHouseholder))
    } else if k == "dqrls"@ || k == "r_qr"@ || k == "r_style_qr"@ || k == "stats_qr"@ {
        Ok(ApproximationMethod::ClosedForm(ClosedFormSolver::Dqrls))
    } else if k == "svd"@ {
        Ok(ApproximationMethod::ClosedForm(ClosedFormSolver::Svd))
    } else if k == "cholesky"@ || k == "chol"@ || k == "llt"@ {
        Ok(ApproximationMethod::ClosedForm(ClosedFormSolver::Cholesky))
    } else if k == "fs"@ || k == "fisher"@ || k == "fisher_scoring"@ || k == "fisherscoring"@ {
        Ok(ApproximationMethod::Optimization(NumericalOptimizer::FisherScoring))
    } else if k == "newton"@ || k == "newton_raphson"@ || k == "newtonraphson"@ {
        Ok(ApproximationMethod::Optimization(NumericalOptimizer::NewtonRaphson))
    } else if k == "mm"@ || k == "mm_algorithm"@ || k == "mmalgorithm"@ {
        Ok(ApproximationMethod::Optimization(NumericalOptimizer::MmAlgorithm))
    } else {
        Err(ModelError::UnknownMethod)
    }
}

/// The key under which a method name is looked up: surrounding white space is
/// dropped, ASCII letters are lower-cased and hyphens become underscores.
pub open spec fn method_key(s: Seq<char>) -> Seq<char> {
    hyphens_to_underscores(ascii_lower(trim(s)))
}

/// The method that a name stands for.
pub open spec fn method_from_text(s: Seq<char>) -> Result<ApproximationMethod, ModelError> {
    method_from_key(method_key(s))
}

impl<'a> TryFrom<&'a str> for ApproximationMethod {
    type Error = ModelError;

    fn try_from(s: &'a str) -> (r: Result<ApproximationMethod, ModelError>)
        ensures
            r == method_from_text(s@),
            (hyphens_to_underscores(ascii_lower(trim(s@))) == "qr"@ || hyphens_to_underscores(ascii_lower(trim(s@))) == "col_piv_qr"@ || hyphens_to_underscores(ascii_lower(trim(s@))) == "column_pivoted_qr"@ || hyphens_to_underscores(ascii_lower(trim(s@))) == "pivoted_qr"@) ==> r == Ok::<ApproximationMethod, ModelError>(ApproximationMethod::ClosedForm(ClosedFormSolver::ColPivQr)),
            (hyphens_to_underscores(ascii_lower(trim(s@))) == "householder_qr"@ || hyphens_to_underscores(ascii_lower(trim(s@))) == "unpivoted_qr"@ || hyphens_to_underscores(ascii_lower(trim(s@))) == "plain_qr"@) ==> r == Ok::<ApproximationMethod, ModelError>(ApproximationMethod::ClosedForm(ClosedFormSolver::QrHouseholder)),
            (hyphens_to_underscores(ascii_lower(trim(s@))) == "dqrls"@ || hyphens_to_underscores(ascii_lower(trim(s@))) == "r_qr"@ || hyphens_to_underscores(ascii_lower(trim(s@))) == "r_style_qr"@ || hyphens_to_underscores(ascii_lower(trim(s@))) == "stats_qr"@) ==> r == Ok::<ApproximationMethod, ModelError>(ApproximationMethod::ClosedForm(ClosedFormSolver::Dqrls)),
            (hyphens_to_underscores(ascii_lower(trim(s@))) == "svd"@) ==> r == Ok::<ApproximationMethod, ModelError>(ApproximationMethod::ClosedForm(ClosedFormSolver::Svd)),
            (hyphens_to_underscores(ascii_lower(trim(s@))) == "cholesky"@ || hyphens_to_underscores(ascii_lower(trim(s@))) == "chol"@ || hyphens_to_underscores(ascii_lower(trim(s@))) == "llt"@) ==> r == Ok::<ApproximationMethod, ModelError>(ApproximationMethod::ClosedForm(ClosedFormSolver::Cholesky)),
            (hyphens_to_underscores(ascii_lower(trim(s@))) == "fs"@ || hyphens_to_underscores(ascii_lower(trim(s@))) == "fisher"@ || hyphens_to_underscores(ascii_lower(trim(s@))) == "fisher_scoring"@ || hyphens_to_underscores(ascii_lower(trim(s@))) == "fisherscoring"@) ==> r == Ok::<ApproximationMethod, ModelError>(ApproximationMethod::Optimization(NumericalOptimizer::FisherScoring)),
            (hyphens_to_underscores(ascii_lower(trim(s@))) == "newton"@ || hyphens_to_underscores(ascii_lower(trim(s@))) == "newton_raphson"@ || hyphens_to_underscores(ascii_lower(trim(s@))) == "newtonraphson"@) ==> r == Ok::<ApproximationMethod, ModelError>(ApproximationMethod::Optimization(NumericalOptimizer::NewtonRaphson)),
            (hyphens_to_underscores(ascii_lower(trim(s@))) == "mm"@ || hyphens_to_underscores(ascii_lower(trim(s@))) == "mm_algorithm"@ || hyphens_to_underscores(ascii_lower(trim(s@))) == "mmalgorithm"@) ==> r == Ok::<ApproximationMethod, ModelError>(ApproximationMethod::Optimization(NumericalOptimizer::MmAlgorithm)),
            (hyphens_to_underscores(ascii_lower(trim(s@))) != "qr"@ && hyphens_to_underscores(ascii_lower(trim(s@))) != "col_piv_qr"@ && hyphens_to_underscores(ascii_lower(trim(s@))) != "column_pivoted_qr"@ && hyphens_to_underscores(ascii_lower(trim(s@))) != "pivoted_qr"@ && hyphens_to_underscores(ascii_lower(trim(s@))) != "householder_qr"@ && hyphens_to_underscores(ascii_lower(trim(s@))) != "unpivoted_qr"@ && hyphens_to_underscores(ascii_lower(trim(s@))) != "plain_qr"@ && hyphens_to_underscores(ascii_lower(trim(s@))) != "dqrls"@ && hyphens_to_underscores(ascii_lower(trim(s@))) != "r_qr"@ && hyphens_to_underscores(ascii_lower(trim(s@))) != "r_style_qr"@ && hyphens_to_underscores(ascii_lower(trim(s@))) != "stats_qr"@ && hyphens_to_underscores(ascii_lower(trim(s@))) != "svd"@ && hyphens_to_underscores(ascii_lower(trim(s@))) != "cholesky"@ && hyphens_to_underscores(ascii_lower(trim(s@))) != "chol"@ && hyphens_to_underscores(ascii_lower(trim(s@))) != "llt"@ && hyphens_to_underscores(ascii_lower(trim(s@))) != "fs"@ && hyphens_to_underscores(ascii_lower(trim(s@))) != "fisher"@ && hyphens_to_underscores(ascii_lower(trim(s@))) != "fisher_scoring"@ && hyphens_to_underscores(ascii_lower(trim(s@))) != "fisherscoring"@ && hyphens_to_underscores(ascii_lower(trim(s@))) != "newton"@ && hyphens_to_underscores(ascii_lower(trim(s@))) != "newton_raphson"@ && hyphens_to_underscores(ascii_lower(trim(s@))) != "newtonraphson"@ && hyphens_to_underscores(ascii_lower(trim(s@))) != "mm"@ && hyphens_to_underscores(ascii_lower(trim(s@))) != "mm_algorithm"@ && hyphens_to_underscores(ascii_lower(trim(s@))) != "mmalgorithm"@) ==> r == Err::<ApproximationMethod, ModelError>(ModelError::UnknownMethod),
    {
        proof {
            reveal_strlit("qr");
            assert("qr"@.len() == 2);
            reveal_strlit("col_piv_qr");
            assert("col_piv_qr"@.len() == 10);
            reveal_strlit("column_pivoted_qr");
            assert("column_pivoted_qr"@.len() == 17);
            reveal_strlit("pivoted_qr");
            assert("pivoted_qr"@.len() == 10);
            reveal_strlit("householder_qr");
            assert("householder_qr"@.len() == 14);
            reveal_strlit("unpivoted_qr");
            assert("unpivoted_qr"@.len() == 12);
            reveal_strlit("plain_qr");
            assert("plain_qr"@.len() == 8);
            reveal_strlit("dqrls");
            assert("dqrls"@.len() == 5);
            reveal_strlit("r_qr");
            assert("r_qr"@.len() == 4);
            reveal_strlit("r_style_qr");
            assert("r_style_qr"@.len() == 10);
            reveal_strlit("stats_qr");
            assert("stats_qr"@.len() == 8);
            reveal_strlit("svd");
            assert("svd"@.len() == 3);
            reveal_strlit("cholesky");
            assert("cholesky"@.len() == 8);
            reveal_strlit("chol");
            assert("chol"@.len() == 4);
            reveal_strlit("llt");
            assert("llt"@.len() == 3);
            reveal_strlit("fs");
            assert("fs"@.len() == 2);
            reveal_strlit("fisher");
            assert("fisher"@.len() == 6);
            reveal_strlit("fisher_scoring");
            assert("fisher_scoring"@.len() == 14);
            reveal_strlit("fisherscoring");
            assert("fisherscoring"@.len() == 13);
            reveal_strlit("newton");
            assert("newton"@.len() == 6);
            reveal_strlit("newton_raphson");
            assert("newton_raphson"@.len() == 14);
            reveal_strlit("newtonraphson");
            assert("newtonraphson"@.len() == 13);
            reveal_strlit("mm");
            assert("mm"@.len() == 2);
            reveal_strlit("mm_algorithm");
            assert("mm_algorithm"@.len() == 12);
            reveal_strlit("mmalgorithm");
            assert("mmalgorithm"@.len() == 11);
            assert("col_piv_qr"@[0] != "r_style_qr"@[0]);
            assert("pivoted_qr"@[0] != "r_style_qr"@[0]);
            assert("qr"@[0] != "fs"@[0]);
            assert("qr"@[0] != "mm"@[0]);
            assert("plain_qr"@[0] != "stats_qr"@[0]);
            assert("plain_qr"@[0] != "cholesky"@[0]);
            assert("householder_qr"@[0] != "fisher_scoring"@[0]);
            assert("householder_qr"@[0] != "newton_raphson"@[0]);
            assert("unpivoted_qr"@[0] != "mm_algorithm"@[0]);
            assert("r_qr"@[0] != "chol"@[0]);
            assert("stats_qr"@[0] != "cholesky"@[0]);
            assert("svd"@[0] != "llt"@[0]);
            assert("fisher"@[0] != "newton"@[0]);
            assert("fisher_scoring"@[0] != "newton_raphson"@[0]);
            assert("fisherscoring"@[0] != "newtonraphson"@[0]);
            assert("fs"@[0] != "mm"@[0]);
        }
        let lowered = to_ascii_lowercase_str(trim_str(s));
        let key = hyphens_to_underscores_str(lowered.as_str());
        let k = key.as_str();
        if str_eq(k, "qr") || str_eq(k, "col_piv_qr") || str_eq(k, "column_pivoted_qr") || str_eq(k, "pivoted_qr") {
            Ok(ApproximationMethod::ClosedForm(ClosedFormSolver::ColPivQr))
        } else if str_eq(k, "householder_qr") || str_eq(k, "unpivoted_qr") || str_eq(k, "plain_qr") {
            Ok(ApproximationMethod::ClosedForm(ClosedFormSolver::QrHouseholder))
        } else if str_eq(k, "dqrls") || str_eq(k, "r_qr") || str_eq(k, "r_style_qr") || str_eq(k, "stats_qr") {
            Ok(ApproximationMethod::ClosedForm(ClosedFormSolver::Dqrls))
        } else if str_eq(k, "svd") {
            Ok(ApproximationMethod::ClosedForm(ClosedFormSolver::Svd))
        } else if str_eq(k, "cholesky") || str_eq(k, "chol") || str_eq(k, "llt") {
            Ok(ApproximationMethod::ClosedForm(ClosedFormSolver::Cholesky))
        } else if str_eq(k, "fs") || str_eq(k, "fisher") || str_eq(k, "fisher_scoring") || str_eq(k, "fisherscoring") {
            Ok(ApproximationMethod::Optimization(NumericalOptimizer::FisherScoring))
        } else if str_eq(k, "newton") || str_eq(k, "newton_raphson") || str_eq(k, "newtonraphson") {
            Ok(ApproximationMethod::Optimization(NumericalOptimizer::NewtonRaphson))
        } else if str_eq(k, "mm") || str_eq(k, "mm_algorithm") || str_eq(k, "mmalgorithm") {
            Ok(ApproximationMethod::Optimization(NumericalOptimizer::MmAlgorithm))
        } else {
            Err(ModelError::UnknownMethod)
        }
    }
}

impl<'a> vstd::std_specs::convert::TryFromSpecImpl<&'a str> for ApproximationMethod {
    open spec fn obeys_try_from_spec() -> bool {
        true
    }

    open spec fn try_from_spec(s: &'a str) -> Result<ApproximationMethod, ModelError> {
        method_from_text(s@)
    }
}

/// Lower-casing one character and then writing a hyphen as an underscore.
pub open spec fn method_key_char(c: char) -> char {
    let l = ascii_lower_char(c);
    if l == '-' {
        '_'
    } else {
        l
    }
}

/// Two method names that agree once ASCII letters are lower-cased and hyphens
/// are written as underscores stand for the same method: reading a method name
/// ignores letter case and does not tell `-` from `_`.
pub proof fn lemma_method_ignores_case_and_hyphens(s1: Seq<char>, s2: Seq<char>)
    requires
        hyphens_to_underscores(ascii_lower(s1)) == hyphens_to_underscores(ascii_lower(s2)),
    ensures
        method_from_text(s1) == method_from_text(s2),
{
    let g = |c: char| method_key_char(c);
    lemma_case_folding_keeps_white_space();
    assert(keeps_white_space(g)) by {
        assert forall|c: char| #[trigger] is_white_space(g(c)) == is_white_space(c) by {
            assert(is_white_space(ascii_lower_char(c)) == is_white_space(c));
        }
    }
    assert forall|x: Seq<char>| #[trigger] hyphens_to_underscores(ascii_lower(x)) == x.map_values(g) by {
        assert(hyphens_to_underscores(ascii_lower(x)) =~= x.map_values(g));
    }
    lemma_trim_map(s1, g);
    lemma_trim_map(s2, g);
    assert(method_key(s1) == trim(s1).map_values(g));
    assert(method_key(s2) == trim(s2).map_values(g));
}

/// White space around a method name does not change the method it stands for.
pub proof fn lemma_method_ignores_padding(before: Seq<char>, s: Seq<char>, after: Seq<char>)
    requires
        all_white_space(before),
        all_white_space(after),
    ensures
        method_from_text(before + s + after) == method_from_text(s),
{
    lemma_trim_ignores_padding(before, s, after);
}

} // verus!
