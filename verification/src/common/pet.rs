use vstd::prelude::*;
use crate::common::error::ModelError;
use crate::common::text::{
    all_white_space, ascii_upper, lemma_trim_ignores_padding, lemma_upper_key_agrees, str_eq,
    to_ascii_uppercase_str, trim, trim_str,
};

verus! {

/// The parameter estimation target of a fit.
#[derive(Debug, Clone, Copy, PartialEq, Eq, Structural)]
pub enum Pet {
    Ols,
    Ls,
    Wls,
    Mle,
    Reml,
}

/// The target that an upper-cased, trimmed name stands for.
pub open spec fn pet_from_key(k: Seq<char>) -> Result<Pet, ModelError> {
    if k == "OLS"@ {
        Ok(Pet::Ols)
    } else if k == "LS"@ {
        Ok(Pet::Ls)
    } else if k == "WLS"@ {
        Ok(Pet::Wls)
    } else if k == "MLE"@ || k == "ML"@ {
        Ok(Pet::Mle)
    } else if k == "REML"@ {
        Ok(Pet::Reml)
    } else {
        Err(ModelError::UnknownPet)
    }
}

/// The target that a name stands for: surrounding white space is ignored and
/// ASCII letters are read without regard to case.
pub open spec fn pet_from_text(s: Seq<char>) -> Result<Pet, ModelError> {
    pet_from_key(ascii_upper(trim(s)))
}

impl<'a> TryFrom<&'a str> for Pet {
    type Error = ModelError;

    fn try_from(s: &'a str) -> (r: Result<Pet, ModelError>)
        ensures
            r == pet_from_text(s@),
            (ascii_upper(trim(s@)) == "OLS"@) ==> r == Ok::<Pet, ModelError>(Pet::Ols),
            (ascii_upper(trim(s@)) == "LS"@) ==> r == Ok::<Pet, ModelError>(Pet::Ls),
            (ascii_upper(trim(s@)) == "WLS"@) ==> r == Ok::<Pet, ModelError>(Pet::Wls),
            (ascii_upper(trim(s@)) == "MLE"@ || ascii_upper(trim(s@)) == "ML"@) ==> r == Ok::<Pet, ModelError>(Pet::Mle),
            (ascii_upper(trim(s@)) == "REML"@) ==> r == Ok::<Pet, ModelError>(Pet::Reml),
            (ascii_upper(trim(s@)) != "OLS"@ && ascii_upper(trim(s@)) != "LS"@ && ascii_upper(trim(s@)) != "WLS"@ && ascii_upper(trim(s@)) != "MLE"@ && ascii_upper(trim(s@)) != "ML"@ && ascii_upper(trim(s@)) != "REML"@) ==> r == Err::<Pet, ModelError>(ModelError::UnknownPet),
    {
        proof {
            reveal_strlit("OLS");
            assert("OLS"@.len() == 3);
            reveal_strlit("LS");
            assert("LS"@.len() == 2);
            reveal_strlit("WLS");
            assert("WLS"@.len() == 3);
            reveal_strlit("MLE");
            assert("MLE"@.len() == 3);
            reveal_strlit("ML");
            assert("ML"@.len() == 2);
            reveal_strlit("REML");
            assert("REML"@.len() == 4);
            assert("OLS"@[0] != "WLS"@[0]);
            assert("OLS"@[0] != "MLE"@[0]);
            assert("LS"@[0] != "ML"@[0]);
            assert("WLS"@[0] != "MLE"@[0]);
        }
        let key = to_ascii_uppercase_str(trim_str(s));
        let k = key.as_str();
        if str_eq(k, "OLS") {
            Ok(Pet::Ols)
        } else if str_eq(k, "LS") {
            Ok(Pet::Ls)
        } else if str_eq(k, "WLS") {
            Ok(Pet::Wls)
        } else if str_eq(k, "MLE") || str_eq(k, "ML") {
            Ok(Pet::Mle)
        } else if str_eq(k, "REML") {
            Ok(Pet::Reml)
        } else {
            Err(ModelError::UnknownPet)
        }
    }
}

impl<'a> vstd::std_specs::convert::TryFromSpecImpl<&'a str> for Pet {
    open spec fn obeys_try_from_spec() -> bool {
        true
    }

    open spec fn try_from_spec(s: &'a str) -> Result<Pet, ModelError> {
        pet_from_text(s@)
    }
}

/// Two names that differ only in the case of their ASCII letters stand for the
/// same estimation target.
pub proof fn lemma_pet_ignores_case(s1: Seq<char>, s2: Seq<char>)
    requires
        ascii_upper(s1) == ascii_upper(s2),
    ensures
        pet_from_text(s1) == pet_from_text(s2),
{
    lemma_upper_key_agrees(s1, s2);
}

/// White space around a name does not change the estimation target it stands
/// for.
pub proof fn lemma_pet_ignores_padding(before: Seq<char>, s: Seq<char>, after: Seq<char>)
    requires
        all_white_space(before),
        all_white_space(after),
    ensures
        pet_from_text(before + s + after) == pet_from_text(s),
{
    lemma_trim_ignores_padding(before, s, after);
}

} // verus!
