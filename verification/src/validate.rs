//! The outcome of a license validation: its code, detail and scope.

use vstd::prelude::*;

use crate::attributes::{
    opt_chars,
};
use crate::text::{chars_eq_str, chars_of, to_string};

verus! {

/// The outcome of a validation, by its code.
#[derive(Debug, Clone, Copy, PartialEq, Eq, Structural)]
pub enum ValidationCode {
    Valid,
    NotFound,
    Suspended,
    Expired,
}

impl ValidationCode {
    /// The code the API uses for the value.
    pub open spec fn code(self) -> Seq<char> {
        match self {
            ValidationCode::Valid => "Valid"@,
            ValidationCode::NotFound => "NotFound"@,
            ValidationCode::Suspended => "Suspended"@,
            ValidationCode::Expired => "Expired"@,
        }
    }

    /// The code the API uses for the value.
    pub fn as_str(self) -> (r: &'static str)
        ensures
            r@ == self.code(),
    {
        match self {
            ValidationCode::Valid => "Valid",
            ValidationCode::NotFound => "NotFound",
            ValidationCode::Suspended => "Suspended",
            ValidationCode::Expired => "Expired",
        }
    }

    /// The value whose code is exactly `c`.
    pub open spec fn with_code(c: Seq<char>) -> Option<Self> {
        if c == "Valid"@ {
            Some(ValidationCode::Valid)
        } else if c == "NotFound"@ {
            Some(ValidationCode::NotFound)
        } else if c == "Suspended"@ {
            Some(ValidationCode::Suspended)
        } else if c == "Expired"@ {
            Some(ValidationCode::Expired)
        } else {
            None
        }
    }

    /// The value whose code is `code`, if any.
    pub fn from_code(code: &str) -> (r: Option<Self>)
        ensures
            r == Self::with_code(code@),
    {
        let v = chars_of(code);
        let c = v.as_slice();
        if chars_eq_str(c, "Valid") {
            Some(ValidationCode::Valid)
        } else if chars_eq_str(c, "NotFound") {
            Some(ValidationCode::NotFound)
        } else if chars_eq_str(c, "Suspended") {
            Some(ValidationCode::Suspended)
        } else if chars_eq_str(c, "Expired") {
            Some(ValidationCode::Expired)
        } else {
            None
        }
    }
}

/// Reading the code of a ValidationCode gives the value back.
pub proof fn law_validation_code_code_round_trip(x: ValidationCode)
    ensures
        ValidationCode::with_code(x.code()) == Some(x),
{
    reveal_strlit("Valid");
    reveal_strlit("NotFound");
    reveal_strlit("Suspended");
    reveal_strlit("Expired");
    match x {
        ValidationCode::Valid => {
        },
        ValidationCode::NotFound => {
            assert("NotFound"@.len() != "Valid"@.len());
        },
        ValidationCode::Suspended => {
            assert("Suspended"@.len() != "Valid"@.len());
            assert("Suspended"@.len() != "NotFound"@.len());
        },
        ValidationCode::Expired => {
            assert("Expired"@.len() != "Valid"@.len());
            assert("Expired"@.len() != "NotFound"@.len());
            assert("Expired"@.len() != "Suspended"@.len());
        },
    }
}

/// The code of an optional ValidationCode.
pub fn validation_code_text(e: Option<ValidationCode>) -> (r: Option<String>)
    ensures
        opt_chars(r) == match e {
            Some(x) => Some(x.code()),
            None => None,
        },
{
    match e {
        Some(x) => Some(to_string(x.as_str())),
        None => None,
    }
}

/// What a validation was scoped to.
#[derive(Debug, Clone)]
pub struct ValidationScope {
    pub fingerprint: Option<String>,
    pub components: Option<Vec<String>>,
    pub product: String,
    pub environment: Option<String>,
}

/// The outcome of a validation.
#[derive(Debug, Clone)]
pub struct ValidationResult {
    pub detail: String,
    pub valid: bool,
    pub code: ValidationCode,
    pub scope: Option<ValidationScope>,
}

} // verus!
