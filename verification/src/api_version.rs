//! The Keygen API contract versions this crate can speak.

use vstd::prelude::*;

use crate::text::{
    chars_eq_str, chars_of, digits_value, parse_unsigned, parse_unsigned_spec, split_chars,
    split_spec, to_string, unsigned_digits,
};

verus! {

/// A Keygen API contract version, as sent in the `Keygen-Version` header.
///
/// Only the versions this crate supports exist: 1.7 and 1.8, ordered by
/// their (major, minor) numbers.
#[allow(non_camel_case_types)]
#[derive(Debug, Clone, Copy, PartialEq, Eq, Structural, PartialOrd, Ord, Hash)]
pub enum ApiContractVersion {
    V1_7,
    V1_8,
}

impl ApiContractVersion {
    pub const CURRENT: Self = Self::V1_8;

    pub const MINIMUM_SUPPORTED: Self = Self::V1_7;

    /// The header text of the version.
    pub open spec fn text(self) -> Seq<char> {
        if self == Self::V1_7 {
            "1.7"@
        } else {
            "1.8"@
        }
    }

    /// Whether `self` is at least `other` in the (major, minor) order.
    pub open spec fn at_least(self, other: Self) -> bool {
        (self == Self::V1_8) || (other == Self::V1_7)
    }

    /// The header representation: `"1.7"` or `"1.8"`.
    pub fn as_str(self) -> (r: &'static str)
        ensures
            r@ == self.text(),
    {
        match self {
            Self::V1_7 => "1.7",
            Self::V1_8 => "1.8",
        }
    }

    /// Whether `self >= other` in the (major, minor) order.
    pub fn is_at_least(self, other: Self) -> (r: bool)
        ensures
            r == self.at_least(other),
    {
        match (self, other) {
            (Self::V1_7, Self::V1_8) => false,
            _ => true,
        }
    }

    /// The version written exactly as `value` (`"1.7"` or `"1.8"`).
    pub open spec fn exact(value: Seq<char>) -> Option<Self> {
        if value == "1.7"@ {
            Some(Self::V1_7)
        } else if value == "1.8"@ {
            Some(Self::V1_8)
        } else {
            None
        }
    }

    /// Parses the header representation; nothing else is accepted.
    pub fn parse_exact(value: &str) -> (r: Result<Self, ApiVersionParseError>)
        ensures
            match Self::exact(value@) {
                Some(v) => r == Ok::<Self, ApiVersionParseError>(v),
                None => r matches Err(e) && e@ == value@,
            },
    {
        let chars = chars_of(value);
        if chars_eq_str(chars.as_slice(), "1.7") {
            Ok(Self::V1_7)
        } else if chars_eq_str(chars.as_slice(), "1.8") {
            Ok(Self::V1_8)
        } else {
            Err(ApiVersionParseError::new(value))
        }
    }

    /// The newest contract that can be requested of a service reporting
    /// `value`: the text must be two `.`-separated unsigned 16-bit numbers,
    /// the major one equal to the current major version and the minor one no
    /// older than the minimum supported; 1.7 resolves to 1.7 and every newer
    /// minor version to the current contract.
    pub open spec fn observed(value: Seq<char>) -> Option<Self> {
        let parts = split_spec(value, '.');
        if parts.len() != 2 {
            None
        } else {
            match (parse_unsigned_spec(parts[0], 65535), parse_unsigned_spec(parts[1], 65535)) {
                (Some(major), Some(minor)) => {
                    if major != 1 || minor < 7 {
                        None
                    } else if minor == 7 {
                        Some(Self::V1_7)
                    } else {
                        Some(Self::CURRENT)
                    }
                },
                _ => None,
            }
        }
    }

    /// Resolves an observed response contract to the newest contract this
    /// crate can safely request. Newer minor versions remain compatible
    /// through Keygen's version pinning, while a different major version
    /// does not.
    pub fn resolve_observed(value: &str) -> (r: Result<Self, ApiVersionParseError>)
        ensures
            match Self::observed(value@) {
                Some(v) => r == Ok::<Self, ApiVersionParseError>(v),
                None => r matches Err(e) && e@ == value@,
            },
    {
        let chars = chars_of(value);
        let parts = split_chars(chars.as_slice(), '.');
        if parts.len() != 2 {
            return Err(ApiVersionParseError::new(value));
        }
        let major = parse_unsigned(parts[0].as_slice(), 65535);
        let minor = parse_unsigned(parts[1].as_slice(), 65535);
        match (major, minor) {
            (Some(major), Some(minor)) => {
                if major != 1 || minor < 7 {
                    Err(ApiVersionParseError::new(value))
                } else if minor == 7 {
                    Ok(Self::V1_7)
                } else {
                    Ok(Self::CURRENT)
                }
            },
            _ => Err(ApiVersionParseError::new(value)),
        }
    }
}

/// Parsing the header text of a version gives that version back.
pub proof fn law_exact_round_trip(v: ApiContractVersion)
    ensures
        ApiContractVersion::exact(v.text()) == Some(v),
{
    reveal_strlit("1.7");
    reveal_strlit("1.8");
    assert("1.7"@[2] != "1.8"@[2]);
}

proof fn lemma_text_fields(v: ApiContractVersion)
    ensures
        split_spec(v.text(), '.') =~= seq![seq!['1'], seq![if v == ApiContractVersion::V1_7 { '7' } else { '8' }]],
{
    reveal_strlit("1.7");
    reveal_strlit("1.8");
    let t = v.text();
    assert(t.drop_last().drop_last().drop_last() =~= Seq::<char>::empty());
    assert(t.drop_last().drop_last() =~= seq!['1']);
    assert(t.drop_last() =~= seq!['1', '.']);
    reveal_with_fuel(split_spec, 4);
}

/// Resolving the header text of a version as an observed contract gives
/// that version back.
pub proof fn law_observed_round_trip(v: ApiContractVersion)
    ensures
        ApiContractVersion::observed(v.text()) == Some(v),
{
    lemma_text_fields(v);
    let d = if v == ApiContractVersion::V1_7 { '7' } else { '8' };
    assert(unsigned_digits(seq!['1']) =~= seq!['1']);
    assert(unsigned_digits(seq![d]) =~= seq![d]);
    assert(seq!['1'].drop_last() =~= Seq::<char>::empty());
    assert(seq![d].drop_last() =~= Seq::<char>::empty());
    assert(('1' as u32) - ('0' as u32) == 1);
    assert(('7' as u32) - ('0' as u32) == 7);
    assert(('8' as u32) - ('0' as u32) == 8);
    assert(digits_value(Seq::<char>::empty()) == 0);
    assert(seq!['1'].last() == '1');
    assert(seq![d].last() == d);
    assert(digits_value(seq!['1']) == 1);
    assert(digits_value(seq![d]) == if v == ApiContractVersion::V1_7 { 7nat } else { 8nat });
}

/// Whatever the exact header parser accepts, resolution as an observed
/// contract accepts too, with the same result.
pub proof fn law_exact_implies_observed(value: Seq<char>)
    requires
        ApiContractVersion::exact(value) is Some,
    ensures
        ApiContractVersion::observed(value) == ApiContractVersion::exact(value),
{
    let v = ApiContractVersion::exact(value).unwrap();
    law_exact_round_trip(v);
    reveal_strlit("1.7");
    reveal_strlit("1.8");
    assert(value == v.text());
    law_observed_round_trip(v);
}

impl Default for ApiContractVersion {
    fn default() -> (r: Self)
        ensures
            r == Self::CURRENT,
    {
        Self::CURRENT
    }
}

impl std::str::FromStr for ApiContractVersion {
    type Err = ApiVersionParseError;

    /// Parses the header representation, as `parse_exact` does.
    fn from_str(value: &str) -> (r: Result<Self, Self::Err>)
        ensures
            match Self::exact(value@) {
                Some(v) => r == Ok::<Self, ApiVersionParseError>(v),
                None => r matches Err(e) && e@ == value@,
            },
    {
        Self::parse_exact(value)
    }
}

/// The text of a version that this crate does not support.
#[derive(Debug, Clone, PartialEq, Eq)]
pub struct ApiVersionParseError {
    value: String,
}

impl View for ApiVersionParseError {
    type V = Seq<char>;

    /// The rejected text.
    closed spec fn view(&self) -> Seq<char> {
        self.value@
    }
}

impl ApiVersionParseError {
    fn new(value: &str) -> (r: Self)
        ensures
            r@ == value@,
    {
        Self { value: to_string(value) }
    }

    /// The rejected text.
    pub fn value(&self) -> (r: &str)
        ensures
            r@ == self@,
    {
        self.value.as_str()
    }

    /// The human-readable description of the error.
    pub fn message(&self) -> (r: String)
        ensures
            r@ == "unsupported Keygen API version '"@ + self@
                + "'; supported versions are 1.7 and 1.8"@,
    {
        let mut out = to_string("unsupported Keygen API version '");
        out.append(self.value.as_str());
        out.append("'; supported versions are 1.7 and 1.8");
        out
    }
}

} // verus!
