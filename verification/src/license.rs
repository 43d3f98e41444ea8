//! Licenses: their signing schemes, statuses, validation codes, license-file
//! algorithms and the options sent when validating or checking them out.

use std::collections::HashMap;

use vstd::prelude::*;

use crate::attributes::{
    attribute_views, copy_text, flag_attr, int_attr, opt_chars, opt_i32, push_flag, push_i32,
    push_text, push_update, text_attr, update_attr, AttributeValue, AttributeView,
};
use crate::config::KeygenConfig;
use crate::crypto::{to_uppercase, uppercase};
use crate::errors::Error;
use vstd::utf8::encode_utf8;

use crate::crypto::{parse_urlencoded, urlencoded_pairs};
use crate::headers::pair_views;
use crate::text::{
    chars_eq_str, chars_of, join_spec, join_strings, lemma_split_first_part, slice_range, split_chars, views,
    split_spec, string_of, to_string,
};
use crate::signing::Verifier;

pub use crate::license_request::{LicenseCreateRequest, LicenseTokenCreateRequest, LicenseUpdateRequest};

verus! {

/// An optional field update in API requests: leave the field alone, clear
/// it, or set it to a value.
#[derive(Debug, Clone, PartialEq, Eq)]
pub enum UpdateField<T> {
    /// Do not update this field.
    Keep,
    /// Clear this field (set it to null).
    Clear,
    /// Set this field to a specific value.
    SetTo(T),
}

impl<T> UpdateField<T> {
    /// The update with the value, if any, mapped by `f`.
    pub open spec fn map_view<U>(self, f: spec_fn(T) -> U) -> UpdateField<U> {
        match self {
            UpdateField::Keep => UpdateField::Keep,
            UpdateField::Clear => UpdateField::Clear,
            UpdateField::SetTo(v) => UpdateField::SetTo(f(v)),
        }
    }
}

impl UpdateField<AttributeValue> {
    /// The update of the value's view.
    pub open spec fn view_update(self) -> UpdateField<AttributeView> {
        self.map_view(|v: AttributeValue| v@)
    }

    /// Appends this update to an attribute list under `key`: nothing when
    /// the field is kept, a `null` when it is cleared, the value when it is
    /// set.
    pub fn apply_to(self, attrs: Vec<(String, AttributeValue)>, key: &str) -> (r: Vec<
        (String, AttributeValue),
    >)
        ensures
            attribute_views(r@) == attribute_views(attrs@) + update_attr(key@, self.view_update()),
    {
        push_update(attrs, key, self)
    }
}

impl<T> Default for UpdateField<T> {
    fn default() -> (r: Self)
        ensures
            r is Keep,
    {
        UpdateField::Keep
    }
}

/// The signing or encryption scheme of a license key.
#[derive(Debug, Clone, Copy, PartialEq, Eq, Structural)]
pub enum SchemeCode {
    Ed25519Sign,
    EcdsaP256Sign,
    Rsa2048Pkcs1PssSignV2,
    Rsa2048Pkcs1SignV2,
    Rsa2048Pkcs1Encrypt,
    Rsa2048JwtRs256,
    LegacyEncrypt,
    /// Deprecated.
    Rsa2048Pkcs1PssSign,
    /// Deprecated.
    Rsa2048Pkcs1Sign,
}

impl SchemeCode {
    /// The scheme's code, as the API spells it.
    pub open spec fn code(self) -> Seq<char> {
        match self {
            SchemeCode::Ed25519Sign => "ED25519_SIGN"@,
            SchemeCode::EcdsaP256Sign => "ECDSA_P256_SIGN"@,
            SchemeCode::Rsa2048Pkcs1PssSignV2 => "RSA_2048_PKCS1_PSS_SIGN_V2"@,
            SchemeCode::Rsa2048Pkcs1SignV2 => "RSA_2048_PKCS1_SIGN_V2"@,
            SchemeCode::Rsa2048Pkcs1Encrypt => "RSA_2048_PKCS1_ENCRYPT"@,
            SchemeCode::Rsa2048JwtRs256 => "RSA_2048_JWT_RS256"@,
            SchemeCode::LegacyEncrypt => "LEGACY_ENCRYPT"@,
            SchemeCode::Rsa2048Pkcs1PssSign => "RSA_2048_PKCS1_PSS_SIGN"@,
            SchemeCode::Rsa2048Pkcs1Sign => "RSA_2048_PKCS1_SIGN"@,
        }
    }

    /// The scheme whose code is exactly `c`.
    pub open spec fn with_code(c: Seq<char>) -> Option<Self> {
        if c == "ED25519_SIGN"@ {
            Some(SchemeCode::Ed25519Sign)
        } else if c == "ECDSA_P256_SIGN"@ {
            Some(SchemeCode::EcdsaP256Sign)
        } else if c == "RSA_2048_PKCS1_PSS_SIGN_V2"@ {
            Some(SchemeCode::Rsa2048Pkcs1PssSignV2)
        } else if c == "RSA_2048_PKCS1_SIGN_V2"@ {
            Some(SchemeCode::Rsa2048Pkcs1SignV2)
        } else if c == "RSA_2048_PKCS1_ENCRYPT"@ {
            Some(SchemeCode::Rsa2048Pkcs1Encrypt)
        } else if c == "RSA_2048_JWT_RS256"@ {
            Some(SchemeCode::Rsa2048JwtRs256)
        } else if c == "LEGACY_ENCRYPT"@ {
            Some(SchemeCode::LegacyEncrypt)
        } else if c == "RSA_2048_PKCS1_PSS_SIGN"@ {
            Some(SchemeCode::Rsa2048Pkcs1PssSign)
        } else if c == "RSA_2048_PKCS1_SIGN"@ {
            Some(SchemeCode::Rsa2048Pkcs1Sign)
        } else {
            None
        }
    }

    /// The scheme's code, as the API spells it.
    pub fn as_str(self) -> (r: &'static str)
        ensures
            r@ == self.code(),
    {
        match self {
            SchemeCode::Ed25519Sign => "ED25519_SIGN",
            SchemeCode::EcdsaP256Sign => "ECDSA_P256_SIGN",
            SchemeCode::Rsa2048Pkcs1PssSignV2 => "RSA_2048_PKCS1_PSS_SIGN_V2",
            SchemeCode::Rsa2048Pkcs1SignV2 => "RSA_2048_PKCS1_SIGN_V2",
            SchemeCode::Rsa2048Pkcs1Encrypt => "RSA_2048_PKCS1_ENCRYPT",
            SchemeCode::Rsa2048JwtRs256 => "RSA_2048_JWT_RS256",
            SchemeCode::LegacyEncrypt => "LEGACY_ENCRYPT",
            SchemeCode::Rsa2048Pkcs1PssSign => "RSA_2048_PKCS1_PSS_SIGN",
            SchemeCode::Rsa2048Pkcs1Sign => "RSA_2048_PKCS1_SIGN",
        }
    }

    /// The scheme with the code `code`, if any.
    pub fn from_code(code: &str) -> (r: Option<Self>)
        ensures
            r == Self::with_code(code@),
    {
        let v = chars_of(code);
        let c = v.as_slice();
        if chars_eq_str(c, "ED25519_SIGN") {
            Some(SchemeCode::Ed25519Sign)
        } else if chars_eq_str(c, "ECDSA_P256_SIGN") {
            Some(SchemeCode::EcdsaP256Sign)
        } else if chars_eq_str(c, "RSA_2048_PKCS1_PSS_SIGN_V2") {
            Some(SchemeCode::Rsa2048Pkcs1PssSignV2)
        } else if chars_eq_str(c, "RSA_2048_PKCS1_SIGN_V2") {
            Some(SchemeCode::Rsa2048Pkcs1SignV2)
        } else if chars_eq_str(c, "RSA_2048_PKCS1_ENCRYPT") {
            Some(SchemeCode::Rsa2048Pkcs1Encrypt)
        } else if chars_eq_str(c, "RSA_2048_JWT_RS256") {
            Some(SchemeCode::Rsa2048JwtRs256)
        } else if chars_eq_str(c, "LEGACY_ENCRYPT") {
            Some(SchemeCode::LegacyEncrypt)
        } else if chars_eq_str(c, "RSA_2048_PKCS1_PSS_SIGN") {
            Some(SchemeCode::Rsa2048Pkcs1PssSign)
        } else if chars_eq_str(c, "RSA_2048_PKCS1_SIGN") {
            Some(SchemeCode::Rsa2048Pkcs1Sign)
        } else {
            None
        }
    }
}

/// Reading a scheme's code gives that scheme back.
pub proof fn law_scheme_code_round_trip(s: SchemeCode)
    ensures
        SchemeCode::with_code(s.code()) == Some(s),
{
    reveal_strlit("ED25519_SIGN");
    reveal_strlit("ECDSA_P256_SIGN");
    reveal_strlit("RSA_2048_PKCS1_PSS_SIGN_V2");
    reveal_strlit("RSA_2048_PKCS1_SIGN_V2");
    reveal_strlit("RSA_2048_PKCS1_ENCRYPT");
    reveal_strlit("RSA_2048_JWT_RS256");
    reveal_strlit("LEGACY_ENCRYPT");
    reveal_strlit("RSA_2048_PKCS1_PSS_SIGN");
    reveal_strlit("RSA_2048_PKCS1_SIGN");
    match s {
        SchemeCode::Ed25519Sign => {
        },
        SchemeCode::EcdsaP256Sign => {
            assert("ECDSA_P256_SIGN"@.len() != "ED25519_SIGN"@.len());
        },
        SchemeCode::Rsa2048Pkcs1PssSignV2 => {
            assert("RSA_2048_PKCS1_PSS_SIGN_V2"@.len() != "ED25519_SIGN"@.len());
            assert("RSA_2048_PKCS1_PSS_SIGN_V2"@.len() != "ECDSA_P256_SIGN"@.len());
        },
        SchemeCode::Rsa2048Pkcs1SignV2 => {
            assert("RSA_2048_PKCS1_SIGN_V2"@.len() != "ED25519_SIGN"@.len());
            assert("RSA_2048_PKCS1_SIGN_V2"@.len() != "ECDSA_P256_SIGN"@.len());
            assert("RSA_2048_PKCS1_SIGN_V2"@.len() != "RSA_2048_PKCS1_PSS_SIGN_V2"@.len());
        },
        SchemeCode::Rsa2048Pkcs1Encrypt => {
            assert("RSA_2048_PKCS1_ENCRYPT"@.len() != "ED25519_SIGN"@.len());
            assert("RSA_2048_PKCS1_ENCRYPT"@.len() != "ECDSA_P256_SIGN"@.len());
            assert("RSA_2048_PKCS1_ENCRYPT"@.len() != "RSA_2048_PKCS1_PSS_SIGN_V2"@.len());
            assert("RSA_2048_PKCS1_ENCRYPT"@[15] != "RSA_2048_PKCS1_SIGN_V2"@[15]);
        },
        SchemeCode::Rsa2048JwtRs256 => {
            assert("RSA_2048_JWT_RS256"@.len() != "ED25519_SIGN"@.len());
            assert("RSA_2048_JWT_RS256"@.len() != "ECDSA_P256_SIGN"@.len());
            assert("RSA_2048_JWT_RS256"@.len() != "RSA_2048_PKCS1_PSS_SIGN_V2"@.len());
            assert("RSA_2048_JWT_RS256"@.len() != "RSA_2048_PKCS1_SIGN_V2"@.len());
            assert("RSA_2048_JWT_RS256"@.len() != "RSA_2048_PKCS1_ENCRYPT"@.len());
        },
        SchemeCode::LegacyEncrypt => {
            assert("LEGACY_ENCRYPT"@.len() != "ED25519_SIGN"@.len());
            assert("LEGACY_ENCRYPT"@.len() != "ECDSA_P256_SIGN"@.len());
            assert("LEGACY_ENCRYPT"@.len() != "RSA_2048_PKCS1_PSS_SIGN_V2"@.len());
            assert("LEGACY_ENCRYPT"@.len() != "RSA_2048_PKCS1_SIGN_V2"@.len());
            assert("LEGACY_ENCRYPT"@.len() != "RSA_2048_PKCS1_ENCRYPT"@.len());
            assert("LEGACY_ENCRYPT"@.len() != "RSA_2048_JWT_RS256"@.len());
        },
        SchemeCode::Rsa2048Pkcs1PssSign => {
            assert("RSA_2048_PKCS1_PSS_SIGN"@.len() != "ED25519_SIGN"@.len());
            assert("RSA_2048_PKCS1_PSS_SIGN"@.len() != "ECDSA_P256_SIGN"@.len());
            assert("RSA_2048_PKCS1_PSS_SIGN"@.len() != "RSA_2048_PKCS1_PSS_SIGN_V2"@.len());
            assert("RSA_2048_PKCS1_PSS_SIGN"@.len() != "RSA_2048_PKCS1_SIGN_V2"@.len());
            assert("RSA_2048_PKCS1_PSS_SIGN"@.len() != "RSA_2048_PKCS1_ENCRYPT"@.len());
            assert("RSA_2048_PKCS1_PSS_SIGN"@.len() != "RSA_2048_JWT_RS256"@.len());
            assert("RSA_2048_PKCS1_PSS_SIGN"@.len() != "LEGACY_ENCRYPT"@.len());
        },
        SchemeCode::Rsa2048Pkcs1Sign => {
            assert("RSA_2048_PKCS1_SIGN"@.len() != "ED25519_SIGN"@.len());
            assert("RSA_2048_PKCS1_SIGN"@.len() != "ECDSA_P256_SIGN"@.len());
            assert("RSA_2048_PKCS1_SIGN"@.len() != "RSA_2048_PKCS1_PSS_SIGN_V2"@.len());
            assert("RSA_2048_PKCS1_SIGN"@.len() != "RSA_2048_PKCS1_SIGN_V2"@.len());
            assert("RSA_2048_PKCS1_SIGN"@.len() != "RSA_2048_PKCS1_ENCRYPT"@.len());
            assert("RSA_2048_PKCS1_SIGN"@.len() != "RSA_2048_JWT_RS256"@.len());
            assert("RSA_2048_PKCS1_SIGN"@.len() != "LEGACY_ENCRYPT"@.len());
            assert("RSA_2048_PKCS1_SIGN"@.len() != "RSA_2048_PKCS1_PSS_SIGN"@.len());
        },
    }
}

/// License status as returned by the Keygen API.
#[derive(Debug, Clone, Copy, PartialEq, Eq, Structural)]
pub enum LicenseStatus {
    Active,
    Inactive,
    Expiring,
    Expired,
    Suspended,
    Banned,
}

impl LicenseStatus {
    /// The status spelled (in upper case) as `u`.
    pub open spec fn named(u: Seq<char>) -> Option<Self> {
        if u == "ACTIVE"@ {
            Some(LicenseStatus::Active)
        } else if u == "INACTIVE"@ {
            Some(LicenseStatus::Inactive)
        } else if u == "EXPIRING"@ {
            Some(LicenseStatus::Expiring)
        } else if u == "EXPIRED"@ {
            Some(LicenseStatus::Expired)
        } else if u == "SUSPENDED"@ {
            Some(LicenseStatus::Suspended)
        } else if u == "BANNED"@ {
            Some(LicenseStatus::Banned)
        } else {
            None
        }
    }

    /// Parses a status case-insensitively (by Unicode upper-casing),
    /// returning `None` for unknown values.
    pub fn parse(s: &str) -> (r: Option<Self>)
        ensures
            r == Self::named(uppercase(s@)),
    {
        let upper = to_uppercase(s);
        let u = chars_of(upper.as_str());
        let u = u.as_slice();
        if chars_eq_str(u, "ACTIVE") {
            Some(LicenseStatus::Active)
        } else if chars_eq_str(u, "INACTIVE") {
            Some(LicenseStatus::Inactive)
        } else if chars_eq_str(u, "EXPIRING") {
            Some(LicenseStatus::Expiring)
        } else if chars_eq_str(u, "EXPIRED") {
            Some(LicenseStatus::Expired)
        } else if chars_eq_str(u, "SUSPENDED") {
            Some(LicenseStatus::Suspended)
        } else if chars_eq_str(u, "BANNED") {
            Some(LicenseStatus::Banned)
        } else {
            None
        }
    }
}

/// The outcome code of a license validation.
#[derive(Debug, Clone, Copy, PartialEq, Eq, Structural)]
#[non_exhaustive]
pub enum LicenseValidationCode {
    Valid,
    NotFound,
    Suspended,
    Expired,
    Overdue,
    HeartbeatDead,
    HeartbeatNotStarted,
    FingerprintScopeRequired,
    FingerprintScopeEmpty,
    FingerprintScopeMismatch,
    ComponentsScopeRequired,
    ComponentsScopeMismatch,
    MachineScopeRequired,
    MachineScopeMismatch,
    NoMachine,
    NoMachines,
    UserScopeRequired,
    UserScopeMismatch,
    ProductScopeRequired,
    ProductScopeMismatch,
    PolicyScopeRequired,
    PolicyScopeMismatch,
    EntitlementsScopeEmpty,
    EntitlementsMissing,
    ChecksumScopeRequired,
    ChecksumScopeMismatch,
    VersionScopeRequired,
    VersionScopeMismatch,
    TooManyMachines,
    TooManyCores,
    TooManyProcesses,
    TooManyUsers,
    TooMuchMemory,
    TooMuchDisk,
    Unknown,
}

impl LicenseValidationCode {
    /// The documented code spelled exactly as `c`; `Unknown` for any other.
    pub open spec fn named(c: Seq<char>) -> Self {
        if c == "VALID"@ {
            Self::Valid
        } else if c == "NOT_FOUND"@ {
            Self::NotFound
        } else if c == "SUSPENDED"@ {
            Self::Suspended
        } else if c == "EXPIRED"@ {
            Self::Expired
        } else if c == "OVERDUE"@ {
            Self::Overdue
        } else if c == "HEARTBEAT_DEAD"@ {
            Self::HeartbeatDead
        } else if c == "HEARTBEAT_NOT_STARTED"@ {
            Self::HeartbeatNotStarted
        } else if c == "FINGERPRINT_SCOPE_REQUIRED"@ {
            Self::FingerprintScopeRequired
        } else if c == "FINGERPRINT_SCOPE_EMPTY"@ {
            Self::FingerprintScopeEmpty
        } else if c == "FINGERPRINT_SCOPE_MISMATCH"@ {
            Self::FingerprintScopeMismatch
        } else if c == "COMPONENTS_SCOPE_REQUIRED"@ {
            Self::ComponentsScopeRequired
        } else if c == "COMPONENTS_SCOPE_MISMATCH"@ {
            Self::ComponentsScopeMismatch
        } else if c == "MACHINE_SCOPE_REQUIRED"@ {
            Self::MachineScopeRequired
        } else if c == "MACHINE_SCOPE_MISMATCH"@ {
            Self::MachineScopeMismatch
        } else if c == "NO_MACHINE"@ {
            Self::NoMachine
        } else if c == "NO_MACHINES"@ {
            Self::NoMachines
        } else if c == "USER_SCOPE_REQUIRED"@ {
            Self::UserScopeRequired
        } else if c == "USER_SCOPE_MISMATCH"@ {
            Self::UserScopeMismatch
        } else if c == "PRODUCT_SCOPE_REQUIRED"@ {
            Self::ProductScopeRequired
        } else if c == "PRODUCT_SCOPE_MISMATCH"@ {
            Self::ProductScopeMismatch
        } else if c == "POLICY_SCOPE_REQUIRED"@ {
            Self::PolicyScopeRequired
        } else if c == "POLICY_SCOPE_MISMATCH"@ {
            Self::PolicyScopeMismatch
        } else if c == "ENTITLEMENTS_SCOPE_EMPTY"@ {
            Self::EntitlementsScopeEmpty
        } else if c == "ENTITLEMENTS_MISSING"@ {
            Self::EntitlementsMissing
        } else if c == "CHECKSUM_SCOPE_REQUIRED"@ {
            Self::ChecksumScopeRequired
        } else if c == "CHECKSUM_SCOPE_MISMATCH"@ {
            Self::ChecksumScopeMismatch
        } else if c == "VERSION_SCOPE_REQUIRED"@ {
            Self::VersionScopeRequired
        } else if c == "VERSION_SCOPE_MISMATCH"@ {
            Self::VersionScopeMismatch
        } else if c == "TOO_MANY_MACHINES"@ {
            Self::TooManyMachines
        } else if c == "TOO_MANY_CORES"@ {
            Self::TooManyCores
        } else if c == "TOO_MANY_PROCESSES"@ {
            Self::TooManyProcesses
        } else if c == "TOO_MANY_USERS"@ {
            Self::TooManyUsers
        } else if c == "TOO_MUCH_MEMORY"@ {
            Self::TooMuchMemory
        } else if c == "TOO_MUCH_DISK"@ {
            Self::TooMuchDisk
        } else {
            Self::Unknown
        }
    }

    /// Classifies a raw validation code; unknown codes give `Unknown`.
    pub fn parse(code: &str) -> (r: Self)
        ensures
            r == Self::named(code@),
    {
        let v = chars_of(code);
        let c = v.as_slice();
        if chars_eq_str(c, "VALID") {
            Self::Valid
        } else if chars_eq_str(c, "NOT_FOUND") {
            Self::NotFound
        } else if chars_eq_str(c, "SUSPENDED") {
            Self::Suspended
        } else if chars_eq_str(c, "EXPIRED") {
            Self::Expired
        } else if chars_eq_str(c, "OVERDUE") {
            Self::Overdue
        } else if chars_eq_str(c, "HEARTBEAT_DEAD") {
            Self::HeartbeatDead
        } else if chars_eq_str(c, "HEARTBEAT_NOT_STARTED") {
            Self::HeartbeatNotStarted
        } else if chars_eq_str(c, "FINGERPRINT_SCOPE_REQUIRED") {
            Self::FingerprintScopeRequired
        } else if chars_eq_str(c, "FINGERPRINT_SCOPE_EMPTY") {
            Self::FingerprintScopeEmpty
        } else if chars_eq_str(c, "FINGERPRINT_SCOPE_MISMATCH") {
            Self::FingerprintScopeMismatch
        } else if chars_eq_str(c, "COMPONENTS_SCOPE_REQUIRED") {
            Self::ComponentsScopeRequired
        } else if chars_eq_str(c, "COMPONENTS_SCOPE_MISMATCH") {
            Self::ComponentsScopeMismatch
        } else if chars_eq_str(c, "MACHINE_SCOPE_REQUIRED") {
            Self::MachineScopeRequired
        } else if chars_eq_str(c, "MACHINE_SCOPE_MISMATCH") {
            Self::MachineScopeMismatch
        } else if chars_eq_str(c, "NO_MACHINE") {
            Self::NoMachine
        } else if chars_eq_str(c, "NO_MACHINES") {
            Self::NoMachines
        } else if chars_eq_str(c, "USER_SCOPE_REQUIRED") {
            Self::UserScopeRequired
        } else if chars_eq_str(c, "USER_SCOPE_MISMATCH") {
            Self::UserScopeMismatch
        } else if chars_eq_str(c, "PRODUCT_SCOPE_REQUIRED") {
            Self::ProductScopeRequired
        } else if chars_eq_str(c, "PRODUCT_SCOPE_MISMATCH") {
            Self::ProductScopeMismatch
        } else if chars_eq_str(c, "POLICY_SCOPE_REQUIRED") {
            Self::PolicyScopeRequired
        } else if chars_eq_str(c, "POLICY_SCOPE_MISMATCH") {
            Self::PolicyScopeMismatch
        } else if chars_eq_str(c, "ENTITLEMENTS_SCOPE_EMPTY") {
            Self::EntitlementsScopeEmpty
        } else if chars_eq_str(c, "ENTITLEMENTS_MISSING") {
            Self::EntitlementsMissing
        } else if chars_eq_str(c, "CHECKSUM_SCOPE_REQUIRED") {
            Self::ChecksumScopeRequired
        } else if chars_eq_str(c, "CHECKSUM_SCOPE_MISMATCH") {
            Self::ChecksumScopeMismatch
        } else if chars_eq_str(c, "VERSION_SCOPE_REQUIRED") {
            Self::VersionScopeRequired
        } else if chars_eq_str(c, "VERSION_SCOPE_MISMATCH") {
            Self::VersionScopeMismatch
        } else if chars_eq_str(c, "TOO_MANY_MACHINES") {
            Self::TooManyMachines
        } else if chars_eq_str(c, "TOO_MANY_CORES") {
            Self::TooManyCores
        } else if chars_eq_str(c, "TOO_MANY_PROCESSES") {
            Self::TooManyProcesses
        } else if chars_eq_str(c, "TOO_MANY_USERS") {
            Self::TooManyUsers
        } else if chars_eq_str(c, "TOO_MUCH_MEMORY") {
            Self::TooMuchMemory
        } else if chars_eq_str(c, "TOO_MUCH_DISK") {
            Self::TooMuchDisk
        } else {
            Self::Unknown
        }
    }
}

/// The scope a license is validated against.
#[derive(Debug, Clone, Default)]
pub struct LicenseValidationScope {
    pub product: Option<String>,
    pub policy: Option<String>,
    pub fingerprints: Option<Vec<String>>,
    pub fingerprint: Option<String>,
    pub components: Option<Vec<String>>,
    pub machine: Option<String>,
    pub user: Option<String>,
    pub entitlements: Option<Vec<String>>,
    pub checksum: Option<String>,
    pub version: Option<String>,
}

impl LicenseValidationScope {
    /// A scope that restricts nothing.
    pub fn empty() -> (r: Self)
        ensures
            r.product is None,
            r.policy is None,
            r.fingerprints is None,
            r.fingerprint is None,
            r.components is None,
            r.machine is None,
            r.user is None,
            r.entitlements is None,
            r.checksum is None,
            r.version is None,
    {
        LicenseValidationScope {
            product: None,
            policy: None,
            fingerprints: None,
            fingerprint: None,
            components: None,
            machine: None,
            user: None,
            entitlements: None,
            checksum: None,
            version: None,
        }
    }
}

/// The license a validation answer yields: the license when the answer is
/// valid and carries one; otherwise `LicenseKeyInvalid` with the answer's
/// code and detail.
pub fn validated_license<T>(valid: bool, license: Option<T>, code: String, detail: String) -> (r: Result<
    T,
    Error,
>)
    ensures
        match license {
            Some(l) if valid => r == Ok::<T, Error>(l),
            _ => r == Err::<T, Error>(Error::LicenseKeyInvalid { code, detail }),
        },
{
    if !valid {
        return Err(Error::LicenseKeyInvalid { code, detail });
    }
    match license {
        Some(l) => Ok(l),
        None => Err(Error::LicenseKeyInvalid { code, detail }),
    }
}

/// A license validation request: an optional nonce and a scope.
#[derive(Debug, Clone, Default)]
pub struct LicenseValidationRequest {
    pub nonce: Option<i64>,
    pub scope: LicenseValidationScope,
}

impl LicenseValidationRequest {
    /// A request for `scope`, without a nonce.
    pub fn new(scope: LicenseValidationScope) -> (r: Self)
        ensures
            r.nonce is None,
            r.scope == scope,
    {
        Self { nonce: None, scope }
    }

    /// A request scoped to a single machine fingerprint and nothing else.
    pub fn for_fingerprint(fingerprint: String) -> (r: Self)
        ensures
            r.nonce is None,
            r.scope.fingerprint == Some(fingerprint),
            r.scope.product is None,
            r.scope.policy is None,
            r.scope.fingerprints is None,
            r.scope.components is None,
            r.scope.machine is None,
            r.scope.user is None,
            r.scope.entitlements is None,
            r.scope.checksum is None,
            r.scope.version is None,
    {
        let mut scope = LicenseValidationScope::empty();
        scope.fingerprint = Some(fingerprint);
        Self::new(scope)
    }
}

/// The algorithm of a license or machine file: how the dataset is carried
/// (AES-256-GCM encrypted or base64 encoded) and how it is signed.
#[derive(Debug, Clone, Copy, PartialEq, Eq, Structural)]
pub enum LicenseFileAlgorithm {
    Aes256GcmEd25519,
    Aes256GcmEcdsaP256,
    Aes256GcmRsaPssSha256,
    Aes256GcmRsaSha256,
    Base64Ed25519,
    Base64EcdsaP256,
    Base64RsaPssSha256,
    Base64RsaSha256,
}

impl LicenseFileAlgorithm {
    /// The code of the algorithm, as license files and the API spell it.
    pub open spec fn code(self) -> Seq<char> {
        match self {
            Self::Aes256GcmEd25519 => "aes-256-gcm+ed25519"@,
            Self::Aes256GcmEcdsaP256 => "aes-256-gcm+ecdsa-p256"@,
            Self::Aes256GcmRsaPssSha256 => "aes-256-gcm+rsa-pss-sha256"@,
            Self::Aes256GcmRsaSha256 => "aes-256-gcm+rsa-sha256"@,
            Self::Base64Ed25519 => "base64+ed25519"@,
            Self::Base64EcdsaP256 => "base64+ecdsa-p256"@,
            Self::Base64RsaPssSha256 => "base64+rsa-pss-sha256"@,
            Self::Base64RsaSha256 => "base64+rsa-sha256"@,
        }
    }

    /// Whether the dataset is AES-256-GCM encrypted.
    pub open spec fn encrypted(self) -> bool {
        match self {
            Self::Aes256GcmEd25519 | Self::Aes256GcmEcdsaP256 | Self::Aes256GcmRsaPssSha256
            | Self::Aes256GcmRsaSha256 => true,
            _ => false,
        }
    }

    /// The algorithm whose code is exactly `c`.
    pub open spec fn with_code(c: Seq<char>) -> Option<Self> {
        if c == "aes-256-gcm+ed25519"@ {
            Some(Self::Aes256GcmEd25519)
        } else if c == "aes-256-gcm+ecdsa-p256"@ {
            Some(Self::Aes256GcmEcdsaP256)
        } else if c == "aes-256-gcm+rsa-pss-sha256"@ {
            Some(Self::Aes256GcmRsaPssSha256)
        } else if c == "aes-256-gcm+rsa-sha256"@ {
            Some(Self::Aes256GcmRsaSha256)
        } else if c == "base64+ed25519"@ {
            Some(Self::Base64Ed25519)
        } else if c == "base64+ecdsa-p256"@ {
            Some(Self::Base64EcdsaP256)
        } else if c == "base64+rsa-pss-sha256"@ {
            Some(Self::Base64RsaPssSha256)
        } else if c == "base64+rsa-sha256"@ {
            Some(Self::Base64RsaSha256)
        } else {
            None
        }
    }

    /// The code of the algorithm.
    pub fn as_str(self) -> (r: &'static str)
        ensures
            r@ == self.code(),
    {
        match self {
            Self::Aes256GcmEd25519 => "aes-256-gcm+ed25519",
            Self::Aes256GcmEcdsaP256 => "aes-256-gcm+ecdsa-p256",
            Self::Aes256GcmRsaPssSha256 => "aes-256-gcm+rsa-pss-sha256",
            Self::Aes256GcmRsaSha256 => "aes-256-gcm+rsa-sha256",
            Self::Base64Ed25519 => "base64+ed25519",
            Self::Base64EcdsaP256 => "base64+ecdsa-p256",
            Self::Base64RsaPssSha256 => "base64+rsa-pss-sha256",
            Self::Base64RsaSha256 => "base64+rsa-sha256",
        }
    }

    /// Whether the dataset is AES-256-GCM encrypted.
    pub fn is_encrypted(self) -> (r: bool)
        ensures
            r == self.encrypted(),
    {
        match self {
            Self::Aes256GcmEd25519 | Self::Aes256GcmEcdsaP256 | Self::Aes256GcmRsaPssSha256
            | Self::Aes256GcmRsaSha256 => true,
            _ => false,
        }
    }

    /// The algorithm with the code `code`, if any.
    pub fn from_code(code: &str) -> (r: Option<Self>)
        ensures
            r == Self::with_code(code@),
    {
        let v = chars_of(code);
        let c = v.as_slice();
        if chars_eq_str(c, "aes-256-gcm+ed25519") {
            Some(Self::Aes256GcmEd25519)
        } else if chars_eq_str(c, "aes-256-gcm+ecdsa-p256") {
            Some(Self::Aes256GcmEcdsaP256)
        } else if chars_eq_str(c, "aes-256-gcm+rsa-pss-sha256") {
            Some(Self::Aes256GcmRsaPssSha256)
        } else if chars_eq_str(c, "aes-256-gcm+rsa-sha256") {
            Some(Self::Aes256GcmRsaSha256)
        } else if chars_eq_str(c, "base64+ed25519") {
            Some(Self::Base64Ed25519)
        } else if chars_eq_str(c, "base64+ecdsa-p256") {
            Some(Self::Base64EcdsaP256)
        } else if chars_eq_str(c, "base64+rsa-pss-sha256") {
            Some(Self::Base64RsaPssSha256)
        } else if chars_eq_str(c, "base64+rsa-sha256") {
            Some(Self::Base64RsaSha256)
        } else {
            None
        }
    }
}

/// Reading an algorithm's code gives that algorithm back, and the code
/// names an encrypted dataset exactly when it begins with `aes-256-gcm+`.
pub proof fn law_algorithm_code_round_trip(a: LicenseFileAlgorithm)
    ensures
        LicenseFileAlgorithm::with_code(a.code()) == Some(a),
        a.encrypted() <==> a.code().take(12) == "aes-256-gcm+"@,
{
    reveal_strlit("aes-256-gcm+ed25519");
    reveal_strlit("aes-256-gcm+ecdsa-p256");
    reveal_strlit("aes-256-gcm+rsa-pss-sha256");
    reveal_strlit("aes-256-gcm+rsa-sha256");
    reveal_strlit("base64+ed25519");
    reveal_strlit("base64+ecdsa-p256");
    reveal_strlit("base64+rsa-pss-sha256");
    reveal_strlit("base64+rsa-sha256");
    reveal_strlit("aes-256-gcm+");
    let c = a.code();
    assert("aes-256-gcm+ecdsa-p256"@[12] != "aes-256-gcm+rsa-sha256"@[12]);
    assert("base64+ecdsa-p256"@[7] != "base64+rsa-sha256"@[7]);
    if a.encrypted() {
        assert(c.take(12) =~= "aes-256-gcm+"@);
    } else {
        assert(c[0] == 'b');
        assert(c.take(12)[0] != "aes-256-gcm+"@[0]);
    }
}

/// A license as far as offline verification reads it: its id, the scheme
/// its key was signed with, and the key.
#[derive(Debug, Clone)]
pub struct License {
    pub id: String,
    pub scheme: Option<SchemeCode>,
    pub key: String,
}

impl License {
    /// A license known only by its (signed) key and the key's scheme.
    pub fn from_signed_key(scheme: SchemeCode, signed_key: &str) -> (r: License)
        ensures
            r.id@ == Seq::<char>::empty(),
            r.scheme == Some(scheme),
            r.key@ == signed_key@,
    {
        License { id: String::new(), scheme: Some(scheme), key: to_string(signed_key) }
    }

    /// A license known only by its key.
    pub fn from_key(key: &str) -> (r: License)
        ensures
            r.id@ == Seq::<char>::empty(),
            r.scheme is None,
            r.key@ == key@,
    {
        License { id: String::new(), scheme: None, key: to_string(key) }
    }

    /// A license known only by its id.
    pub fn from_id(id: &str) -> (r: License)
        ensures
            r.id@ == id@,
            r.scheme is None,
            r.key@ == Seq::<char>::empty(),
    {
        License { id: to_string(id), scheme: None, key: String::new() }
    }

    /// Verifies the signed key offline against the public key of `config`:
    /// an unsigned license is refused, a missing public key is an error, and
    /// otherwise the verifier decides.
    pub fn verify(&self, config: &KeygenConfig) -> (r: Result<Vec<u8>, Error>)
        ensures
            self.scheme is None ==> r matches Err(Error::LicenseNotSigned),
            self.scheme is Some && config.public_key is None ==> r matches Err(
                Error::PublicKeyMissing,
            ),
            self.scheme is Some && config.public_key is Some ==> crate::signing::license_outcome(
                config.public_key.unwrap()@,
                self.scheme,
                self.key@,
                r,
            ),
    {
        if self.scheme.is_none() {
            return Err(Error::LicenseNotSigned);
        }
        match &config.public_key {
            Some(public_key) => {
                let verifier = Verifier::new(public_key.clone());
                verifier.verify_license(self)
            },
            None => Err(Error::PublicKeyMissing),
        }
    }
}

/// The value sent for the `ttl` query parameter of a checkout.
#[derive(Debug, Clone, Copy, PartialEq, Eq, Structural)]
pub enum CheckoutTtl {
    /// `ttl=null`: a file that never expires.
    Null,
    /// `ttl=<seconds>`.
    Seconds(i64),
}

/// The query parameters of a license checkout.
#[derive(Debug, Clone)]
pub struct CheckoutQuery {
    pub ttl: Option<CheckoutTtl>,
    pub included: Option<String>,
    pub encrypt: Option<bool>,
    pub algorithm: Option<LicenseFileAlgorithm>,
}

/// Options for checking out a license file.
#[derive(Debug, Clone, Default)]
pub struct LicenseCheckoutOpts {
    pub ttl: UpdateField<i64>,
    pub included: Option<Vec<String>>,
    pub encrypt: Option<bool>,
    pub algorithm: Option<LicenseFileAlgorithm>,
}

impl LicenseCheckoutOpts {
    /// Checkout options with default settings.
    pub fn new() -> (r: Self)
        ensures
            r.ttl is Keep,
            r.included is None,
            r.encrypt is None,
            r.algorithm is None,
    {
        Self { ttl: UpdateField::Keep, included: None, encrypt: None, algorithm: None }
    }

    /// Checkout options with a TTL in seconds.
    pub fn with_ttl(ttl: i64) -> (r: Self)
        ensures
            r.ttl == UpdateField::SetTo(ttl),
            r.included is None,
            r.encrypt is None,
            r.algorithm is None,
    {
        Self { ttl: UpdateField::SetTo(ttl), included: None, encrypt: None, algorithm: None }
    }

    /// Checkout options for a file that never expires.
    pub fn perpetual() -> (r: Self)
        ensures
            r.ttl is Clear,
            r.included is None,
            r.encrypt is None,
            r.algorithm is None,
    {
        Self { ttl: UpdateField::Clear, included: None, encrypt: None, algorithm: None }
    }

    /// Checkout options including the given relationships.
    pub fn with_include(included: Vec<String>) -> (r: Self)
        ensures
            r.ttl is Keep,
            r.included == Some(included),
            r.encrypt is None,
            r.algorithm is None,
    {
        Self { ttl: UpdateField::Keep, included: Some(included), encrypt: None, algorithm: None }
    }

    /// These options, asking for an encrypted (or unencrypted) file.
    pub fn with_encrypt(self, encrypt: bool) -> (r: Self)
        ensures
            r.ttl == self.ttl,
            r.included == self.included,
            r.encrypt == Some(encrypt),
            r.algorithm == self.algorithm,
    {
        let mut s = self;
        s.encrypt = Some(encrypt);
        s
    }

    /// These options, asking for a file of the given algorithm.
    pub fn with_algorithm(self, algorithm: LicenseFileAlgorithm) -> (r: Self)
        ensures
            r.ttl == self.ttl,
            r.included == self.included,
            r.encrypt == self.encrypt,
            r.algorithm == Some(algorithm),
    {
        let mut s = self;
        s.algorithm = Some(algorithm);
        s
    }

    /// The checkout query: `encrypt` and `algorithm` together are refused;
    /// otherwise `ttl` follows the update field, `included` is the included
    /// relationships joined with commas, and `encrypt` and `algorithm` pass
    /// through.
    pub fn to_query(&self) -> (r: Result<CheckoutQuery, Error>)
        ensures
            self.encrypt is Some && self.algorithm is Some ==> r matches Err(
                Error::UnexpectedError(_),
            ),
            !(self.encrypt is Some && self.algorithm is Some) ==> (r matches Ok(q) && q.ttl == (
            match self.ttl {
                UpdateField::Keep => None,
                UpdateField::Clear => Some(CheckoutTtl::Null),
                UpdateField::SetTo(t) => Some(CheckoutTtl::Seconds(t)),
            }) && q.encrypt == self.encrypt && q.algorithm == self.algorithm && (match self.included {
                Some(v) => (q.included matches Some(s) && s@ == join_spec(v.deep_view(), ',')),
                None => q.included is None,
            })),
    {
        if self.encrypt.is_some() && self.algorithm.is_some() {
            return Err(
                Error::UnexpectedError(
                    to_string("checkout encrypt and algorithm are mutually exclusive"),
                ),
            );
        }
        let ttl = match self.ttl {
            UpdateField::Keep => None,
            UpdateField::Clear => Some(CheckoutTtl::Null),
            UpdateField::SetTo(t) => Some(CheckoutTtl::Seconds(t)),
        };
        let included = match &self.included {
            Some(v) => Some(join_strings(v, ',')),
            None => None,
        };
        Ok(CheckoutQuery { ttl, included, encrypt: self.encrypt, algorithm: self.algorithm })
    }
}

/// The query parameters of a cursor-paginated listing.
#[derive(Debug, Clone, PartialEq, Eq)]
pub struct CursorPageQuery {
    pub limit: Option<i32>,
    pub page_cursor: Option<String>,
    pub page_size: Option<i32>,
}

/// Cursor pagination: `limit` falls back to `default_limit`; a cursor is
/// sent (empty when none is given) as soon as a page size or a cursor is
/// given.
pub fn cursor_pagination_query(
    limit: Option<i32>,
    page_size: Option<i32>,
    page_cursor: Option<&str>,
    default_limit: Option<i32>,
) -> (r: CursorPageQuery)
    ensures
        r.limit == (if limit is Some {
            limit
        } else {
            default_limit
        }),
        r.page_size == page_size,
        (page_size is Some || page_cursor is Some) ==> (r.page_cursor matches Some(c) && c@ == (
        match page_cursor {
            Some(p) => p@,
            None => Seq::<char>::empty(),
        })),
        !(page_size is Some || page_cursor is Some) ==> r.page_cursor is None,
{
    let limit = match limit {
        Some(l) => Some(l),
        None => default_limit,
    };
    let page_cursor = if page_size.is_some() || page_cursor.is_some() {
        match page_cursor {
            Some(c) => Some(to_string(c)),
            None => Some(String::new()),
        }
    } else {
        None
    };
    CursorPageQuery { limit, page_cursor, page_size }
}


/// Whether `r` is the cursor query of a listing asked for with `limit`,
/// `page_size` and `page_cursor`: the limit falls back to `default_limit`,
/// and a cursor is sent (empty when none is given) as soon as a page size
/// or a cursor is given.
pub open spec fn is_cursor_query(
    r: CursorPageQuery,
    limit: Option<i32>,
    page_size: Option<i32>,
    page_cursor: Option<Seq<char>>,
    default_limit: Option<i32>,
) -> bool {
    &&& r.limit == (if limit is Some {
        limit
    } else {
        default_limit
    })
    &&& r.page_size == page_size
    &&& opt_chars(r.page_cursor) == (if page_size is Some || page_cursor is Some {
        Some(
            match page_cursor {
                Some(p) => p,
                None => Seq::<char>::empty(),
            },
        )
    } else {
        None
    })
}

/// Cursor pagination for the resources listed under a license.
#[derive(Debug, Default)]
pub struct PaginationOptions {
    pub limit: Option<i32>,
    pub page_size: Option<i32>,
    pub page_cursor: Option<String>,
}

impl PaginationOptions {
    /// The query of a listing with `options` (or with none), the limit
    /// falling back to `default_limit`.
    pub fn page_query(options: Option<&PaginationOptions>, default_limit: Option<i32>) -> (r: CursorPageQuery)
        ensures
            match options {
                Some(o) => is_cursor_query(r, o.limit, o.page_size, opt_chars(o.page_cursor), default_limit),
                None => is_cursor_query(r, None, None, None, default_limit),
            },
    {
        match options {
            Some(o) => {
                let cursor = match &o.page_cursor {
                    Some(c) => Some(c.as_str()),
                    None => None,
                };
                cursor_pagination_query(o.limit, o.page_size, cursor, default_limit)
            },
            None => cursor_pagination_query(None, None, None, default_limit),
        }
    }
}

impl CursorPageQuery {
    /// The query parameters, in order: the limit, the cursor and the page
    /// size that are set.
    pub fn attributes(&self) -> (r: Vec<(String, AttributeValue)>)
        ensures
            attribute_views(r@) === page_query_attributes(*self, Seq::empty()),
    {
        let mut attrs: Vec<(String, AttributeValue)> = Vec::new();
        assert(attribute_views(attrs@) =~= Seq::empty()) by {
            reveal(attribute_views);
        }
        attrs = push_i32(attrs, "limit", self.limit);
        attrs = push_text(attrs, "page[cursor]", copy_text(&self.page_cursor));
        attrs = push_i32(attrs, "page[size]", self.page_size);
        attrs
    }
}

/// Bounds on a count; each set bound is sent as `<name>[<bound>]`.
#[derive(Debug, Clone, Default)]
pub struct NumericFilter {
    pub eq: Option<i32>,
    pub gt: Option<i32>,
    pub gte: Option<i32>,
    pub lt: Option<i32>,
    pub lte: Option<i32>,
}

/// A window of dates; each set bound is sent as `<name>[<bound>]`.
#[derive(Debug, Clone, Default)]
pub struct DateWindowFilter {
    pub within: Option<String>,
    pub on: Option<String>,
    pub before: Option<String>,
    pub after: Option<String>,
}

/// A window of license activity; each set bound is sent as
/// `activity[<bound>]`.
#[derive(Debug, Clone, Default)]
pub struct LicenseActivityFilter {
    pub inside: Option<String>,
    pub outside: Option<String>,
    pub before: Option<String>,
    pub after: Option<String>,
}

/// Filters and cursor pagination for listing licenses.
#[derive(Debug, Default)]
pub struct LicenseListOptions {
    pub limit: Option<i32>,
    pub page_size: Option<i32>,
    pub page_cursor: Option<String>,
    pub status: Option<String>,
    pub product: Option<String>,
    pub policy: Option<String>,
    pub owner: Option<String>,
    pub user: Option<String>,
    pub group: Option<String>,
    pub machine: Option<String>,
    pub assigned: Option<bool>,
    pub unassigned: Option<bool>,
    pub activated: Option<bool>,
    pub metadata: Option<HashMap<String, serde_json::Value>>,
    pub activations: Option<NumericFilter>,
    pub expires: Option<DateWindowFilter>,
    pub expired: Option<DateWindowFilter>,
    pub activity: Option<LicenseActivityFilter>,
}

/// `start` followed by the cursor pagination parameters: the limit (or
/// `default_limit`), the cursor (empty when none is given) as soon as a
/// page size or a cursor is given, and the page size.
pub open spec fn cursor_page_attributes(
    limit: Option<i32>,
    page_size: Option<i32>,
    page_cursor: Option<Seq<char>>,
    default_limit: Option<i32>,
    start: Seq<(Seq<char>, AttributeView)>,
) -> Seq<(Seq<char>, AttributeView)> {
    start + int_attr("limit"@, opt_i32(if limit is Some { limit } else { default_limit }))
        + text_attr(
        "page[cursor]"@,
        if page_size is Some || page_cursor is Some {
            Some(
                match page_cursor {
                    Some(c) => c,
                    None => Seq::empty(),
                },
            )
        } else {
            None
        },
    ) + int_attr("page[size]"@, opt_i32(page_size))
}

/// `start` followed by the pagination parameters of `q`.
pub open spec fn page_query_attributes(q: CursorPageQuery, start: Seq<(Seq<char>, AttributeView)>) -> Seq<(Seq<char>, AttributeView)> {
    start + int_attr("limit"@, opt_i32(q.limit)) + text_attr("page[cursor]"@, opt_chars(q.page_cursor))
        + int_attr("page[size]"@, opt_i32(q.page_size))
}

/// `start` followed by the set bounds of `f` on `name`.
pub open spec fn numeric_filter_attributes(name: Seq<char>, f: Option<NumericFilter>, start: Seq<(Seq<char>, AttributeView)>) -> Seq<(Seq<char>, AttributeView)> {
    match f {
        None => start,
        Some(f) => start
            + int_attr(name + "[eq]"@, opt_i32(f.eq))
            + int_attr(name + "[gt]"@, opt_i32(f.gt))
            + int_attr(name + "[gte]"@, opt_i32(f.gte))
            + int_attr(name + "[lt]"@, opt_i32(f.lt))
            + int_attr(name + "[lte]"@, opt_i32(f.lte))
    }
}

/// `start` followed by the set bounds of `f` on `name`.
pub open spec fn date_window_attributes(name: Seq<char>, f: Option<DateWindowFilter>, start: Seq<(Seq<char>, AttributeView)>) -> Seq<(Seq<char>, AttributeView)> {
    match f {
        None => start,
        Some(f) => start
            + text_attr(name + "[in]"@, opt_chars(f.within))
            + text_attr(name + "[on]"@, opt_chars(f.on))
            + text_attr(name + "[before]"@, opt_chars(f.before))
            + text_attr(name + "[after]"@, opt_chars(f.after))
    }
}

/// `start` followed by the set bounds of the activity window `f`.
pub open spec fn activity_attributes(f: Option<LicenseActivityFilter>, start: Seq<(Seq<char>, AttributeView)>) -> Seq<(Seq<char>, AttributeView)> {
    match f {
        None => start,
        Some(f) => start
            + text_attr("activity[inside]"@, opt_chars(f.inside))
            + text_attr("activity[outside]"@, opt_chars(f.outside))
            + text_attr("activity[before]"@, opt_chars(f.before))
            + text_attr("activity[after]"@, opt_chars(f.after))
    }
}

/// `start` followed by the simple filters of `o` that are set.
pub open spec fn license_filter_attributes(o: LicenseListOptions, start: Seq<(Seq<char>, AttributeView)>) -> Seq<(Seq<char>, AttributeView)> {
    start
        + text_attr("status"@, opt_chars(o.status))
        + text_attr("product"@, opt_chars(o.product))
        + text_attr("policy"@, opt_chars(o.policy))
        + text_attr("owner"@, opt_chars(o.owner))
        + text_attr("user"@, opt_chars(o.user))
        + text_attr("group"@, opt_chars(o.group))
        + text_attr("machine"@, opt_chars(o.machine))
        + flag_attr("assigned"@, o.assigned)
        + flag_attr("unassigned"@, o.unassigned)
        + flag_attr("activated"@, o.activated)
}

/// The query parameters of a license listing (the metadata filters aside):
/// cursor pagination without a default limit, then the simple filters, the
/// activation count bounds, the expiry windows and the activity window.
pub open spec fn license_list_query_of(options: Option<LicenseListOptions>) -> Seq<(Seq<char>, AttributeView)> {
    match options {
        None => Seq::empty(),
        Some(o) => activity_attributes(
            o.activity,
            date_window_attributes(
                "expired"@,
                o.expired,
                date_window_attributes(
                    "expires"@,
                    o.expires,
                    numeric_filter_attributes(
                        "activations"@,
                        o.activations,
                        license_filter_attributes(
                            o,
                            cursor_page_attributes(
                                o.limit,
                                o.page_size,
                                opt_chars(o.page_cursor),
                                None,
                                Seq::empty(),
                            ),
                        ),
                    ),
                ),
            ),
        ),
    }
}

fn push_page_query(attrs: Vec<(String, AttributeValue)>, q: CursorPageQuery) -> (r: Vec<(String, AttributeValue)>)
    ensures
        attribute_views(r@) === page_query_attributes(q, attribute_views(attrs@)),
{
    let mut attrs = attrs;
    attrs = push_i32(attrs, "limit", q.limit);
    attrs = push_text(attrs, "page[cursor]", q.page_cursor);
    attrs = push_i32(attrs, "page[size]", q.page_size);
    attrs
}

fn push_numeric_filter(attrs: Vec<(String, AttributeValue)>, name: &str, f: &Option<NumericFilter>) -> (r: Vec<(String, AttributeValue)>)
    ensures
        attribute_views(r@) === numeric_filter_attributes(name@, *f, attribute_views(attrs@)),
{
    let f = match f {
        None => return attrs,
        Some(f) => f,
    };
    let mut attrs = attrs;
    attrs = push_i32(attrs, joined(name, "[eq]").as_str(), f.eq);
    attrs = push_i32(attrs, joined(name, "[gt]").as_str(), f.gt);
    attrs = push_i32(attrs, joined(name, "[gte]").as_str(), f.gte);
    attrs = push_i32(attrs, joined(name, "[lt]").as_str(), f.lt);
    attrs = push_i32(attrs, joined(name, "[lte]").as_str(), f.lte);
    attrs
}

fn push_date_window(attrs: Vec<(String, AttributeValue)>, name: &str, f: &Option<DateWindowFilter>) -> (r: Vec<(String, AttributeValue)>)
    ensures
        attribute_views(r@) === date_window_attributes(name@, *f, attribute_views(attrs@)),
{
    let f = match f {
        None => return attrs,
        Some(f) => f,
    };
    let mut attrs = attrs;
    attrs = push_text(attrs, joined(name, "[in]").as_str(), copy_text(&f.within));
    attrs = push_text(attrs, joined(name, "[on]").as_str(), copy_text(&f.on));
    attrs = push_text(attrs, joined(name, "[before]").as_str(), copy_text(&f.before));
    attrs = push_text(attrs, joined(name, "[after]").as_str(), copy_text(&f.after));
    attrs
}

fn push_activity(attrs: Vec<(String, AttributeValue)>, f: &Option<LicenseActivityFilter>) -> (r: Vec<(String, AttributeValue)>)
    ensures
        attribute_views(r@) === activity_attributes(*f, attribute_views(attrs@)),
{
    let f = match f {
        None => return attrs,
        Some(f) => f,
    };
    let mut attrs = attrs;
    attrs = push_text(attrs, "activity[inside]", copy_text(&f.inside));
    attrs = push_text(attrs, "activity[outside]", copy_text(&f.outside));
    attrs = push_text(attrs, "activity[before]", copy_text(&f.before));
    attrs = push_text(attrs, "activity[after]", copy_text(&f.after));
    attrs
}

impl LicenseListOptions {
    fn push_filters(&self, attrs: Vec<(String, AttributeValue)>) -> (r: Vec<(String, AttributeValue)>)
        ensures
            attribute_views(r@) === license_filter_attributes(*self, attribute_views(attrs@)),
    {
        let mut attrs = attrs;
        attrs = push_text(attrs, "status", copy_text(&self.status));
        attrs = push_text(attrs, "product", copy_text(&self.product));
        attrs = push_text(attrs, "policy", copy_text(&self.policy));
        attrs = push_text(attrs, "owner", copy_text(&self.owner));
        attrs = push_text(attrs, "user", copy_text(&self.user));
        attrs = push_text(attrs, "group", copy_text(&self.group));
        attrs = push_text(attrs, "machine", copy_text(&self.machine));
        attrs = push_flag(attrs, "assigned", self.assigned);
        attrs = push_flag(attrs, "unassigned", self.unassigned);
        attrs = push_flag(attrs, "activated", self.activated);
        attrs
    }
}

/// The query parameters of a license listing, in the order they are set;
/// the metadata filters, whose order a map does not keep, are left to the
/// caller.
pub fn license_list_query(options: Option<&LicenseListOptions>) -> (r: Vec<(String, AttributeValue)>)
    ensures
        attribute_views(r@) === license_list_query_of(
            match options {
                Some(o) => Some(*o),
                None => None,
            },
        ),
{
    let o = match options {
        None => {
            let empty: Vec<(String, AttributeValue)> = Vec::new();
            assert(attribute_views(empty@) =~= Seq::empty()) by {
                reveal(attribute_views);
            }
            return empty;
        },
        Some(o) => o,
    };
    let page = cursor_pagination_query(
        o.limit,
        o.page_size,
        match &o.page_cursor {
            Some(c) => Some(c.as_str()),
            None => None,
        },
        None,
    );
    let mut attrs: Vec<(String, AttributeValue)> = Vec::new();
    assert(attribute_views(attrs@) =~= Seq::empty()) by {
        reveal(attribute_views);
    }
    attrs = push_page_query(attrs, page);
    assert(attribute_views(attrs@) === cursor_page_attributes(
        o.limit,
        o.page_size,
        opt_chars(o.page_cursor),
        None,
        Seq::empty(),
    ));
    attrs = o.push_filters(attrs);
    attrs = push_numeric_filter(attrs, "activations", &o.activations);
    attrs = push_date_window(attrs, "expires", &o.expires);
    attrs = push_date_window(attrs, "expired", &o.expired);
    attrs = push_activity(attrs, &o.activity);
    attrs
}

fn joined(prefix: &str, rest: &str) -> (r: String)
    ensures
        r@ == prefix@ + rest@,
{
    let mut t = to_string(prefix);
    t.append(rest);
    t
}

/// The value of the first pair named `name`.
pub open spec fn first_value(pairs: Seq<(Seq<char>, Seq<char>)>, name: Seq<char>) -> Option<Seq<char>>
    decreases pairs.len(),
{
    if pairs.len() == 0 {
        None
    } else if pairs[0].0 == name {
        Some(pairs[0].1)
    } else {
        first_value(pairs.drop_first(), name)
    }
}

/// The cursor of the next page: the `page[cursor]` parameter of the query
/// of the `next` link (what follows its first `?`), if there is one.
pub open spec fn next_cursor_of(next: Option<Seq<char>>) -> Option<Seq<char>> {
    match next {
        None => None,
        Some(link) => {
            let parts = split_spec(link, '?');
            if parts.len() < 2 {
                None
            } else {
                first_value(
                    urlencoded_pairs(encode_utf8(link.skip(parts[0].len() as int + 1))),
                    "page[cursor]"@,
                )
            }
        },
    }
}

/// The cursor of the page the `next` link points to.
pub fn next_cursor(next: Option<&str>) -> (r: Option<String>)
    ensures
        match next_cursor_of(
            match next {
                Some(n) => Some(n@),
                None => None,
            },
        ) {
            Some(c) => r matches Some(s) && s@ == c,
            None => r is None,
        },
{
    let link = match next {
        None => return None,
        Some(l) => l,
    };
    let chars = chars_of(link);
    let parts = split_chars(chars.as_slice(), '?');
    if parts.len() < 2 {
        return None;
    }
    proof {
        lemma_split_first_part(link@, '?');
        assert(views(parts@).len() == parts@.len());
        assert(split_spec(link@, '?').len() >= 2);
        assert(parts@[0]@ == split_spec(link@, '?')[0]);
        assert(parts@[0]@.len() < chars@.len());
    }
    let total = chars.len();
    let first = parts[0].len();
    assert(first < total);
    let start = first + 1;
    let query = string_of(slice_range(chars.as_slice(), start, total).as_slice());
    assert(query@ =~= link@.skip(start as int));
    let pairs = parse_urlencoded(query.as_str().as_bytes());
    let ghost pv = pair_views(pairs@);
    let ghost goal = first_value(pv, "page[cursor]"@);
    assert(goal == next_cursor_of(Some(link@)));
    let mut i: usize = 0;
    assert(pv.skip(0) =~= pv);
    while i < pairs.len()
        invariant
            i <= pairs@.len(),
            pv == pair_views(pairs@),
            goal == next_cursor_of(Some(link@)),
            next == Some(link),
            first_value(pv.skip(i as int), "page[cursor]"@) == goal,
        decreases pairs@.len() - i,
    {
        assert(pv.skip(i as int)[0] == pv[i as int]);
        assert(pv[i as int] == (pairs@[i as int].0@, pairs@[i as int].1@));
        if chars_eq_str(chars_of(pairs[i].0.as_str()).as_slice(), "page[cursor]") {
            return Some(pairs[i].1.clone());
        }
        assert(pv.skip(i as int).drop_first() =~= pv.skip(i + 1));
        i = i + 1;
    }
    None
}

} // verus!
