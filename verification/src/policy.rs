//! Policies: the rules licenses are issued under, and the attributes sent
//! when one is created or changed.

use std::collections::HashMap;

use vstd::prelude::*;

use crate::attributes::{
    attribute_views, flag_attr, int_attr, opt_chars, opt_i32, opt_i64, push_flag, push_i32, push_i64, push_text, text_attr, copy_text, AttributeValue, AttributeView, opt_u32, push_u32, push_relationship, relationship_views, Relationship,
};
use crate::text::{chars_eq_str, chars_of, to_string};

verus! {

/// What happens to a license when it expires.
#[derive(Debug, Clone, Copy, PartialEq, Eq, Structural)]
pub enum ExpirationStrategy {
    RestrictAccess,
    RevokeAccess,
    MaintainAccess,
    AllowAccess,
}

impl ExpirationStrategy {
    /// The code the API uses for the value.
    pub open spec fn code(self) -> Seq<char> {
        match self {
            ExpirationStrategy::RestrictAccess => "RESTRICT_ACCESS"@,
            ExpirationStrategy::RevokeAccess => "REVOKE_ACCESS"@,
            ExpirationStrategy::MaintainAccess => "MAINTAIN_ACCESS"@,
            ExpirationStrategy::AllowAccess => "ALLOW_ACCESS"@,
        }
    }

    /// The code the API uses for the value.
    pub fn as_str(self) -> (r: &'static str)
        ensures
            r@ == self.code(),
    {
        match self {
            ExpirationStrategy::RestrictAccess => "RESTRICT_ACCESS",
            ExpirationStrategy::RevokeAccess => "REVOKE_ACCESS",
            ExpirationStrategy::MaintainAccess => "MAINTAIN_ACCESS",
            ExpirationStrategy::AllowAccess => "ALLOW_ACCESS",
        }
    }

    /// The value whose code is exactly `c`.
    pub open spec fn with_code(c: Seq<char>) -> Option<Self> {
        if c == "RESTRICT_ACCESS"@ {
            Some(ExpirationStrategy::RestrictAccess)
        } else if c == "REVOKE_ACCESS"@ {
            Some(ExpirationStrategy::RevokeAccess)
        } else if c == "MAINTAIN_ACCESS"@ {
            Some(ExpirationStrategy::MaintainAccess)
        } else if c == "ALLOW_ACCESS"@ {
            Some(ExpirationStrategy::AllowAccess)
        } else {
            None
        }
    }

    /// The value whose code is `code`, if any.
    pub fn from_code(code: &str) -> (r: Option<Self>)
        ensures
            r == Self::with_code(code@),
    {
        let v = chars_of(code);
        let c = v.as_slice();
        if chars_eq_str(c, "RESTRICT_ACCESS") {
            Some(ExpirationStrategy::RestrictAccess)
        } else if chars_eq_str(c, "REVOKE_ACCESS") {
            Some(ExpirationStrategy::RevokeAccess)
        } else if chars_eq_str(c, "MAINTAIN_ACCESS") {
            Some(ExpirationStrategy::MaintainAccess)
        } else if chars_eq_str(c, "ALLOW_ACCESS") {
            Some(ExpirationStrategy::AllowAccess)
        } else {
            None
        }
    }
}

/// Reading the code of a ExpirationStrategy gives the value back.
pub proof fn law_expiration_strategy_code_round_trip(x: ExpirationStrategy)
    ensures
        ExpirationStrategy::with_code(x.code()) == Some(x),
{
    reveal_strlit("RESTRICT_ACCESS");
    reveal_strlit("REVOKE_ACCESS");
    reveal_strlit("MAINTAIN_ACCESS");
    reveal_strlit("ALLOW_ACCESS");
    match x {
        ExpirationStrategy::RestrictAccess => {
        },
        ExpirationStrategy::RevokeAccess => {
            assert("REVOKE_ACCESS"@.len() != "RESTRICT_ACCESS"@.len());
        },
        ExpirationStrategy::MaintainAccess => {
            assert("MAINTAIN_ACCESS"@[0] != "RESTRICT_ACCESS"@[0]);
            assert("MAINTAIN_ACCESS"@.len() != "REVOKE_ACCESS"@.len());
        },
        ExpirationStrategy::AllowAccess => {
            assert("ALLOW_ACCESS"@.len() != "RESTRICT_ACCESS"@.len());
            assert("ALLOW_ACCESS"@.len() != "REVOKE_ACCESS"@.len());
            assert("ALLOW_ACCESS"@.len() != "MAINTAIN_ACCESS"@.len());
        },
    }
}

fn expiration_strategy_text(e: Option<ExpirationStrategy>) -> (r: Option<String>)
    ensures
        opt_chars(r) == match e {
            Some(x) => Some(x.code()),
            None => None,
        },
{
    match e {
        Some(x) => Some(to_string(x.as_str())),
        None => None,
    }
}

/// How a license may authenticate with the API.
#[derive(Debug, Clone, Copy, PartialEq, Eq, Structural)]
pub enum AuthenticationStrategy {
    Token,
    License,
    Mixed,
    NoAuthentication,
}

impl AuthenticationStrategy {
    /// The code the API uses for the value.
    pub open spec fn code(self) -> Seq<char> {
        match self {
            AuthenticationStrategy::Token => "TOKEN"@,
            AuthenticationStrategy::License => "LICENSE"@,
            AuthenticationStrategy::Mixed => "MIXED"@,
            AuthenticationStrategy::NoAuthentication => "NONE"@,
        }
    }

    /// The code the API uses for the value.
    pub fn as_str(self) -> (r: &'static str)
        ensures
            r@ == self.code(),
    {
        match self {
            AuthenticationStrategy::Token => "TOKEN",
            AuthenticationStrategy::License => "LICENSE",
            AuthenticationStrategy::Mixed => "MIXED",
            AuthenticationStrategy::NoAuthentication => "NONE",
        }
    }

    /// The value whose code is exactly `c`.
    pub open spec fn with_code(c: Seq<char>) -> Option<Self> {
        if c == "TOKEN"@ {
            Some(AuthenticationStrategy::Token)
        } else if c == "LICENSE"@ {
            Some(AuthenticationStrategy::License)
        } else if c == "MIXED"@ {
            Some(AuthenticationStrategy::Mixed)
        } else if c == "NONE"@ {
            Some(AuthenticationStrategy::NoAuthentication)
        } else {
            None
        }
    }

    /// The value whose code is `code`, if any.
    pub fn from_code(code: &str) -> (r: Option<Self>)
        ensures
            r == Self::with_code(code@),
    {
        let v = chars_of(code);
        let c = v.as_slice();
        if chars_eq_str(c, "TOKEN") {
            Some(AuthenticationStrategy::Token)
        } else if chars_eq_str(c, "LICENSE") {
            Some(AuthenticationStrategy::License)
        } else if chars_eq_str(c, "MIXED") {
            Some(AuthenticationStrategy::Mixed)
        } else if chars_eq_str(c, "NONE") {
            Some(AuthenticationStrategy::NoAuthentication)
        } else {
            None
        }
    }
}

/// Reading the code of a AuthenticationStrategy gives the value back.
pub proof fn law_authentication_strategy_code_round_trip(x: AuthenticationStrategy)
    ensures
        AuthenticationStrategy::with_code(x.code()) == Some(x),
{
    reveal_strlit("TOKEN");
    reveal_strlit("LICENSE");
    reveal_strlit("MIXED");
    reveal_strlit("NONE");
    match x {
        AuthenticationStrategy::Token => {
        },
        AuthenticationStrategy::License => {
            assert("LICENSE"@.len() != "TOKEN"@.len());
        },
        AuthenticationStrategy::Mixed => {
            assert("MIXED"@[0] != "TOKEN"@[0]);
            assert("MIXED"@.len() != "LICENSE"@.len());
        },
        AuthenticationStrategy::NoAuthentication => {
            assert("NONE"@.len() != "TOKEN"@.len());
            assert("NONE"@.len() != "LICENSE"@.len());
            assert("NONE"@.len() != "MIXED"@.len());
        },
    }
}

fn authentication_strategy_text(e: Option<AuthenticationStrategy>) -> (r: Option<String>)
    ensures
        opt_chars(r) == match e {
            Some(x) => Some(x.code()),
            None => None,
        },
{
    match e {
        Some(x) => Some(to_string(x.as_str())),
        None => None,
    }
}

/// How far a license may exceed its limits.
#[derive(Debug, Clone, Copy, PartialEq, Eq, Structural)]
pub enum OverageStrategy {
    NoOverage,
    AlwaysAllowOverage,
    Allow125xOverage,
    Allow15xOverage,
    Allow2xOverage,
}

impl OverageStrategy {
    /// The code the API uses for the value.
    pub open spec fn code(self) -> Seq<char> {
        match self {
            OverageStrategy::NoOverage => "NO_OVERAGE"@,
            OverageStrategy::AlwaysAllowOverage => "ALWAYS_ALLOW_OVERAGE"@,
            OverageStrategy::Allow125xOverage => "ALLOW125X_OVERAGE"@,
            OverageStrategy::Allow15xOverage => "ALLOW15X_OVERAGE"@,
            OverageStrategy::Allow2xOverage => "ALLOW2X_OVERAGE"@,
        }
    }

    /// The code the API uses for the value.
    pub fn as_str(self) -> (r: &'static str)
        ensures
            r@ == self.code(),
    {
        match self {
            OverageStrategy::NoOverage => "NO_OVERAGE",
            OverageStrategy::AlwaysAllowOverage => "ALWAYS_ALLOW_OVERAGE",
            OverageStrategy::Allow125xOverage => "ALLOW125X_OVERAGE",
            OverageStrategy::Allow15xOverage => "ALLOW15X_OVERAGE",
            OverageStrategy::Allow2xOverage => "ALLOW2X_OVERAGE",
        }
    }

    /// The value whose code is exactly `c`.
    pub open spec fn with_code(c: Seq<char>) -> Option<Self> {
        if c == "NO_OVERAGE"@ {
            Some(OverageStrategy::NoOverage)
        } else if c == "ALWAYS_ALLOW_OVERAGE"@ {
            Some(OverageStrategy::AlwaysAllowOverage)
        } else if c == "ALLOW125X_OVERAGE"@ {
            Some(OverageStrategy::Allow125xOverage)
        } else if c == "ALLOW15X_OVERAGE"@ {
            Some(OverageStrategy::Allow15xOverage)
        } else if c == "ALLOW2X_OVERAGE"@ {
            Some(OverageStrategy::Allow2xOverage)
        } else {
            None
        }
    }

    /// The value whose code is `code`, if any.
    pub fn from_code(code: &str) -> (r: Option<Self>)
        ensures
            r == Self::with_code(code@),
    {
        let v = chars_of(code);
        let c = v.as_slice();
        if chars_eq_str(c, "NO_OVERAGE") {
            Some(OverageStrategy::NoOverage)
        } else if chars_eq_str(c, "ALWAYS_ALLOW_OVERAGE") {
            Some(OverageStrategy::AlwaysAllowOverage)
        } else if chars_eq_str(c, "ALLOW125X_OVERAGE") {
            Some(OverageStrategy::Allow125xOverage)
        } else if chars_eq_str(c, "ALLOW15X_OVERAGE") {
            Some(OverageStrategy::Allow15xOverage)
        } else if chars_eq_str(c, "ALLOW2X_OVERAGE") {
            Some(OverageStrategy::Allow2xOverage)
        } else {
            None
        }
    }
}

/// Reading the code of a OverageStrategy gives the value back.
pub proof fn law_overage_strategy_code_round_trip(x: OverageStrategy)
    ensures
        OverageStrategy::with_code(x.code()) == Some(x),
{
    reveal_strlit("NO_OVERAGE");
    reveal_strlit("ALWAYS_ALLOW_OVERAGE");
    reveal_strlit("ALLOW125X_OVERAGE");
    reveal_strlit("ALLOW15X_OVERAGE");
    reveal_strlit("ALLOW2X_OVERAGE");
    match x {
        OverageStrategy::NoOverage => {
        },
        OverageStrategy::AlwaysAllowOverage => {
            assert("ALWAYS_ALLOW_OVERAGE"@.len() != "NO_OVERAGE"@.len());
        },
        OverageStrategy::Allow125xOverage => {
            assert("ALLOW125X_OVERAGE"@.len() != "NO_OVERAGE"@.len());
            assert("ALLOW125X_OVERAGE"@.len() != "ALWAYS_ALLOW_OVERAGE"@.len());
        },
        OverageStrategy::Allow15xOverage => {
            assert("ALLOW15X_OVERAGE"@.len() != "NO_OVERAGE"@.len());
            assert("ALLOW15X_OVERAGE"@.len() != "ALWAYS_ALLOW_OVERAGE"@.len());
            assert("ALLOW15X_OVERAGE"@.len() != "ALLOW125X_OVERAGE"@.len());
        },
        OverageStrategy::Allow2xOverage => {
            assert("ALLOW2X_OVERAGE"@.len() != "NO_OVERAGE"@.len());
            assert("ALLOW2X_OVERAGE"@.len() != "ALWAYS_ALLOW_OVERAGE"@.len());
            assert("ALLOW2X_OVERAGE"@.len() != "ALLOW125X_OVERAGE"@.len());
            assert("ALLOW2X_OVERAGE"@.len() != "ALLOW15X_OVERAGE"@.len());
        },
    }
}

fn overage_strategy_text(e: Option<OverageStrategy>) -> (r: Option<String>)
    ensures
        opt_chars(r) == match e {
            Some(x) => Some(x.code()),
            None => None,
        },
{
    match e {
        Some(x) => Some(to_string(x.as_str())),
        None => None,
    }
}

/// What happens to a license transferred to another policy.
#[derive(Debug, Clone, Copy, PartialEq, Eq, Structural)]
pub enum TransferStrategy {
    KeepPolicy,
    ResetPolicy,
    KeepExpiry,
}

impl TransferStrategy {
    /// The code the API uses for the value.
    pub open spec fn code(self) -> Seq<char> {
        match self {
            TransferStrategy::KeepPolicy => "KEEP_POLICY"@,
            TransferStrategy::ResetPolicy => "RESET_POLICY"@,
            TransferStrategy::KeepExpiry => "KEEP_EXPIRY"@,
        }
    }

    /// The code the API uses for the value.
    pub fn as_str(self) -> (r: &'static str)
        ensures
            r@ == self.code(),
    {
        match self {
            TransferStrategy::KeepPolicy => "KEEP_POLICY",
            TransferStrategy::ResetPolicy => "RESET_POLICY",
            TransferStrategy::KeepExpiry => "KEEP_EXPIRY",
        }
    }

    /// The value whose code is exactly `c`.
    pub open spec fn with_code(c: Seq<char>) -> Option<Self> {
        if c == "KEEP_POLICY"@ {
            Some(TransferStrategy::KeepPolicy)
        } else if c == "RESET_POLICY"@ {
            Some(TransferStrategy::ResetPolicy)
        } else if c == "KEEP_EXPIRY"@ {
            Some(TransferStrategy::KeepExpiry)
        } else {
            None
        }
    }

    /// The value whose code is `code`, if any.
    pub fn from_code(code: &str) -> (r: Option<Self>)
        ensures
            r == Self::with_code(code@),
    {
        let v = chars_of(code);
        let c = v.as_slice();
        if chars_eq_str(c, "KEEP_POLICY") {
            Some(TransferStrategy::KeepPolicy)
        } else if chars_eq_str(c, "RESET_POLICY") {
            Some(TransferStrategy::ResetPolicy)
        } else if chars_eq_str(c, "KEEP_EXPIRY") {
            Some(TransferStrategy::KeepExpiry)
        } else {
            None
        }
    }
}

/// Reading the code of a TransferStrategy gives the value back.
pub proof fn law_transfer_strategy_code_round_trip(x: TransferStrategy)
    ensures
        TransferStrategy::with_code(x.code()) == Some(x),
{
    reveal_strlit("KEEP_POLICY");
    reveal_strlit("RESET_POLICY");
    reveal_strlit("KEEP_EXPIRY");
    match x {
        TransferStrategy::KeepPolicy => {
        },
        TransferStrategy::ResetPolicy => {
            assert("RESET_POLICY"@.len() != "KEEP_POLICY"@.len());
        },
        TransferStrategy::KeepExpiry => {
            assert("KEEP_EXPIRY"@[5] != "KEEP_POLICY"@[5]);
            assert("KEEP_EXPIRY"@.len() != "RESET_POLICY"@.len());
        },
    }
}

fn transfer_strategy_text(e: Option<TransferStrategy>) -> (r: Option<String>)
    ensures
        opt_chars(r) == match e {
            Some(x) => Some(x.code()),
            None => None,
        },
{
    match e {
        Some(x) => Some(to_string(x.as_str())),
        None => None,
    }
}

/// What a machine or process lease is counted against.
#[derive(Debug, Clone, Copy, PartialEq, Eq, Structural)]
pub enum LeasingStrategy {
    PerMachine,
    PerLicense,
    PerUser,
}

impl LeasingStrategy {
    /// The code the API uses for the value.
    pub open spec fn code(self) -> Seq<char> {
        match self {
            LeasingStrategy::PerMachine => "PER_MACHINE"@,
            LeasingStrategy::PerLicense => "PER_LICENSE"@,
            LeasingStrategy::PerUser => "PER_USER"@,
        }
    }

    /// The code the API uses for the value.
    pub fn as_str(self) -> (r: &'static str)
        ensures
            r@ == self.code(),
    {
        match self {
            LeasingStrategy::PerMachine => "PER_MACHINE",
            LeasingStrategy::PerLicense => "PER_LICENSE",
            LeasingStrategy::PerUser => "PER_USER",
        }
    }

    /// The value whose code is exactly `c`.
    pub open spec fn with_code(c: Seq<char>) -> Option<Self> {
        if c == "PER_MACHINE"@ {
            Some(LeasingStrategy::PerMachine)
        } else if c == "PER_LICENSE"@ {
            Some(LeasingStrategy::PerLicense)
        } else if c == "PER_USER"@ {
            Some(LeasingStrategy::PerUser)
        } else {
            None
        }
    }

    /// The value whose code is `code`, if any.
    pub fn from_code(code: &str) -> (r: Option<Self>)
        ensures
            r == Self::with_code(code@),
    {
        let v = chars_of(code);
        let c = v.as_slice();
        if chars_eq_str(c, "PER_MACHINE") {
            Some(LeasingStrategy::PerMachine)
        } else if chars_eq_str(c, "PER_LICENSE") {
            Some(LeasingStrategy::PerLicense)
        } else if chars_eq_str(c, "PER_USER") {
            Some(LeasingStrategy::PerUser)
        } else {
            None
        }
    }
}

/// Reading the code of a LeasingStrategy gives the value back.
pub proof fn law_leasing_strategy_code_round_trip(x: LeasingStrategy)
    ensures
        LeasingStrategy::with_code(x.code()) == Some(x),
{
    reveal_strlit("PER_MACHINE");
    reveal_strlit("PER_LICENSE");
    reveal_strlit("PER_USER");
    match x {
        LeasingStrategy::PerMachine => {
        },
        LeasingStrategy::PerLicense => {
            assert("PER_LICENSE"@[4] != "PER_MACHINE"@[4]);
        },
        LeasingStrategy::PerUser => {
            assert("PER_USER"@.len() != "PER_MACHINE"@.len());
            assert("PER_USER"@.len() != "PER_LICENSE"@.len());
        },
    }
}

fn leasing_strategy_text(e: Option<LeasingStrategy>) -> (r: Option<String>)
    ensures
        opt_chars(r) == match e {
            Some(x) => Some(x.code()),
            None => None,
        },
{
    match e {
        Some(x) => Some(to_string(x.as_str())),
        None => None,
    }
}

/// Within what a fingerprint must be unique.
#[derive(Debug, Clone, Copy, PartialEq, Eq, Structural)]
pub enum UniquenessStrategy {
    UniquePerAccount,
    UniquePerProduct,
    UniquePerPolicy,
    UniquePerLicense,
    UniquePerMachine,
}

impl UniquenessStrategy {
    /// The code the API uses for the value.
    pub open spec fn code(self) -> Seq<char> {
        match self {
            UniquenessStrategy::UniquePerAccount => "UNIQUE_PER_ACCOUNT"@,
            UniquenessStrategy::UniquePerProduct => "UNIQUE_PER_PRODUCT"@,
            UniquenessStrategy::UniquePerPolicy => "UNIQUE_PER_POLICY"@,
            UniquenessStrategy::UniquePerLicense => "UNIQUE_PER_LICENSE"@,
            UniquenessStrategy::UniquePerMachine => "UNIQUE_PER_MACHINE"@,
        }
    }

    /// The code the API uses for the value.
    pub fn as_str(self) -> (r: &'static str)
        ensures
            r@ == self.code(),
    {
        match self {
            UniquenessStrategy::UniquePerAccount => "UNIQUE_PER_ACCOUNT",
            UniquenessStrategy::UniquePerProduct => "UNIQUE_PER_PRODUCT",
            UniquenessStrategy::UniquePerPolicy => "UNIQUE_PER_POLICY",
            UniquenessStrategy::UniquePerLicense => "UNIQUE_PER_LICENSE",
            UniquenessStrategy::UniquePerMachine => "UNIQUE_PER_MACHINE",
        }
    }

    /// The value whose code is exactly `c`.
    pub open spec fn with_code(c: Seq<char>) -> Option<Self> {
        if c == "UNIQUE_PER_ACCOUNT"@ {
            Some(UniquenessStrategy::UniquePerAccount)
        } else if c == "UNIQUE_PER_PRODUCT"@ {
            Some(UniquenessStrategy::UniquePerProduct)
        } else if c == "UNIQUE_PER_POLICY"@ {
            Some(UniquenessStrategy::UniquePerPolicy)
        } else if c == "UNIQUE_PER_LICENSE"@ {
            Some(UniquenessStrategy::UniquePerLicense)
        } else if c == "UNIQUE_PER_MACHINE"@ {
            Some(UniquenessStrategy::UniquePerMachine)
        } else {
            None
        }
    }

    /// The value whose code is `code`, if any.
    pub fn from_code(code: &str) -> (r: Option<Self>)
        ensures
            r == Self::with_code(code@),
    {
        let v = chars_of(code);
        let c = v.as_slice();
        if chars_eq_str(c, "UNIQUE_PER_ACCOUNT") {
            Some(UniquenessStrategy::UniquePerAccount)
        } else if chars_eq_str(c, "UNIQUE_PER_PRODUCT") {
            Some(UniquenessStrategy::UniquePerProduct)
        } else if chars_eq_str(c, "UNIQUE_PER_POLICY") {
            Some(UniquenessStrategy::UniquePerPolicy)
        } else if chars_eq_str(c, "UNIQUE_PER_LICENSE") {
            Some(UniquenessStrategy::UniquePerLicense)
        } else if chars_eq_str(c, "UNIQUE_PER_MACHINE") {
            Some(UniquenessStrategy::UniquePerMachine)
        } else {
            None
        }
    }
}

/// Reading the code of a UniquenessStrategy gives the value back.
pub proof fn law_uniqueness_strategy_code_round_trip(x: UniquenessStrategy)
    ensures
        UniquenessStrategy::with_code(x.code()) == Some(x),
{
    reveal_strlit("UNIQUE_PER_ACCOUNT");
    reveal_strlit("UNIQUE_PER_PRODUCT");
    reveal_strlit("UNIQUE_PER_POLICY");
    reveal_strlit("UNIQUE_PER_LICENSE");
    reveal_strlit("UNIQUE_PER_MACHINE");
    match x {
        UniquenessStrategy::UniquePerAccount => {
        },
        UniquenessStrategy::UniquePerProduct => {
            assert("UNIQUE_PER_PRODUCT"@[11] != "UNIQUE_PER_ACCOUNT"@[11]);
        },
        UniquenessStrategy::UniquePerPolicy => {
            assert("UNIQUE_PER_POLICY"@.len() != "UNIQUE_PER_ACCOUNT"@.len());
            assert("UNIQUE_PER_POLICY"@.len() != "UNIQUE_PER_PRODUCT"@.len());
        },
        UniquenessStrategy::UniquePerLicense => {
            assert("UNIQUE_PER_LICENSE"@[11] != "UNIQUE_PER_ACCOUNT"@[11]);
            assert("UNIQUE_PER_LICENSE"@[11] != "UNIQUE_PER_PRODUCT"@[11]);
            assert("UNIQUE_PER_LICENSE"@.len() != "UNIQUE_PER_POLICY"@.len());
        },
        UniquenessStrategy::UniquePerMachine => {
            assert("UNIQUE_PER_MACHINE"@[11] != "UNIQUE_PER_ACCOUNT"@[11]);
            assert("UNIQUE_PER_MACHINE"@[11] != "UNIQUE_PER_PRODUCT"@[11]);
            assert("UNIQUE_PER_MACHINE"@.len() != "UNIQUE_PER_POLICY"@.len());
            assert("UNIQUE_PER_MACHINE"@[11] != "UNIQUE_PER_LICENSE"@[11]);
        },
    }
}

fn uniqueness_strategy_text(e: Option<UniquenessStrategy>) -> (r: Option<String>)
    ensures
        opt_chars(r) == match e {
            Some(x) => Some(x.code()),
            None => None,
        },
{
    match e {
        Some(x) => Some(to_string(x.as_str())),
        None => None,
    }
}

/// How many fingerprints of a scope must match.
#[derive(Debug, Clone, Copy, PartialEq, Eq, Structural)]
pub enum MatchingStrategy {
    MatchAny,
    MatchTwo,
    MatchMost,
    MatchAll,
}

impl MatchingStrategy {
    /// The code the API uses for the value.
    pub open spec fn code(self) -> Seq<char> {
        match self {
            MatchingStrategy::MatchAny => "MATCH_ANY"@,
            MatchingStrategy::MatchTwo => "MATCH_TWO"@,
            MatchingStrategy::MatchMost => "MATCH_MOST"@,
            MatchingStrategy::MatchAll => "MATCH_ALL"@,
        }
    }

    /// The code the API uses for the value.
    pub fn as_str(self) -> (r: &'static str)
        ensures
            r@ == self.code(),
    {
        match self {
            MatchingStrategy::MatchAny => "MATCH_ANY",
            MatchingStrategy::MatchTwo => "MATCH_TWO",
            MatchingStrategy::MatchMost => "MATCH_MOST",
            MatchingStrategy::MatchAll => "MATCH_ALL",
        }
    }

    /// The value whose code is exactly `c`.
    pub open spec fn with_code(c: Seq<char>) -> Option<Self> {
        if c == "MATCH_ANY"@ {
            Some(MatchingStrategy::MatchAny)
        } else if c == "MATCH_TWO"@ {
            Some(MatchingStrategy::MatchTwo)
        } else if c == "MATCH_MOST"@ {
            Some(MatchingStrategy::MatchMost)
        } else if c == "MATCH_ALL"@ {
            Some(MatchingStrategy::MatchAll)
        } else {
            None
        }
    }

    /// The value whose code is `code`, if any.
    pub fn from_code(code: &str) -> (r: Option<Self>)
        ensures
            r == Self::with_code(code@),
    {
        let v = chars_of(code);
        let c = v.as_slice();
        if chars_eq_str(c, "MATCH_ANY") {
            Some(MatchingStrategy::MatchAny)
        } else if chars_eq_str(c, "MATCH_TWO") {
            Some(MatchingStrategy::MatchTwo)
        } else if chars_eq_str(c, "MATCH_MOST") {
            Some(MatchingStrategy::MatchMost)
        } else if chars_eq_str(c, "MATCH_ALL") {
            Some(MatchingStrategy::MatchAll)
        } else {
            None
        }
    }
}

/// Reading the code of a MatchingStrategy gives the value back.
pub proof fn law_matching_strategy_code_round_trip(x: MatchingStrategy)
    ensures
        MatchingStrategy::with_code(x.code()) == Some(x),
{
    reveal_strlit("MATCH_ANY");
    reveal_strlit("MATCH_TWO");
    reveal_strlit("MATCH_MOST");
    reveal_strlit("MATCH_ALL");
    match x {
        MatchingStrategy::MatchAny => {
        },
        MatchingStrategy::MatchTwo => {
            assert("MATCH_TWO"@[6] != "MATCH_ANY"@[6]);
        },
        MatchingStrategy::MatchMost => {
            assert("MATCH_MOST"@.len() != "MATCH_ANY"@.len());
            assert("MATCH_MOST"@.len() != "MATCH_TWO"@.len());
        },
        MatchingStrategy::MatchAll => {
            assert("MATCH_ALL"@[7] != "MATCH_ANY"@[7]);
            assert("MATCH_ALL"@[6] != "MATCH_TWO"@[6]);
            assert("MATCH_ALL"@.len() != "MATCH_MOST"@.len());
        },
    }
}

fn matching_strategy_text(e: Option<MatchingStrategy>) -> (r: Option<String>)
    ensures
        opt_chars(r) == match e {
            Some(x) => Some(x.code()),
            None => None,
        },
{
    match e {
        Some(x) => Some(to_string(x.as_str())),
        None => None,
    }
}

/// The scheme license keys are signed or encrypted with.
#[derive(Debug, Clone, Copy, PartialEq, Eq, Structural)]
pub enum Scheme {
    Ed25519Sign,
    Rsa2048Pkcs1PssSignV2,
    Rsa2048Pkcs1SignV2,
    Rsa2048Pkcs1Encrypt,
    Rsa2048JwtRs256,
    LegacyEncrypt,
    Rsa2048Pkcs1PssSign,
    Rsa2048Pkcs1Sign,
}

impl Scheme {
    /// The code the API uses for the value.
    pub open spec fn code(self) -> Seq<char> {
        match self {
            Scheme::Ed25519Sign => "ED25519_SIGN"@,
            Scheme::Rsa2048Pkcs1PssSignV2 => "RSA_2048_PKCS1_PSS_SIGN_V2"@,
            Scheme::Rsa2048Pkcs1SignV2 => "RSA_2048_PKCS1_SIGN_V2"@,
            Scheme::Rsa2048Pkcs1Encrypt => "RSA_2048_PKCS1_ENCRYPT"@,
            Scheme::Rsa2048JwtRs256 => "RSA_2048_JWT_RS256"@,
            Scheme::LegacyEncrypt => "LEGACY_ENCRYPT"@,
            Scheme::Rsa2048Pkcs1PssSign => "RSA_2048_PKCS1_PSS_SIGN"@,
            Scheme::Rsa2048Pkcs1Sign => "RSA_2048_PKCS1_SIGN"@,
        }
    }

    /// The code the API uses for the value.
    pub fn as_str(self) -> (r: &'static str)
        ensures
            r@ == self.code(),
    {
        match self {
            Scheme::Ed25519Sign => "ED25519_SIGN",
            Scheme::Rsa2048Pkcs1PssSignV2 => "RSA_2048_PKCS1_PSS_SIGN_V2",
            Scheme::Rsa2048Pkcs1SignV2 => "RSA_2048_PKCS1_SIGN_V2",
            Scheme::Rsa2048Pkcs1Encrypt => "RSA_2048_PKCS1_ENCRYPT",
            Scheme::Rsa2048JwtRs256 => "RSA_2048_JWT_RS256",
            Scheme::LegacyEncrypt => "LEGACY_ENCRYPT",
            Scheme::Rsa2048Pkcs1PssSign => "RSA_2048_PKCS1_PSS_SIGN",
            Scheme::Rsa2048Pkcs1Sign => "RSA_2048_PKCS1_SIGN",
        }
    }

    /// The value whose code is exactly `c`.
    pub open spec fn with_code(c: Seq<char>) -> Option<Self> {
        if c == "ED25519_SIGN"@ {
            Some(Scheme::Ed25519Sign)
        } else if c == "RSA_2048_PKCS1_PSS_SIGN_V2"@ {
            Some(Scheme::Rsa2048Pkcs1PssSignV2)
        } else if c == "RSA_2048_PKCS1_SIGN_V2"@ {
            Some(Scheme::Rsa2048Pkcs1SignV2)
        } else if c == "RSA_2048_PKCS1_ENCRYPT"@ {
            Some(Scheme::Rsa2048Pkcs1Encrypt)
        } else if c == "RSA_2048_JWT_RS256"@ {
            Some(Scheme::Rsa2048JwtRs256)
        } else if c == "LEGACY_ENCRYPT"@ {
            Some(Scheme::LegacyEncrypt)
        } else if c == "RSA_2048_PKCS1_PSS_SIGN"@ {
            Some(Scheme::Rsa2048Pkcs1PssSign)
        } else if c == "RSA_2048_PKCS1_SIGN"@ {
            Some(Scheme::Rsa2048Pkcs1Sign)
        } else {
            None
        }
    }

    /// The value whose code is `code`, if any.
    pub fn from_code(code: &str) -> (r: Option<Self>)
        ensures
            r == Self::with_code(code@),
    {
        let v = chars_of(code);
        let c = v.as_slice();
        if chars_eq_str(c, "ED25519_SIGN") {
            Some(Scheme::Ed25519Sign)
        } else if chars_eq_str(c, "RSA_2048_PKCS1_PSS_SIGN_V2") {
            Some(Scheme::Rsa2048Pkcs1PssSignV2)
        } else if chars_eq_str(c, "RSA_2048_PKCS1_SIGN_V2") {
            Some(Scheme::Rsa2048Pkcs1SignV2)
        } else if chars_eq_str(c, "RSA_2048_PKCS1_ENCRYPT") {
            Some(Scheme::Rsa2048Pkcs1Encrypt)
        } else if chars_eq_str(c, "RSA_2048_JWT_RS256") {
            Some(Scheme::Rsa2048JwtRs256)
        } else if chars_eq_str(c, "LEGACY_ENCRYPT") {
            Some(Scheme::LegacyEncrypt)
        } else if chars_eq_str(c, "RSA_2048_PKCS1_PSS_SIGN") {
            Some(Scheme::Rsa2048Pkcs1PssSign)
        } else if chars_eq_str(c, "RSA_2048_PKCS1_SIGN") {
            Some(Scheme::Rsa2048Pkcs1Sign)
        } else {
            None
        }
    }
}

/// Reading the code of a Scheme gives the value back.
pub proof fn law_policy_scheme_code_round_trip(x: Scheme)
    ensures
        Scheme::with_code(x.code()) == Some(x),
{
    reveal_strlit("ED25519_SIGN");
    reveal_strlit("RSA_2048_PKCS1_PSS_SIGN_V2");
    reveal_strlit("RSA_2048_PKCS1_SIGN_V2");
    reveal_strlit("RSA_2048_PKCS1_ENCRYPT");
    reveal_strlit("RSA_2048_JWT_RS256");
    reveal_strlit("LEGACY_ENCRYPT");
    reveal_strlit("RSA_2048_PKCS1_PSS_SIGN");
    reveal_strlit("RSA_2048_PKCS1_SIGN");
    match x {
        Scheme::Ed25519Sign => {
        },
        Scheme::Rsa2048Pkcs1PssSignV2 => {
            assert("RSA_2048_PKCS1_PSS_SIGN_V2"@.len() != "ED25519_SIGN"@.len());
        },
        Scheme::Rsa2048Pkcs1SignV2 => {
            assert("RSA_2048_PKCS1_SIGN_V2"@.len() != "ED25519_SIGN"@.len());
            assert("RSA_2048_PKCS1_SIGN_V2"@.len() != "RSA_2048_PKCS1_PSS_SIGN_V2"@.len());
        },
        Scheme::Rsa2048Pkcs1Encrypt => {
            assert("RSA_2048_PKCS1_ENCRYPT"@.len() != "ED25519_SIGN"@.len());
            assert("RSA_2048_PKCS1_ENCRYPT"@.len() != "RSA_2048_PKCS1_PSS_SIGN_V2"@.len());
            assert("RSA_2048_PKCS1_ENCRYPT"@[15] != "RSA_2048_PKCS1_SIGN_V2"@[15]);
        },
        Scheme::Rsa2048JwtRs256 => {
            assert("RSA_2048_JWT_RS256"@.len() != "ED25519_SIGN"@.len());
            assert("RSA_2048_JWT_RS256"@.len() != "RSA_2048_PKCS1_PSS_SIGN_V2"@.len());
            assert("RSA_2048_JWT_RS256"@.len() != "RSA_2048_PKCS1_SIGN_V2"@.len());
            assert("RSA_2048_JWT_RS256"@.len() != "RSA_2048_PKCS1_ENCRYPT"@.len());
        },
        Scheme::LegacyEncrypt => {
            assert("LEGACY_ENCRYPT"@.len() != "ED25519_SIGN"@.len());
            assert("LEGACY_ENCRYPT"@.len() != "RSA_2048_PKCS1_PSS_SIGN_V2"@.len());
            assert("LEGACY_ENCRYPT"@.len() != "RSA_2048_PKCS1_SIGN_V2"@.len());
            assert("LEGACY_ENCRYPT"@.len() != "RSA_2048_PKCS1_ENCRYPT"@.len());
            assert("LEGACY_ENCRYPT"@.len() != "RSA_2048_JWT_RS256"@.len());
        },
        Scheme::Rsa2048Pkcs1PssSign => {
            assert("RSA_2048_PKCS1_PSS_SIGN"@.len() != "ED25519_SIGN"@.len());
            assert("RSA_2048_PKCS1_PSS_SIGN"@.len() != "RSA_2048_PKCS1_PSS_SIGN_V2"@.len());
            assert("RSA_2048_PKCS1_PSS_SIGN"@.len() != "RSA_2048_PKCS1_SIGN_V2"@.len());
            assert("RSA_2048_PKCS1_PSS_SIGN"@.len() != "RSA_2048_PKCS1_ENCRYPT"@.len());
            assert("RSA_2048_PKCS1_PSS_SIGN"@.len() != "RSA_2048_JWT_RS256"@.len());
            assert("RSA_2048_PKCS1_PSS_SIGN"@.len() != "LEGACY_ENCRYPT"@.len());
        },
        Scheme::Rsa2048Pkcs1Sign => {
            assert("RSA_2048_PKCS1_SIGN"@.len() != "ED25519_SIGN"@.len());
            assert("RSA_2048_PKCS1_SIGN"@.len() != "RSA_2048_PKCS1_PSS_SIGN_V2"@.len());
            assert("RSA_2048_PKCS1_SIGN"@.len() != "RSA_2048_PKCS1_SIGN_V2"@.len());
            assert("RSA_2048_PKCS1_SIGN"@.len() != "RSA_2048_PKCS1_ENCRYPT"@.len());
            assert("RSA_2048_PKCS1_SIGN"@.len() != "RSA_2048_JWT_RS256"@.len());
            assert("RSA_2048_PKCS1_SIGN"@.len() != "LEGACY_ENCRYPT"@.len());
            assert("RSA_2048_PKCS1_SIGN"@.len() != "RSA_2048_PKCS1_PSS_SIGN"@.len());
        },
    }
}

fn scheme_text(e: Option<Scheme>) -> (r: Option<String>)
    ensures
        opt_chars(r) == match e {
            Some(x) => Some(x.code()),
            None => None,
        },
{
    match e {
        Some(x) => Some(to_string(x.as_str())),
        None => None,
    }
}

/// The attributes of a new policy, and the product it belongs to.
#[derive(Debug, Clone)]
pub struct CreatePolicyRequest {
    pub name: String,
    pub duration: Option<i64>,
    pub strict: Option<bool>,
    pub floating: Option<bool>,
    pub require_heartbeat: Option<bool>,
    pub heartbeat_duration: Option<i64>,
    pub heartbeat_cull_strategy: Option<String>,
    pub heartbeat_resurrection_strategy: Option<String>,
    pub heartbeat_basis: Option<String>,
    pub machine_uniqueness_strategy: Option<UniquenessStrategy>,
    pub component_uniqueness_strategy: Option<UniquenessStrategy>,
    pub machine_matching_strategy: Option<MatchingStrategy>,
    pub component_matching_strategy: Option<MatchingStrategy>,
    pub expiration_strategy: Option<ExpirationStrategy>,
    pub expiration_basis: Option<String>,
    pub renewal_basis: Option<String>,
    pub authentication_strategy: Option<AuthenticationStrategy>,
    pub machine_leasing_strategy: Option<LeasingStrategy>,
    pub process_leasing_strategy: Option<LeasingStrategy>,
    pub overage_strategy: Option<OverageStrategy>,
    pub transfer_strategy: Option<TransferStrategy>,
    pub max_machines: Option<i32>,
    pub max_processes: Option<i32>,
    pub max_cores: Option<i32>,
    pub max_uses: Option<i32>,
    pub encrypted: Option<bool>,
    pub protected: Option<bool>,
    pub require_check_in: Option<bool>,
    pub check_in_interval: Option<String>,
    pub check_in_interval_count: Option<i32>,
    pub use_pool: Option<bool>,
    pub max_licenses: Option<i32>,
    pub max_users: Option<i32>,
    pub scheme: Option<Scheme>,
    pub metadata: Option<HashMap<String, serde_json::Value>>,
    pub product_id: String,
}

/// The changes to make to a policy; absent fields are left unchanged.
#[derive(Debug, Clone)]
pub struct UpdatePolicyRequest {
    pub name: Option<String>,
    pub duration: Option<i64>,
    pub strict: Option<bool>,
    pub floating: Option<bool>,
    pub require_heartbeat: Option<bool>,
    pub heartbeat_duration: Option<i64>,
    pub heartbeat_cull_strategy: Option<String>,
    pub heartbeat_resurrection_strategy: Option<String>,
    pub heartbeat_basis: Option<String>,
    pub machine_uniqueness_strategy: Option<UniquenessStrategy>,
    pub component_uniqueness_strategy: Option<UniquenessStrategy>,
    pub machine_matching_strategy: Option<MatchingStrategy>,
    pub component_matching_strategy: Option<MatchingStrategy>,
    pub expiration_strategy: Option<ExpirationStrategy>,
    pub expiration_basis: Option<String>,
    pub renewal_basis: Option<String>,
    pub authentication_strategy: Option<AuthenticationStrategy>,
    pub machine_leasing_strategy: Option<LeasingStrategy>,
    pub process_leasing_strategy: Option<LeasingStrategy>,
    pub overage_strategy: Option<OverageStrategy>,
    pub transfer_strategy: Option<TransferStrategy>,
    pub max_machines: Option<i32>,
    pub max_processes: Option<i32>,
    pub max_cores: Option<i32>,
    pub max_uses: Option<i32>,
    pub protected: Option<bool>,
    pub require_check_in: Option<bool>,
    pub check_in_interval: Option<String>,
    pub check_in_interval_count: Option<i32>,
    pub max_users: Option<i32>,
    pub scheme: Option<Scheme>,
    pub metadata: Option<HashMap<String, serde_json::Value>>,
}

/// `start` followed by the duration, strictness, floating and heartbeat attributes of a new policy that are set.
pub open spec fn createpolicyrequest_heartbeat_attributes(r: CreatePolicyRequest, start: Seq<(Seq<char>, AttributeView)>) -> Seq<(Seq<char>, AttributeView)> {
    start
        + int_attr("duration"@, opt_i64(r.duration))
        + flag_attr("strict"@, r.strict)
        + flag_attr("floating"@, r.floating)
        + flag_attr("requireHeartbeat"@, r.require_heartbeat)
        + int_attr("heartbeatDuration"@, opt_i64(r.heartbeat_duration))
        + text_attr("heartbeatCullStrategy"@, opt_chars(r.heartbeat_cull_strategy))
        + text_attr("heartbeatResurrectionStrategy"@, opt_chars(r.heartbeat_resurrection_strategy))
        + text_attr("heartbeatBasis"@, opt_chars(r.heartbeat_basis))
}

/// `start` followed by the uniqueness, matching and expiration attributes of a new policy that are set.
pub open spec fn createpolicyrequest_matching_attributes(r: CreatePolicyRequest, start: Seq<(Seq<char>, AttributeView)>) -> Seq<(Seq<char>, AttributeView)> {
    start
        + text_attr("machineUniquenessStrategy"@, match r.machine_uniqueness_strategy { Some(e) => Some(e.code()), None => None })
        + text_attr("componentUniquenessStrategy"@, match r.component_uniqueness_strategy { Some(e) => Some(e.code()), None => None })
        + text_attr("machineMatchingStrategy"@, match r.machine_matching_strategy { Some(e) => Some(e.code()), None => None })
        + text_attr("componentMatchingStrategy"@, match r.component_matching_strategy { Some(e) => Some(e.code()), None => None })
        + text_attr("expirationStrategy"@, match r.expiration_strategy { Some(e) => Some(e.code()), None => None })
        + text_attr("expirationBasis"@, opt_chars(r.expiration_basis))
        + text_attr("renewalBasis"@, opt_chars(r.renewal_basis))
}

/// `start` followed by the strategy attributes of a new policy that are set.
pub open spec fn createpolicyrequest_strategy_attributes(r: CreatePolicyRequest, start: Seq<(Seq<char>, AttributeView)>) -> Seq<(Seq<char>, AttributeView)> {
    start
        + text_attr("authenticationStrategy"@, match r.authentication_strategy { Some(e) => Some(e.code()), None => None })
        + text_attr("machineLeasingStrategy"@, match r.machine_leasing_strategy { Some(e) => Some(e.code()), None => None })
        + text_attr("processLeasingStrategy"@, match r.process_leasing_strategy { Some(e) => Some(e.code()), None => None })
        + text_attr("overageStrategy"@, match r.overage_strategy { Some(e) => Some(e.code()), None => None })
        + text_attr("transferStrategy"@, match r.transfer_strategy { Some(e) => Some(e.code()), None => None })
}

/// `start` followed by the limit, protection and check-in attributes of a new policy that are set.
pub open spec fn createpolicyrequest_limit_attributes(r: CreatePolicyRequest, start: Seq<(Seq<char>, AttributeView)>) -> Seq<(Seq<char>, AttributeView)> {
    start
        + int_attr("maxMachines"@, opt_i32(r.max_machines))
        + int_attr("maxProcesses"@, opt_i32(r.max_processes))
        + int_attr("maxCores"@, opt_i32(r.max_cores))
        + int_attr("maxUses"@, opt_i32(r.max_uses))
        + flag_attr("encrypted"@, r.encrypted)
        + flag_attr("protected"@, r.protected)
        + flag_attr("requireCheckIn"@, r.require_check_in)
        + text_attr("checkInInterval"@, opt_chars(r.check_in_interval))
        + int_attr("checkInIntervalCount"@, opt_i32(r.check_in_interval_count))
}

/// `start` followed by the pool, license and user limit, and scheme attributes of a new policy that are set.
pub open spec fn createpolicyrequest_pool_attributes(r: CreatePolicyRequest, start: Seq<(Seq<char>, AttributeView)>) -> Seq<(Seq<char>, AttributeView)> {
    start
        + flag_attr("usePool"@, r.use_pool)
        + int_attr("maxLicenses"@, opt_i32(r.max_licenses))
        + int_attr("maxUsers"@, opt_i32(r.max_users))
        + text_attr("scheme"@, match r.scheme { Some(e) => Some(e.code()), None => None })
}

/// `start` followed by the duration, strictness, floating and heartbeat attributes of a policy update that are set.
pub open spec fn updatepolicyrequest_heartbeat_attributes(r: UpdatePolicyRequest, start: Seq<(Seq<char>, AttributeView)>) -> Seq<(Seq<char>, AttributeView)> {
    start
        + int_attr("duration"@, opt_i64(r.duration))
        + flag_attr("strict"@, r.strict)
        + flag_attr("floating"@, r.floating)
        + flag_attr("requireHeartbeat"@, r.require_heartbeat)
        + int_attr("heartbeatDuration"@, opt_i64(r.heartbeat_duration))
}

/// `start` followed by the strategy attributes of a policy update that are set.
pub open spec fn updatepolicyrequest_strategy_attributes(r: UpdatePolicyRequest, start: Seq<(Seq<char>, AttributeView)>) -> Seq<(Seq<char>, AttributeView)> {
    start
        + text_attr("expirationStrategy"@, match r.expiration_strategy { Some(e) => Some(e.code()), None => None })
        + text_attr("authenticationStrategy"@, match r.authentication_strategy { Some(e) => Some(e.code()), None => None })
        + text_attr("machineLeasingStrategy"@, match r.machine_leasing_strategy { Some(e) => Some(e.code()), None => None })
        + text_attr("processLeasingStrategy"@, match r.process_leasing_strategy { Some(e) => Some(e.code()), None => None })
        + text_attr("overageStrategy"@, match r.overage_strategy { Some(e) => Some(e.code()), None => None })
        + text_attr("transferStrategy"@, match r.transfer_strategy { Some(e) => Some(e.code()), None => None })
}

/// `start` followed by the limit, protection and check-in attributes of a policy update that are set.
pub open spec fn updatepolicyrequest_limit_attributes(r: UpdatePolicyRequest, start: Seq<(Seq<char>, AttributeView)>) -> Seq<(Seq<char>, AttributeView)> {
    start
        + int_attr("maxMachines"@, opt_i32(r.max_machines))
        + int_attr("maxProcesses"@, opt_i32(r.max_processes))
        + int_attr("maxCores"@, opt_i32(r.max_cores))
        + int_attr("maxUses"@, opt_i32(r.max_uses))
        + flag_attr("protected"@, r.protected)
}

/// `start` followed by the check-in, user limit and scheme attributes of a policy update that are set.
pub open spec fn updatepolicyrequest_check_in_attributes(r: UpdatePolicyRequest, start: Seq<(Seq<char>, AttributeView)>) -> Seq<(Seq<char>, AttributeView)> {
    start
        + flag_attr("requireCheckIn"@, r.require_check_in)
        + text_attr("checkInInterval"@, opt_chars(r.check_in_interval))
        + int_attr("checkInIntervalCount"@, opt_i32(r.check_in_interval_count))
        + int_attr("maxUsers"@, opt_i32(r.max_users))
        + text_attr("scheme"@, match r.scheme { Some(e) => Some(e.code()), None => None })
}

/// The attributes sent when a policy is created: the name, then every
/// other attribute that is set (the metadata aside), under its API name.
pub open spec fn create_policy_attributes(r: CreatePolicyRequest) -> Seq<(Seq<char>, AttributeView)> {
    createpolicyrequest_pool_attributes(
        r,
        createpolicyrequest_limit_attributes(
        r,
        createpolicyrequest_strategy_attributes(
        r,
        createpolicyrequest_matching_attributes(
        r,
        createpolicyrequest_heartbeat_attributes(
        r,
        seq![("name"@, AttributeView::Text(r.name@))],
    ),
    ),
    ),
    ),
    )
}

/// The attributes sent when a policy is updated: the set ones among the
/// name, duration, strictness, floating, heartbeat requirement and
/// duration, expiration, authentication, leasing, overage and transfer
/// strategies, limits, protection, check-in settings, user limit and
/// scheme (the metadata aside). Other fields of the request are not sent.
pub open spec fn update_policy_attributes(r: UpdatePolicyRequest) -> Seq<(Seq<char>, AttributeView)> {
    updatepolicyrequest_check_in_attributes(
        r,
        updatepolicyrequest_limit_attributes(
        r,
        updatepolicyrequest_strategy_attributes(
        r,
        updatepolicyrequest_heartbeat_attributes(
        r,
        Seq::empty() + text_attr("name"@, opt_chars(r.name)),
    ),
    ),
    ),
    )
}

impl CreatePolicyRequest {
    fn push_heartbeat_attributes(&self, attrs: Vec<(String, AttributeValue)>) -> (r: Vec<(String, AttributeValue)>)
        ensures
            attribute_views(r@) === createpolicyrequest_heartbeat_attributes(*self, attribute_views(attrs@)),
    {
        let mut attrs = attrs;
        attrs = push_i64(attrs, "duration", self.duration);
        attrs = push_flag(attrs, "strict", self.strict);
        attrs = push_flag(attrs, "floating", self.floating);
        attrs = push_flag(attrs, "requireHeartbeat", self.require_heartbeat);
        attrs = push_i64(attrs, "heartbeatDuration", self.heartbeat_duration);
        attrs = push_text(attrs, "heartbeatCullStrategy", copy_text(&self.heartbeat_cull_strategy));
        attrs = push_text(attrs, "heartbeatResurrectionStrategy", copy_text(&self.heartbeat_resurrection_strategy));
        attrs = push_text(attrs, "heartbeatBasis", copy_text(&self.heartbeat_basis));
        attrs
    }

    fn push_matching_attributes(&self, attrs: Vec<(String, AttributeValue)>) -> (r: Vec<(String, AttributeValue)>)
        ensures
            attribute_views(r@) === createpolicyrequest_matching_attributes(*self, attribute_views(attrs@)),
    {
        let mut attrs = attrs;
        attrs = push_text(attrs, "machineUniquenessStrategy", uniqueness_strategy_text(self.machine_uniqueness_strategy));
        attrs = push_text(attrs, "componentUniquenessStrategy", uniqueness_strategy_text(self.component_uniqueness_strategy));
        attrs = push_text(attrs, "machineMatchingStrategy", matching_strategy_text(self.machine_matching_strategy));
        attrs = push_text(attrs, "componentMatchingStrategy", matching_strategy_text(self.component_matching_strategy));
        attrs = push_text(attrs, "expirationStrategy", expiration_strategy_text(self.expiration_strategy));
        attrs = push_text(attrs, "expirationBasis", copy_text(&self.expiration_basis));
        attrs = push_text(attrs, "renewalBasis", copy_text(&self.renewal_basis));
        attrs
    }

    fn push_strategy_attributes(&self, attrs: Vec<(String, AttributeValue)>) -> (r: Vec<(String, AttributeValue)>)
        ensures
            attribute_views(r@) === createpolicyrequest_strategy_attributes(*self, attribute_views(attrs@)),
    {
        let mut attrs = attrs;
        attrs = push_text(attrs, "authenticationStrategy", authentication_strategy_text(self.authentication_strategy));
        attrs = push_text(attrs, "machineLeasingStrategy", leasing_strategy_text(self.machine_leasing_strategy));
        attrs = push_text(attrs, "processLeasingStrategy", leasing_strategy_text(self.process_leasing_strategy));
        attrs = push_text(attrs, "overageStrategy", overage_strategy_text(self.overage_strategy));
        attrs = push_text(attrs, "transferStrategy", transfer_strategy_text(self.transfer_strategy));
        attrs
    }

    fn push_limit_attributes(&self, attrs: Vec<(String, AttributeValue)>) -> (r: Vec<(String, AttributeValue)>)
        ensures
            attribute_views(r@) === createpolicyrequest_limit_attributes(*self, attribute_views(attrs@)),
    {
        let mut attrs = attrs;
        attrs = push_i32(attrs, "maxMachines", self.max_machines);
        attrs = push_i32(attrs, "maxProcesses", self.max_processes);
        attrs = push_i32(attrs, "maxCores", self.max_cores);
        attrs = push_i32(attrs, "maxUses", self.max_uses);
        attrs = push_flag(attrs, "encrypted", self.encrypted);
        attrs = push_flag(attrs, "protected", self.protected);
        attrs = push_flag(attrs, "requireCheckIn", self.require_check_in);
        attrs = push_text(attrs, "checkInInterval", copy_text(&self.check_in_interval));
        attrs = push_i32(attrs, "checkInIntervalCount", self.check_in_interval_count);
        attrs
    }

    fn push_pool_attributes(&self, attrs: Vec<(String, AttributeValue)>) -> (r: Vec<(String, AttributeValue)>)
        ensures
            attribute_views(r@) === createpolicyrequest_pool_attributes(*self, attribute_views(attrs@)),
    {
        let mut attrs = attrs;
        attrs = push_flag(attrs, "usePool", self.use_pool);
        attrs = push_i32(attrs, "maxLicenses", self.max_licenses);
        attrs = push_i32(attrs, "maxUsers", self.max_users);
        attrs = push_text(attrs, "scheme", scheme_text(self.scheme));
        attrs
    }

    /// The attributes of the request body, in the order they are set.
    pub fn attributes(&self) -> (r: Vec<(String, AttributeValue)>)
        ensures
            attribute_views(r@) === create_policy_attributes(*self),
    {
        let mut attrs: Vec<(String, AttributeValue)> = Vec::new();
        attrs.push((to_string("name"), AttributeValue::Text(self.name.clone())));
        assert(attribute_views(attrs@) =~= seq![("name"@, AttributeView::Text(self.name@))]) by {
            reveal(attribute_views);
        }
        attrs = self.push_heartbeat_attributes(attrs);
        attrs = self.push_matching_attributes(attrs);
        attrs = self.push_strategy_attributes(attrs);
        attrs = self.push_limit_attributes(attrs);
        attrs = self.push_pool_attributes(attrs);
        attrs
    }
}

impl UpdatePolicyRequest {
    fn push_heartbeat_attributes(&self, attrs: Vec<(String, AttributeValue)>) -> (r: Vec<(String, AttributeValue)>)
        ensures
            attribute_views(r@) === updatepolicyrequest_heartbeat_attributes(*self, attribute_views(attrs@)),
    {
        let mut attrs = attrs;
        attrs = push_i64(attrs, "duration", self.duration);
        attrs = push_flag(attrs, "strict", self.strict);
        attrs = push_flag(attrs, "floating", self.floating);
        attrs = push_flag(attrs, "requireHeartbeat", self.require_heartbeat);
        attrs = push_i64(attrs, "heartbeatDuration", self.heartbeat_duration);
        attrs
    }

    fn push_strategy_attributes(&self, attrs: Vec<(String, AttributeValue)>) -> (r: Vec<(String, AttributeValue)>)
        ensures
            attribute_views(r@) === updatepolicyrequest_strategy_attributes(*self, attribute_views(attrs@)),
    {
        let mut attrs = attrs;
        attrs = push_text(attrs, "expirationStrategy", expiration_strategy_text(self.expiration_strategy));
        attrs = push_text(attrs, "authenticationStrategy", authentication_strategy_text(self.authentication_strategy));
        attrs = push_text(attrs, "machineLeasingStrategy", leasing_strategy_text(self.machine_leasing_strategy));
        attrs = push_text(attrs, "processLeasingStrategy", leasing_strategy_text(self.process_leasing_strategy));
        attrs = push_text(attrs, "overageStrategy", overage_strategy_text(self.overage_strategy));
        attrs = push_text(attrs, "transferStrategy", transfer_strategy_text(self.transfer_strategy));
        attrs
    }

    fn push_limit_attributes(&self, attrs: Vec<(String, AttributeValue)>) -> (r: Vec<(String, AttributeValue)>)
        ensures
            attribute_views(r@) === updatepolicyrequest_limit_attributes(*self, attribute_views(attrs@)),
    {
        let mut attrs = attrs;
        attrs = push_i32(attrs, "maxMachines", self.max_machines);
        attrs = push_i32(attrs, "maxProcesses", self.max_processes);
        attrs = push_i32(attrs, "maxCores", self.max_cores);
        attrs = push_i32(attrs, "maxUses", self.max_uses);
        attrs = push_flag(attrs, "protected", self.protected);
        attrs
    }

    fn push_check_in_attributes(&self, attrs: Vec<(String, AttributeValue)>) -> (r: Vec<(String, AttributeValue)>)
        ensures
            attribute_views(r@) === updatepolicyrequest_check_in_attributes(*self, attribute_views(attrs@)),
    {
        let mut attrs = attrs;
        attrs = push_flag(attrs, "requireCheckIn", self.require_check_in);
        attrs = push_text(attrs, "checkInInterval", copy_text(&self.check_in_interval));
        attrs = push_i32(attrs, "checkInIntervalCount", self.check_in_interval_count);
        attrs = push_i32(attrs, "maxUsers", self.max_users);
        attrs = push_text(attrs, "scheme", scheme_text(self.scheme));
        attrs
    }

    /// The attributes of the request body, in the order they are set.
    pub fn attributes(&self) -> (r: Vec<(String, AttributeValue)>)
        ensures
            attribute_views(r@) === update_policy_attributes(*self),
    {
        let mut attrs: Vec<(String, AttributeValue)> = Vec::new();
        assert(attribute_views(attrs@) =~= Seq::empty()) by {
            reveal(attribute_views);
        }
        attrs = push_text(attrs, "name", copy_text(&self.name));
        attrs = self.push_heartbeat_attributes(attrs);
        attrs = self.push_strategy_attributes(attrs);
        attrs = self.push_limit_attributes(attrs);
        attrs = self.push_check_in_attributes(attrs);
        attrs
    }
}

impl Default for CreatePolicyRequest {
    fn default() -> (r: Self)
        ensures
            r.name@ == Seq::<char>::empty(),
            r.product_id@ == Seq::<char>::empty(),
            r.metadata is None,
            r.duration is None,
            r.strict is None,
            r.floating is None,
            r.require_heartbeat is None,
            r.heartbeat_duration is None,
            r.heartbeat_cull_strategy is None,
            r.heartbeat_resurrection_strategy is None,
            r.heartbeat_basis is None,
            r.machine_uniqueness_strategy is None,
            r.component_uniqueness_strategy is None,
            r.machine_matching_strategy is None,
            r.component_matching_strategy is None,
            r.expiration_strategy is None,
            r.expiration_basis is None,
            r.renewal_basis is None,
            r.authentication_strategy is None,
            r.machine_leasing_strategy is None,
            r.process_leasing_strategy is None,
            r.overage_strategy is None,
            r.transfer_strategy is None,
            r.max_machines is None,
            r.max_processes is None,
            r.max_cores is None,
            r.max_uses is None,
            r.encrypted is None,
            r.protected is None,
            r.require_check_in is None,
            r.check_in_interval is None,
            r.check_in_interval_count is None,
            r.use_pool is None,
            r.max_licenses is None,
            r.max_users is None,
            r.scheme is None,
    {
        CreatePolicyRequest {
            name: String::new(),
            duration: None,
            strict: None,
            floating: None,
            require_heartbeat: None,
            heartbeat_duration: None,
            heartbeat_cull_strategy: None,
            heartbeat_resurrection_strategy: None,
            heartbeat_basis: None,
            machine_uniqueness_strategy: None,
            component_uniqueness_strategy: None,
            machine_matching_strategy: None,
            component_matching_strategy: None,
            expiration_strategy: None,
            expiration_basis: None,
            renewal_basis: None,
            authentication_strategy: None,
            machine_leasing_strategy: None,
            process_leasing_strategy: None,
            overage_strategy: None,
            transfer_strategy: None,
            max_machines: None,
            max_processes: None,
            max_cores: None,
            max_uses: None,
            encrypted: None,
            protected: None,
            require_check_in: None,
            check_in_interval: None,
            check_in_interval_count: None,
            use_pool: None,
            max_licenses: None,
            max_users: None,
            scheme: None,
            metadata: None,
            product_id: String::new(),
        }
    }
}

impl Default for UpdatePolicyRequest {
    fn default() -> (r: Self)
        ensures
            r.name is None,
            r.metadata is None,
            r.duration is None,
            r.strict is None,
            r.floating is None,
            r.require_heartbeat is None,
            r.heartbeat_duration is None,
            r.heartbeat_cull_strategy is None,
            r.heartbeat_resurrection_strategy is None,
            r.heartbeat_basis is None,
            r.machine_uniqueness_strategy is None,
            r.component_uniqueness_strategy is None,
            r.machine_matching_strategy is None,
            r.component_matching_strategy is None,
            r.expiration_strategy is None,
            r.expiration_basis is None,
            r.renewal_basis is None,
            r.authentication_strategy is None,
            r.machine_leasing_strategy is None,
            r.process_leasing_strategy is None,
            r.overage_strategy is None,
            r.transfer_strategy is None,
            r.max_machines is None,
            r.max_processes is None,
            r.max_cores is None,
            r.max_uses is None,
            r.protected is None,
            r.require_check_in is None,
            r.check_in_interval is None,
            r.check_in_interval_count is None,
            r.max_users is None,
            r.scheme is None,
    {
        UpdatePolicyRequest {
            name: None,
            duration: None,
            strict: None,
            floating: None,
            require_heartbeat: None,
            heartbeat_duration: None,
            heartbeat_cull_strategy: None,
            heartbeat_resurrection_strategy: None,
            heartbeat_basis: None,
            machine_uniqueness_strategy: None,
            component_uniqueness_strategy: None,
            machine_matching_strategy: None,
            component_matching_strategy: None,
            expiration_strategy: None,
            expiration_basis: None,
            renewal_basis: None,
            authentication_strategy: None,
            machine_leasing_strategy: None,
            process_leasing_strategy: None,
            overage_strategy: None,
            transfer_strategy: None,
            max_machines: None,
            max_processes: None,
            max_cores: None,
            max_uses: None,
            protected: None,
            require_check_in: None,
            check_in_interval: None,
            check_in_interval_count: None,
            max_users: None,
            scheme: None,
            metadata: None,
        }
    }
}

/// Options for listing policies.
#[derive(Debug, Clone, Default)]
pub struct ListPoliciesOptions {
    pub limit: Option<u32>,
    pub page_size: Option<u32>,
    pub page_number: Option<u32>,
    pub product: Option<String>,
}

/// `start` followed by part 1 of the query parameters of a `ListPoliciesOptions`.
pub open spec fn list_policies_options_query_1(r: ListPoliciesOptions, start: Seq<(Seq<char>, AttributeView)>) -> Seq<(Seq<char>, AttributeView)> {
    start
        + int_attr("limit"@, opt_u32(r.limit))
        + int_attr("page[size]"@, opt_u32(r.page_size))
        + int_attr("page[number]"@, opt_u32(r.page_number))
        + text_attr("product"@, opt_chars(r.product))
}

/// The query of a policy listing: the limit, page size, page number and product filter that are set, in order.
pub open spec fn policy_list_query(r: ListPoliciesOptions) -> Seq<(Seq<char>, AttributeView)> {
    list_policies_options_query_1(r, Seq::empty())
}

impl ListPoliciesOptions {
    fn push_query_1(&self, attrs: Vec<(String, AttributeValue)>) -> (r: Vec<(String, AttributeValue)>)
        ensures
            attribute_views(r@) === list_policies_options_query_1(*self, attribute_views(attrs@)),
    {
        let mut attrs = attrs;
        attrs = push_u32(attrs, "limit", self.limit);
        attrs = push_u32(attrs, "page[size]", self.page_size);
        attrs = push_u32(attrs, "page[number]", self.page_number);
        attrs = push_text(attrs, "product", copy_text(&self.product));
        attrs
    }

    /// The query parameters that are set, in order.
    pub fn query(&self) -> (r: Vec<(String, AttributeValue)>)
        ensures
            attribute_views(r@) === policy_list_query(*self),
    {
        let mut attrs: Vec<(String, AttributeValue)> = Vec::new();
        assert(attribute_views(attrs@) =~= Seq::empty()) by {
            reveal(attribute_views);
        }
        attrs = self.push_query_1(attrs);
        attrs
    }
}

/// The relationships sent when a policy is created: its product.
pub open spec fn create_policy_relationships(r: CreatePolicyRequest) -> Seq<(Seq<char>, Seq<char>, Seq<char>)> {
    Seq::empty() + seq![("product"@, "products"@, r.product_id@)]
}

impl CreatePolicyRequest {
    /// The relationships of the request body.
    pub fn relationships(&self) -> (r: Vec<Relationship>)
        ensures
            relationship_views(r@) == create_policy_relationships(*self),
    {
        let mut rels: Vec<Relationship> = Vec::new();
        assert(relationship_views(rels@) =~= Seq::empty());
        rels = push_relationship(rels, "product", "products", Some(self.product_id.clone()));
        rels
    }
}

} // verus!
