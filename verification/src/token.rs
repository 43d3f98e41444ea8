//! API tokens: their kinds, expiry and permissions, and the body that
//! regenerates one.

use std::collections::HashMap;

use vstd::prelude::*;

use crate::certificate::{current_time, parse_rfc3339, rfc3339_instant, Timestamp};

use crate::attributes::{
    attribute_views, copy_text, copy_texts, int_attr, opt_chars, opt_u32, opt_texts, push_u32, push_text, push_texts, text_attr, texts_attr, AttributeValue, AttributeView, text_views,
};
use crate::text::{chars_eq_str, chars_of, to_string};

verus! {

/// What a token authenticates as.
#[derive(Debug, Clone, Copy, PartialEq, Eq, Structural)]
pub enum TokenKind {
    ActivationToken,
    ProductToken,
    UserToken,
    SupportToken,
    SalesToken,
    DeveloperToken,
    AdminToken,
}

impl TokenKind {
    /// The code the API uses for the value.
    pub open spec fn code(self) -> Seq<char> {
        match self {
            TokenKind::ActivationToken => "activation-token"@,
            TokenKind::ProductToken => "product-token"@,
            TokenKind::UserToken => "user-token"@,
            TokenKind::SupportToken => "support-token"@,
            TokenKind::SalesToken => "sales-token"@,
            TokenKind::DeveloperToken => "developer-token"@,
            TokenKind::AdminToken => "admin-token"@,
        }
    }

    /// The code the API uses for the value.
    pub fn as_str(self) -> (r: &'static str)
        ensures
            r@ == self.code(),
    {
        match self {
            TokenKind::ActivationToken => "activation-token",
            TokenKind::ProductToken => "product-token",
            TokenKind::UserToken => "user-token",
            TokenKind::SupportToken => "support-token",
            TokenKind::SalesToken => "sales-token",
            TokenKind::DeveloperToken => "developer-token",
            TokenKind::AdminToken => "admin-token",
        }
    }

    /// The value whose code is exactly `c`.
    pub open spec fn with_code(c: Seq<char>) -> Option<Self> {
        if c == "activation-token"@ {
            Some(TokenKind::ActivationToken)
        } else if c == "product-token"@ {
            Some(TokenKind::ProductToken)
        } else if c == "user-token"@ {
            Some(TokenKind::UserToken)
        } else if c == "support-token"@ {
            Some(TokenKind::SupportToken)
        } else if c == "sales-token"@ {
            Some(TokenKind::SalesToken)
        } else if c == "developer-token"@ {
            Some(TokenKind::DeveloperToken)
        } else if c == "admin-token"@ {
            Some(TokenKind::AdminToken)
        } else {
            None
        }
    }

    /// The value whose code is `code`, if any.
    pub fn from_code(code: &str) -> (r: Option<Self>)
        ensures
            r == Self::with_code(code@),
    {
        let v = chars_of(code);
        let c = v.as_slice();
        if chars_eq_str(c, "activation-token") {
            Some(TokenKind::ActivationToken)
        } else if chars_eq_str(c, "product-token") {
            Some(TokenKind::ProductToken)
        } else if chars_eq_str(c, "user-token") {
            Some(TokenKind::UserToken)
        } else if chars_eq_str(c, "support-token") {
            Some(TokenKind::SupportToken)
        } else if chars_eq_str(c, "sales-token") {
            Some(TokenKind::SalesToken)
        } else if chars_eq_str(c, "developer-token") {
            Some(TokenKind::DeveloperToken)
        } else if chars_eq_str(c, "admin-token") {
            Some(TokenKind::AdminToken)
        } else {
            None
        }
    }
}

/// Reading the code of a TokenKind gives the value back.
pub proof fn law_token_kind_code_round_trip(x: TokenKind)
    ensures
        TokenKind::with_code(x.code()) == Some(x),
{
    reveal_strlit("activation-token");
    reveal_strlit("product-token");
    reveal_strlit("user-token");
    reveal_strlit("support-token");
    reveal_strlit("sales-token");
    reveal_strlit("developer-token");
    reveal_strlit("admin-token");
    match x {
        TokenKind::ActivationToken => {
        },
        TokenKind::ProductToken => {
            assert("product-token"@.len() != "activation-token"@.len());
        },
        TokenKind::UserToken => {
            assert("user-token"@.len() != "activation-token"@.len());
            assert("user-token"@.len() != "product-token"@.len());
        },
        TokenKind::SupportToken => {
            assert("support-token"@.len() != "activation-token"@.len());
            assert("support-token"@[0] != "product-token"@[0]);
            assert("support-token"@.len() != "user-token"@.len());
        },
        TokenKind::SalesToken => {
            assert("sales-token"@.len() != "activation-token"@.len());
            assert("sales-token"@.len() != "product-token"@.len());
            assert("sales-token"@.len() != "user-token"@.len());
            assert("sales-token"@.len() != "support-token"@.len());
        },
        TokenKind::DeveloperToken => {
            assert("developer-token"@.len() != "activation-token"@.len());
            assert("developer-token"@.len() != "product-token"@.len());
            assert("developer-token"@.len() != "user-token"@.len());
            assert("developer-token"@.len() != "support-token"@.len());
            assert("developer-token"@.len() != "sales-token"@.len());
        },
        TokenKind::AdminToken => {
            assert("admin-token"@.len() != "activation-token"@.len());
            assert("admin-token"@.len() != "product-token"@.len());
            assert("admin-token"@.len() != "user-token"@.len());
            assert("admin-token"@.len() != "support-token"@.len());
            assert("admin-token"@[0] != "sales-token"@[0]);
            assert("admin-token"@.len() != "developer-token"@.len());
        },
    }
}

/// The code of an optional TokenKind.
pub fn token_kind_text(e: Option<TokenKind>) -> (r: Option<String>)
    ensures
        opt_chars(r) == match e {
            Some(x) => Some(x.code()),
            None => None,
        },
{
    match e {
        Some(x) => Some(to_string(x.as_str())),
        None => None,
    }
}

/// Page-number pagination for listing tokens.
#[derive(Debug, Clone, Default)]
pub struct ListTokensOptions {
    pub limit: Option<u32>,
    pub page_size: Option<u32>,
    pub page_number: Option<u32>,
}

/// `start` followed by part 1 of the query parameters of a `ListTokensOptions`.
pub open spec fn list_tokens_options_query_1(r: ListTokensOptions, start: Seq<(Seq<char>, AttributeView)>) -> Seq<(Seq<char>, AttributeView)> {
    start
        + int_attr("limit"@, opt_u32(r.limit))
        + int_attr("page[size]"@, opt_u32(r.page_size))
        + int_attr("page[number]"@, opt_u32(r.page_number))
}

/// The query parameters of a listing with `r`: the limit, page size and page number that are set, in order.
pub open spec fn token_list_query(r: ListTokensOptions) -> Seq<(Seq<char>, AttributeView)> {
    list_tokens_options_query_1(r, Seq::empty())
}

impl ListTokensOptions {
    fn push_query_1(&self, attrs: Vec<(String, AttributeValue)>) -> (r: Vec<(String, AttributeValue)>)
        ensures
            attribute_views(r@) === list_tokens_options_query_1(*self, attribute_views(attrs@)),
    {
        let mut attrs = attrs;
        attrs = push_u32(attrs, "limit", self.limit);
        attrs = push_u32(attrs, "page[size]", self.page_size);
        attrs = push_u32(attrs, "page[number]", self.page_number);
        attrs
    }

    /// The query parameters that are set, in order.
    pub fn query(&self) -> (r: Vec<(String, AttributeValue)>)
        ensures
            attribute_views(r@) === token_list_query(*self),
    {
        let mut attrs: Vec<(String, AttributeValue)> = Vec::new();
        assert(attribute_views(attrs@) =~= Seq::empty()) by {
            reveal(attribute_views);
        }
        attrs = self.push_query_1(attrs);
        attrs
    }
}

/// The attributes of a regenerated token.
#[derive(Debug, Clone)]
pub struct RegenerateTokenRequest {
    pub name: Option<String>,
    pub expiry: Option<String>,
    pub permissions: Option<Vec<String>>,
    pub metadata: Option<HashMap<String, serde_json::Value>>,
}

/// `start` followed by part 1 of the attributes of a `RegenerateTokenRequest`.
pub open spec fn regenerate_token_request_attributes_1(r: RegenerateTokenRequest, start: Seq<(Seq<char>, AttributeView)>) -> Seq<(Seq<char>, AttributeView)> {
    start
        + text_attr("name"@, opt_chars(r.name))
        + text_attr("expiry"@, opt_chars(r.expiry))
        + texts_attr("permissions"@, opt_texts(r.permissions))
}

/// The attributes sent when a token is regenerated: the name, expiry and permissions that are set (the metadata aside).
pub open spec fn regenerate_token_attributes(r: RegenerateTokenRequest) -> Seq<(Seq<char>, AttributeView)> {
    regenerate_token_request_attributes_1(r, Seq::empty())
}

impl RegenerateTokenRequest {
    fn push_attributes_1(&self, attrs: Vec<(String, AttributeValue)>) -> (r: Vec<(String, AttributeValue)>)
        ensures
            attribute_views(r@) === regenerate_token_request_attributes_1(*self, attribute_views(attrs@)),
    {
        let mut attrs = attrs;
        attrs = push_text(attrs, "name", copy_text(&self.name));
        attrs = push_text(attrs, "expiry", copy_text(&self.expiry));
        attrs = push_texts(attrs, "permissions", copy_texts(&self.permissions));
        attrs
    }

    /// The attributes of the request body that are set, in order.
    pub fn attributes(&self) -> (r: Vec<(String, AttributeValue)>)
        ensures
            attribute_views(r@) === regenerate_token_attributes(*self),
    {
        let mut attrs: Vec<(String, AttributeValue)> = Vec::new();
        assert(attribute_views(attrs@) =~= Seq::empty()) by {
            reveal(attribute_views);
        }
        attrs = self.push_attributes_1(attrs);
        attrs
    }
}

/// An API token.
#[derive(Debug, Clone)]
pub struct Token {
    pub id: String,
    pub kind: TokenKind,
    /// The secret, present only when the token was just generated or regenerated.
    pub token: Option<String>,
    pub name: Option<String>,
    pub expiry: Option<String>,
    pub permissions: Option<Vec<String>>,
    pub metadata: Option<HashMap<String, serde_json::Value>>,
    pub created: String,
    pub updated: String,
}

/// Whether the instant `now` comes after the expiry `expiry`, when that is
/// a date-time chrono reads; a token without a readable expiry never
/// expires.
pub open spec fn expired_at(expiry: Option<String>, now: Timestamp) -> bool {
    match expiry {
        Some(e) => match rfc3339_instant(e@) {
            Some((secs, nanos)) => now.secs > secs || (now.secs == secs && now.nanos > nanos),
            None => false,
        },
        None => false,
    }
}

impl Token {
    /// Whether the token had expired at `now`.
    pub fn is_expired_at(&self, now: Timestamp) -> (r: bool)
        ensures
            r == expired_at(self.expiry, now),
    {
        match &self.expiry {
            Some(e) => match parse_rfc3339(e.as_str()) {
                Some(t) => now.is_after(t),
                None => false,
            },
            None => false,
        }
    }

    /// Whether the token has expired, by the system clock.
    pub fn is_expired(&self) -> (r: bool)
        ensures
            r ==> (self.expiry matches Some(e) && rfc3339_instant(e@) is Some),
            exists|now: Timestamp| now.nanos < 2_000_000_000 && #[trigger] expired_at(self.expiry, now) == r,
    {
        let now = current_time();
        let r = self.is_expired_at(now);
        assert(now.nanos < 2_000_000_000 && expired_at(self.expiry, now) == r);
        r
    }

    /// Whether the token's permissions hold `permission`.
    pub fn has_permission(&self, permission: &str) -> (r: bool)
        ensures
            r == (self.permissions matches Some(p) && text_views(p@).contains(permission@)),
    {
        match &self.permissions {
            Some(p) => {
                let mut i: usize = 0;
                while i < p.len()
                    invariant
                        i <= p@.len(),
                        self.permissions == Some(*p),
                        forall|j: int| 0 <= j < i ==> p@[j]@ != permission@,
                    decreases p@.len() - i,
                {
                    if chars_eq_str(chars_of(p[i].as_str()).as_slice(), permission) {
                        assert(text_views(p@)[i as int] == permission@);
                        assert(text_views(p@).contains(permission@));
                        return true;
                    }
                    i = i + 1;
                }
                assert(!text_views(p@).contains(permission@)) by {
                    if text_views(p@).contains(permission@) {
                        let j = choose|j: int| 0 <= j < text_views(p@).len() && text_views(p@)[j] == permission@;
                        assert(p@[j]@ == permission@);
                    }
                }
                false
            },
            None => false,
        }
    }

    /// The secret, present only when the token was just generated or
    /// regenerated.
    pub fn get_token(&self) -> (r: Option<&str>)
        ensures
            match r {
                Some(t) => self.token matches Some(s) && t@ == s@,
                None => self.token is None,
            },
    {
        match &self.token {
            Some(t) => Some(t.as_str()),
            None => None,
        }
    }
}

/// Expiry is final: a token expired at some instant stays expired at every
/// later instant.
pub proof fn law_token_expiry_is_final(expiry: Option<String>, earlier: Timestamp, later: Timestamp)
    requires
        expired_at(expiry, earlier),
        later.secs > earlier.secs || (later.secs == earlier.secs && later.nanos >= earlier.nanos),
    ensures
        expired_at(expiry, later),
{
}

} // verus!
