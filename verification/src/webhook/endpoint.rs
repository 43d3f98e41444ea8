//! Webhook endpoints: where Keygen delivers events, and the requests that
//! create and change them.

use vstd::prelude::*;

use crate::attributes::{
    attribute_views, copy_text, int_attr, opt_chars, opt_i32, push_i32, push_relationship,
    push_text, push_texts, relationship_of, relationship_views, text_attr, text_views, texts_attr,
    AttributeValue, AttributeView, Relationship,
};
use crate::certificate::Timestamp;
use crate::text::{chars_eq_str, chars_of, to_string};
use crate::webhook::event_types::WebhookEvent;

verus! {

/// The algorithm webhook deliveries are signed with.
#[derive(Debug, Clone, Copy, PartialEq, Eq, Structural)]
pub enum SignatureAlgorithm {
    Ed25519,
    Rsa2048PssSha256,
    Rsa2048Pkcs1Sha256,
}

impl SignatureAlgorithm {
    /// The algorithm's name, as the API spells it.
    pub open spec fn code(self) -> Seq<char> {
        match self {
            SignatureAlgorithm::Ed25519 => "ED25519"@,
            SignatureAlgorithm::Rsa2048PssSha256 => "RSA_2048_PSS_SHA256"@,
            SignatureAlgorithm::Rsa2048Pkcs1Sha256 => "RSA_2048_PKCS1_SHA256"@,
        }
    }

    /// The algorithm's name, as the API spells it.
    pub fn as_str(self) -> (r: &'static str)
        ensures
            r@ == self.code(),
    {
        match self {
            SignatureAlgorithm::Ed25519 => "ED25519",
            SignatureAlgorithm::Rsa2048PssSha256 => "RSA_2048_PSS_SHA256",
            SignatureAlgorithm::Rsa2048Pkcs1Sha256 => "RSA_2048_PKCS1_SHA256",
        }
    }
}

impl SignatureAlgorithm {
    /// The algorithm named `c`, in the API's spelling or in lower case.
    pub open spec fn with_code(c: Seq<char>) -> Option<Self> {
        if c == "ED25519"@ || c == "ed25519"@ {
            Some(SignatureAlgorithm::Ed25519)
        } else if c == "RSA_2048_PSS_SHA256"@ || c == "rsa_2048_pss_sha256"@ {
            Some(SignatureAlgorithm::Rsa2048PssSha256)
        } else if c == "RSA_2048_PKCS1_SHA256"@ || c == "rsa_2048_pkcs1_sha256"@ {
            Some(SignatureAlgorithm::Rsa2048Pkcs1Sha256)
        } else {
            None
        }
    }

    /// The algorithm named `code`, if any.
    pub fn from_code(code: &str) -> (r: Option<Self>)
        ensures
            r == Self::with_code(code@),
    {
        let v = chars_of(code);
        let c = v.as_slice();
        if chars_eq_str(c, "ED25519") || chars_eq_str(c, "ed25519") {
            Some(SignatureAlgorithm::Ed25519)
        } else if chars_eq_str(c, "RSA_2048_PSS_SHA256") || chars_eq_str(c, "rsa_2048_pss_sha256") {
            Some(SignatureAlgorithm::Rsa2048PssSha256)
        } else if chars_eq_str(c, "RSA_2048_PKCS1_SHA256") || chars_eq_str(c, "rsa_2048_pkcs1_sha256") {
            Some(SignatureAlgorithm::Rsa2048Pkcs1Sha256)
        } else {
            None
        }
    }
}

/// Reading the name of a signature algorithm gives the algorithm back.
pub proof fn law_signature_algorithm_code_round_trip(a: SignatureAlgorithm)
    ensures
        SignatureAlgorithm::with_code(a.code()) == Some(a),
{
    reveal_strlit("ED25519");
    reveal_strlit("ed25519");
    reveal_strlit("RSA_2048_PSS_SHA256");
    reveal_strlit("rsa_2048_pss_sha256");
    reveal_strlit("RSA_2048_PKCS1_SHA256");
    if a == SignatureAlgorithm::Rsa2048PssSha256 {
        assert("RSA_2048_PSS_SHA256"@.len() != "ED25519"@.len());
        assert("RSA_2048_PSS_SHA256"@.len() != "ed25519"@.len());
    }
    if a == SignatureAlgorithm::Rsa2048Pkcs1Sha256 {
        assert("RSA_2048_PKCS1_SHA256"@.len() != "ED25519"@.len());
        assert("RSA_2048_PKCS1_SHA256"@.len() != "ed25519"@.len());
        assert("RSA_2048_PKCS1_SHA256"@.len() != "RSA_2048_PSS_SHA256"@.len());
        assert("RSA_2048_PKCS1_SHA256"@[0] != "rsa_2048_pss_sha256"@[0]);
    }
}

/// A webhook endpoint of an account.
#[derive(Debug, Clone)]
pub struct WebhookEndpoint {
    pub id: String,
    pub url: String,
    /// The names of the events subscribed to.
    pub subscriptions: Vec<String>,
    pub signature_algorithm: SignatureAlgorithm,
    pub created: Timestamp,
    pub updated: Timestamp,
    pub account_id: Option<String>,
    pub environment_id: Option<String>,
}

impl Default for SignatureAlgorithm {
    fn default() -> (r: Self)
        ensures
            r == SignatureAlgorithm::Ed25519,
    {
        SignatureAlgorithm::Ed25519
    }
}

/// Options for listing webhook endpoints (or an endpoint's events).
#[derive(Debug, Default)]
pub struct WebhookEndpointListOptions {
    pub limit: Option<i32>,
    pub page_number: Option<i32>,
    pub page_size: Option<i32>,
}

/// Request for creating a webhook endpoint.
#[derive(Debug)]
pub struct WebhookEndpointCreateRequest {
    pub url: String,
    pub subscriptions: Option<Vec<WebhookEvent>>,
    pub signature_algorithm: Option<SignatureAlgorithm>,
    pub environment_id: Option<String>,
}

/// Request for updating a webhook endpoint.
#[derive(Debug, Default)]
pub struct WebhookEndpointUpdateRequest {
    pub url: Option<String>,
    pub subscriptions: Option<Vec<WebhookEvent>>,
    pub signature_algorithm: Option<SignatureAlgorithm>,
}

/// The names of the events subscribed to.
pub open spec fn subscription_codes(events: Option<Vec<WebhookEvent>>) -> Option<Seq<Seq<char>>> {
    match events {
        Some(v) => Some(v@.map_values(|e: WebhookEvent| e.code())),
        None => None,
    }
}

/// The name of a signature algorithm, when one is given.
pub open spec fn algorithm_code(a: Option<SignatureAlgorithm>) -> Option<Seq<char>> {
    match a {
        Some(x) => Some(x.code()),
        None => None,
    }
}

/// The attributes sent when an endpoint is created: its URL, then the
/// names of the events subscribed to and the signature algorithm when they
/// are given.
pub open spec fn create_endpoint_attributes(r: WebhookEndpointCreateRequest) -> Seq<
    (Seq<char>, AttributeView),
> {
    seq![("url"@, AttributeView::Text(r.url@))] + texts_attr(
        "subscriptions"@,
        subscription_codes(r.subscriptions),
    ) + text_attr("signatureAlgorithm"@, algorithm_code(r.signature_algorithm))
}

/// The attributes sent when an endpoint is updated: the URL, the names of
/// the events subscribed to and the signature algorithm, each when given.
pub open spec fn update_endpoint_attributes(r: WebhookEndpointUpdateRequest) -> Seq<
    (Seq<char>, AttributeView),
> {
    Seq::empty() + text_attr("url"@, opt_chars(r.url)) + texts_attr(
        "subscriptions"@,
        subscription_codes(r.subscriptions),
    ) + text_attr("signatureAlgorithm"@, algorithm_code(r.signature_algorithm))
}

/// The query parameters of a listing with page-number pagination.
pub open spec fn page_number_query(limit: Option<i32>, page_number: Option<i32>, page_size: Option<i32>) -> Seq<
    (Seq<char>, AttributeView),
> {
    Seq::empty() + int_attr("limit"@, opt_i32(limit)) + int_attr("page[number]"@, opt_i32(page_number))
        + int_attr("page[size]"@, opt_i32(page_size))
}

/// The names of `events`.
pub fn event_codes(events: &Vec<WebhookEvent>) -> (r: Vec<String>)
    ensures
        text_views(r@) == events@.map_values(|e: WebhookEvent| e.code()),
{
    let mut codes: Vec<String> = Vec::new();
    let mut i: usize = 0;
    while i < events.len()
        invariant
            i <= events@.len(),
            text_views(codes@) == events@.take(i as int).map_values(|e: WebhookEvent| e.code()),
        decreases events@.len() - i,
    {
        let ghost before = codes@;
        codes.push(to_string(events[i].as_str()));
        assert(text_views(codes@) =~= text_views(before).push(events@[i as int].code()));
        assert(events@.take(i + 1).map_values(|e: WebhookEvent| e.code()) =~= events@.take(
            i as int,
        ).map_values(|e: WebhookEvent| e.code()).push(events@[i as int].code()));
        i = i + 1;
    }
    assert(events@.take(i as int) =~= events@);
    codes
}

fn subscriptions_text(events: &Option<Vec<WebhookEvent>>) -> (r: Option<Vec<String>>)
    ensures
        match r {
            Some(l) => Some(text_views(l@)),
            None => None,
        } == subscription_codes(*events),
{
    match events {
        Some(v) => Some(event_codes(v)),
        None => None,
    }
}

fn algorithm_text(a: Option<SignatureAlgorithm>) -> (r: Option<String>)
    ensures
        opt_chars(r) == algorithm_code(a),
{
    match a {
        Some(x) => Some(to_string(x.as_str())),
        None => None,
    }
}

impl WebhookEndpointListOptions {
    /// The query parameters of the listing, in the order they are set.
    pub fn query(&self) -> (r: Vec<(String, AttributeValue)>)
        ensures
            attribute_views(r@) === page_number_query(self.limit, self.page_number, self.page_size),
    {
        let mut attrs: Vec<(String, AttributeValue)> = Vec::new();
        assert(attribute_views(attrs@) =~= Seq::empty()) by {
            reveal(attribute_views);
        }
        attrs = push_i32(attrs, "limit", self.limit);
        attrs = push_i32(attrs, "page[number]", self.page_number);
        attrs = push_i32(attrs, "page[size]", self.page_size);
        attrs
    }
}

impl WebhookEndpointCreateRequest {
    /// A request for an endpoint at `url`, with nothing else set.
    pub fn new(url: String) -> (r: Self)
        ensures
            r.url == url,
            r.subscriptions is None,
            r.signature_algorithm is None,
            r.environment_id is None,
    {
        Self { url, subscriptions: None, signature_algorithm: None, environment_id: None }
    }

    /// This request, subscribing to `subscriptions`.
    pub fn with_subscriptions(self, subscriptions: Vec<WebhookEvent>) -> (r: Self)
        ensures
            r == (Self { subscriptions: Some(subscriptions), ..self }),
    {
        Self { subscriptions: Some(subscriptions), ..self }
    }

    /// This request, signing deliveries with `algorithm`.
    pub fn with_signature_algorithm(self, algorithm: SignatureAlgorithm) -> (r: Self)
        ensures
            r == (Self { signature_algorithm: Some(algorithm), ..self }),
    {
        Self { signature_algorithm: Some(algorithm), ..self }
    }

    /// This request, for the environment `environment_id`.
    pub fn with_environment_id(self, environment_id: String) -> (r: Self)
        ensures
            r == (Self { environment_id: Some(environment_id), ..self }),
    {
        Self { environment_id: Some(environment_id), ..self }
    }

    /// The attributes of the request body, in the order they are set; the
    /// environment, when given, is a relationship of the body.
    pub fn attributes(&self) -> (r: Vec<(String, AttributeValue)>)
        ensures
            attribute_views(r@) === create_endpoint_attributes(*self),
    {
        let mut attrs: Vec<(String, AttributeValue)> = Vec::new();
        attrs.push((to_string("url"), AttributeValue::Text(self.url.clone())));
        assert(attribute_views(attrs@) =~= seq![("url"@, AttributeView::Text(self.url@))]) by {
            reveal(attribute_views);
        }
        attrs = push_texts(attrs, "subscriptions", subscriptions_text(&self.subscriptions));
        attrs = push_text(attrs, "signatureAlgorithm", algorithm_text(self.signature_algorithm));
        attrs
    }
}

impl WebhookEndpointUpdateRequest {
    /// A request that changes nothing.
    pub fn new() -> (r: Self)
        ensures
            r.url is None,
            r.subscriptions is None,
            r.signature_algorithm is None,
    {
        Self { url: None, subscriptions: None, signature_algorithm: None }
    }

    /// This request, moving the endpoint to `url`.
    pub fn with_url(self, url: String) -> (r: Self)
        ensures
            r == (Self { url: Some(url), ..self }),
    {
        Self { url: Some(url), ..self }
    }

    /// This request, subscribing to `subscriptions`.
    pub fn with_subscriptions(self, subscriptions: Vec<WebhookEvent>) -> (r: Self)
        ensures
            r == (Self { subscriptions: Some(subscriptions), ..self }),
    {
        Self { subscriptions: Some(subscriptions), ..self }
    }

    /// This request, signing deliveries with `algorithm`.
    pub fn with_signature_algorithm(self, algorithm: SignatureAlgorithm) -> (r: Self)
        ensures
            r == (Self { signature_algorithm: Some(algorithm), ..self }),
    {
        Self { signature_algorithm: Some(algorithm), ..self }
    }

    /// The attributes of the request body, in the order they are set.
    pub fn attributes(&self) -> (r: Vec<(String, AttributeValue)>)
        ensures
            attribute_views(r@) === update_endpoint_attributes(*self),
    {
        let mut attrs: Vec<(String, AttributeValue)> = Vec::new();
        assert(attribute_views(attrs@) =~= Seq::empty()) by {
            reveal(attribute_views);
        }
        let url = match &self.url {
            Some(u) => Some(u.clone()),
            None => None,
        };
        attrs = push_text(attrs, "url", url);
        attrs = push_texts(attrs, "subscriptions", subscriptions_text(&self.subscriptions));
        attrs = push_text(attrs, "signatureAlgorithm", algorithm_text(self.signature_algorithm));
        attrs
    }
}

impl WebhookEndpointCreateRequest {
    /// The relationships of the request body: the environment, when one is
    /// given.
    pub fn relationships(&self) -> (r: Vec<Relationship>)
        ensures
            relationship_views(r@) == relationship_of(
                "environment"@,
                "environments"@,
                opt_chars(self.environment_id),
            ),
    {
        let rels: Vec<Relationship> = Vec::new();
        assert(relationship_views(rels@) =~= Seq::empty());
        push_relationship(rels, "environment", "environments", copy_text(&self.environment_id))
    }
}

} // verus!
