//! Releases: their channels and statuses, the bodies and queries that
//! create, change, list and upgrade them, the constraints attached to
//! them, and the request that downloads one of their artifacts.

use std::collections::HashMap;

use vstd::prelude::*;

use crate::attributes::{
    attribute_views, copy_text, copy_texts, int_attr, opt_chars, opt_u32, opt_texts, push_u32, push_relationship, push_text, push_texts, relationship_views, text_attr, text_views, texts_attr, AttributeValue, AttributeView, Relationship,
};
use crate::text::{chars_eq_str, chars_of, to_string};
use crate::client::{joined, optional_header, push_header};
use crate::config::KeygenConfig;
use crate::errors::Error;
use crate::headers::{header_lookup, pair_views, HeaderList};
use crate::text::ascii_lower;

verus! {

/// The channel a release is distributed on.
#[derive(Debug, Clone, Copy, PartialEq, Eq, Structural)]
pub enum ReleaseChannel {
    Stable,
    Rc,
    Beta,
    Alpha,
    Dev,
}

impl ReleaseChannel {
    /// The code the API uses for the value.
    pub open spec fn code(self) -> Seq<char> {
        match self {
            ReleaseChannel::Stable => "stable"@,
            ReleaseChannel::Rc => "rc"@,
            ReleaseChannel::Beta => "beta"@,
            ReleaseChannel::Alpha => "alpha"@,
            ReleaseChannel::Dev => "dev"@,
        }
    }

    /// The code the API uses for the value.
    pub fn as_str(self) -> (r: &'static str)
        ensures
            r@ == self.code(),
    {
        match self {
            ReleaseChannel::Stable => "stable",
            ReleaseChannel::Rc => "rc",
            ReleaseChannel::Beta => "beta",
            ReleaseChannel::Alpha => "alpha",
            ReleaseChannel::Dev => "dev",
        }
    }

    /// The value whose code is exactly `c`.
    pub open spec fn with_code(c: Seq<char>) -> Option<Self> {
        if c == "stable"@ {
            Some(ReleaseChannel::Stable)
        } else if c == "rc"@ {
            Some(ReleaseChannel::Rc)
        } else if c == "beta"@ {
            Some(ReleaseChannel::Beta)
        } else if c == "alpha"@ {
            Some(ReleaseChannel::Alpha)
        } else if c == "dev"@ {
            Some(ReleaseChannel::Dev)
        } else {
            None
        }
    }

    /// The value whose code is `code`, if any.
    pub fn from_code(code: &str) -> (r: Option<Self>)
        ensures
            r == Self::with_code(code@),
    {
        let v = chars_of(code);
        let c = v.as_slice();
        if chars_eq_str(c, "stable") {
            Some(ReleaseChannel::Stable)
        } else if chars_eq_str(c, "rc") {
            Some(ReleaseChannel::Rc)
        } else if chars_eq_str(c, "beta") {
            Some(ReleaseChannel::Beta)
        } else if chars_eq_str(c, "alpha") {
            Some(ReleaseChannel::Alpha)
        } else if chars_eq_str(c, "dev") {
            Some(ReleaseChannel::Dev)
        } else {
            None
        }
    }
}

/// Reading the code of a ReleaseChannel gives the value back.
pub proof fn law_release_channel_code_round_trip(x: ReleaseChannel)
    ensures
        ReleaseChannel::with_code(x.code()) == Some(x),
{
    reveal_strlit("stable");
    reveal_strlit("rc");
    reveal_strlit("beta");
    reveal_strlit("alpha");
    reveal_strlit("dev");
    match x {
        ReleaseChannel::Stable => {
        },
        ReleaseChannel::Rc => {
            assert("rc"@.len() != "stable"@.len());
        },
        ReleaseChannel::Beta => {
            assert("beta"@.len() != "stable"@.len());
            assert("beta"@.len() != "rc"@.len());
        },
        ReleaseChannel::Alpha => {
            assert("alpha"@.len() != "stable"@.len());
            assert("alpha"@.len() != "rc"@.len());
            assert("alpha"@.len() != "beta"@.len());
        },
        ReleaseChannel::Dev => {
            assert("dev"@.len() != "stable"@.len());
            assert("dev"@.len() != "rc"@.len());
            assert("dev"@.len() != "beta"@.len());
            assert("dev"@.len() != "alpha"@.len());
        },
    }
}

/// The code of an optional ReleaseChannel.
pub fn release_channel_text(e: Option<ReleaseChannel>) -> (r: Option<String>)
    ensures
        opt_chars(r) == match e {
            Some(x) => Some(x.code()),
            None => None,
        },
{
    match e {
        Some(x) => Some(to_string(x.as_str())),
        None => None,
    }
}

/// The publication state of a release.
#[derive(Debug, Clone, Copy, PartialEq, Eq, Structural)]
pub enum ReleaseStatus {
    Draft,
    Published,
    Yanked,
}

impl ReleaseStatus {
    /// The code the API uses for the value.
    pub open spec fn code(self) -> Seq<char> {
        match self {
            ReleaseStatus::Draft => "DRAFT"@,
            ReleaseStatus::Published => "PUBLISHED"@,
            ReleaseStatus::Yanked => "YANKED"@,
        }
    }

    /// The code the API uses for the value.
    pub fn as_str(self) -> (r: &'static str)
        ensures
            r@ == self.code(),
    {
        match self {
            ReleaseStatus::Draft => "DRAFT",
            ReleaseStatus::Published => "PUBLISHED",
            ReleaseStatus::Yanked => "YANKED",
        }
    }

    /// The value whose code is exactly `c`.
    pub open spec fn with_code(c: Seq<char>) -> Option<Self> {
        if c == "DRAFT"@ {
            Some(ReleaseStatus::Draft)
        } else if c == "PUBLISHED"@ {
            Some(ReleaseStatus::Published)
        } else if c == "YANKED"@ {
            Some(ReleaseStatus::Yanked)
        } else {
            None
        }
    }

    /// The value whose code is `code`, if any.
    pub fn from_code(code: &str) -> (r: Option<Self>)
        ensures
            r == Self::with_code(code@),
    {
        let v = chars_of(code);
        let c = v.as_slice();
        if chars_eq_str(c, "DRAFT") {
            Some(ReleaseStatus::Draft)
        } else if chars_eq_str(c, "PUBLISHED") {
            Some(ReleaseStatus::Published)
        } else if chars_eq_str(c, "YANKED") {
            Some(ReleaseStatus::Yanked)
        } else {
            None
        }
    }
}

/// Reading the code of a ReleaseStatus gives the value back.
pub proof fn law_release_status_code_round_trip(x: ReleaseStatus)
    ensures
        ReleaseStatus::with_code(x.code()) == Some(x),
{
    reveal_strlit("DRAFT");
    reveal_strlit("PUBLISHED");
    reveal_strlit("YANKED");
    match x {
        ReleaseStatus::Draft => {
        },
        ReleaseStatus::Published => {
            assert("PUBLISHED"@.len() != "DRAFT"@.len());
        },
        ReleaseStatus::Yanked => {
            assert("YANKED"@.len() != "DRAFT"@.len());
            assert("YANKED"@.len() != "PUBLISHED"@.len());
        },
    }
}

/// The code of an optional ReleaseStatus.
pub fn release_status_text(e: Option<ReleaseStatus>) -> (r: Option<String>)
    ensures
        opt_chars(r) == match e {
            Some(x) => Some(x.code()),
            None => None,
        },
{
    match e {
        Some(x) => Some(to_string(x.as_str())),
        None => None,
    }
}

/// The components of a semantic version.
#[derive(Debug, Clone)]
pub struct Semver {
    pub major: u32,
    pub minor: u32,
    pub patch: u32,
    pub prerelease: Option<String>,
    pub build: Option<String>,
}

/// A version of a product's software.
#[derive(Debug, Clone)]
pub struct Release {
    pub id: String,
    pub name: Option<String>,
    pub description: Option<String>,
    pub version: String,
    pub semver: Option<Semver>,
    pub channel: ReleaseChannel,
    pub status: ReleaseStatus,
    pub tag: Option<String>,
    pub metadata: Option<HashMap<String, serde_json::Value>>,
    pub created: String,
    pub updated: String,
    pub yanked_at: Option<String>,
    pub product_id: Option<String>,
    pub package_id: Option<String>,
    pub account_id: Option<String>,
}

/// The attributes of a new release, and the product it belongs to.
#[derive(Debug, Clone)]
pub struct CreateReleaseRequest {
    /// The version (semantic, without a `v` prefix).
    pub version: String,
    pub channel: ReleaseChannel,
    pub product_id: String,
    pub name: Option<String>,
    pub description: Option<String>,
    /// The initial status (the API defaults it to draft).
    pub status: Option<ReleaseStatus>,
    /// A unique tag for lookups.
    pub tag: Option<String>,
    pub metadata: Option<HashMap<String, serde_json::Value>>,
}

/// The changes to make to a release; absent fields are left unchanged.
#[derive(Debug, Clone, Default)]
pub struct UpdateReleaseRequest {
    pub name: Option<String>,
    pub description: Option<String>,
    pub channel: Option<ReleaseChannel>,
    pub tag: Option<String>,
    pub metadata: Option<HashMap<String, serde_json::Value>>,
}

/// `start` followed by part 1 of the attributes of a `CreateReleaseRequest`.
pub open spec fn create_release_request_attributes_1(r: CreateReleaseRequest, start: Seq<(Seq<char>, AttributeView)>) -> Seq<(Seq<char>, AttributeView)> {
    start
        + text_attr("version"@, Some(r.version@))
        + text_attr("channel"@, Some(r.channel.code()))
        + text_attr("name"@, opt_chars(r.name))
        + text_attr("description"@, opt_chars(r.description))
        + text_attr("status"@, match r.status { Some(e) => Some(e.code()), None => None })
        + text_attr("tag"@, opt_chars(r.tag))
}

/// The attributes sent when a release is created: the version and channel (by its code), then the name, description, status (by its code) and tag that are set (the metadata aside).
pub open spec fn create_release_attributes(r: CreateReleaseRequest) -> Seq<(Seq<char>, AttributeView)> {
    create_release_request_attributes_1(r, Seq::empty())
}

impl CreateReleaseRequest {
    fn push_attributes_1(&self, attrs: Vec<(String, AttributeValue)>) -> (r: Vec<(String, AttributeValue)>)
        ensures
            attribute_views(r@) === create_release_request_attributes_1(*self, attribute_views(attrs@)),
    {
        let mut attrs = attrs;
        attrs = push_text(attrs, "version", Some(self.version.clone()));
        attrs = push_text(attrs, "channel", Some(to_string(self.channel.as_str())));
        attrs = push_text(attrs, "name", copy_text(&self.name));
        attrs = push_text(attrs, "description", copy_text(&self.description));
        attrs = push_text(attrs, "status", release_status_text(self.status));
        attrs = push_text(attrs, "tag", copy_text(&self.tag));
        attrs
    }

    /// The attributes of the request body that are set, in order.
    pub fn attributes(&self) -> (r: Vec<(String, AttributeValue)>)
        ensures
            attribute_views(r@) === create_release_attributes(*self),
    {
        let mut attrs: Vec<(String, AttributeValue)> = Vec::new();
        assert(attribute_views(attrs@) =~= Seq::empty()) by {
            reveal(attribute_views);
        }
        attrs = self.push_attributes_1(attrs);
        attrs
    }
}

/// The relationships sent when a release is created: its product.
pub open spec fn create_release_relationships(r: CreateReleaseRequest) -> Seq<(Seq<char>, Seq<char>, Seq<char>)> {
    Seq::empty() + seq![("product"@, "products"@, r.product_id@)]
}

impl CreateReleaseRequest {
    /// The relationships of the request body.
    pub fn relationships(&self) -> (r: Vec<Relationship>)
        ensures
            relationship_views(r@) == create_release_relationships(*self),
    {
        let mut rels: Vec<Relationship> = Vec::new();
        assert(relationship_views(rels@) =~= Seq::empty());
        rels = push_relationship(rels, "product", "products", Some(self.product_id.clone()));
        rels
    }
}

/// `start` followed by part 1 of the attributes of an `UpdateReleaseRequest`.
pub open spec fn update_release_request_attributes_1(r: UpdateReleaseRequest, start: Seq<(Seq<char>, AttributeView)>) -> Seq<(Seq<char>, AttributeView)> {
    start
        + text_attr("name"@, opt_chars(r.name))
        + text_attr("description"@, opt_chars(r.description))
        + text_attr("channel"@, match r.channel { Some(e) => Some(e.code()), None => None })
        + text_attr("tag"@, opt_chars(r.tag))
}

/// The attributes sent when a release is changed: those that are set among the name, description, channel (by its code) and tag (the metadata aside).
pub open spec fn update_release_attributes(r: UpdateReleaseRequest) -> Seq<(Seq<char>, AttributeView)> {
    update_release_request_attributes_1(r, Seq::empty())
}

impl UpdateReleaseRequest {
    fn push_attributes_1(&self, attrs: Vec<(String, AttributeValue)>) -> (r: Vec<(String, AttributeValue)>)
        ensures
            attribute_views(r@) === update_release_request_attributes_1(*self, attribute_views(attrs@)),
    {
        let mut attrs = attrs;
        attrs = push_text(attrs, "name", copy_text(&self.name));
        attrs = push_text(attrs, "description", copy_text(&self.description));
        attrs = push_text(attrs, "channel", release_channel_text(self.channel));
        attrs = push_text(attrs, "tag", copy_text(&self.tag));
        attrs
    }

    /// The attributes of the request body that are set, in order.
    pub fn attributes(&self) -> (r: Vec<(String, AttributeValue)>)
        ensures
            attribute_views(r@) === update_release_attributes(*self),
    {
        let mut attrs: Vec<(String, AttributeValue)> = Vec::new();
        assert(attribute_views(attrs@) =~= Seq::empty()) by {
            reveal(attribute_views);
        }
        attrs = self.push_attributes_1(attrs);
        attrs
    }
}

/// Pagination and filters for listing releases.
#[derive(Debug, Clone, Default)]
pub struct ListReleasesOptions {
    pub limit: Option<u32>,
    pub page_size: Option<u32>,
    pub page_number: Option<u32>,
    pub channel: Option<ReleaseChannel>,
    pub status: Option<ReleaseStatus>,
    pub version: Option<String>,
    pub product: Option<String>,
    pub package: Option<String>,
    pub engine: Option<String>,
    pub entitlements: Option<Vec<String>>,
}

/// `start` followed by part 1 of the query parameters of a `ListReleasesOptions`.
pub open spec fn list_releases_options_query_1(r: ListReleasesOptions, start: Seq<(Seq<char>, AttributeView)>) -> Seq<(Seq<char>, AttributeView)> {
    start
        + int_attr("limit"@, opt_u32(r.limit))
        + int_attr("page[size]"@, opt_u32(r.page_size))
        + int_attr("page[number]"@, opt_u32(r.page_number))
        + text_attr("channel"@, match r.channel { Some(e) => Some(e.code()), None => None })
        + text_attr("status"@, match r.status { Some(e) => Some(e.code()), None => None })
        + text_attr("version"@, opt_chars(r.version))
}

/// `start` followed by part 2 of the query parameters of a `ListReleasesOptions`.
pub open spec fn list_releases_options_query_2(r: ListReleasesOptions, start: Seq<(Seq<char>, AttributeView)>) -> Seq<(Seq<char>, AttributeView)> {
    start
        + text_attr("product"@, opt_chars(r.product))
        + text_attr("package"@, opt_chars(r.package))
        + text_attr("engine"@, opt_chars(r.engine))
        + texts_attr("entitlements[]"@, opt_texts(r.entitlements))
}

/// The query parameters of a listing with `r`: the limit, page size and page number and filters that are set, in order.
pub open spec fn release_list_query(r: ListReleasesOptions) -> Seq<(Seq<char>, AttributeView)> {
    list_releases_options_query_2(r, list_releases_options_query_1(r, Seq::empty()))
}

impl ListReleasesOptions {
    fn push_query_1(&self, attrs: Vec<(String, AttributeValue)>) -> (r: Vec<(String, AttributeValue)>)
        ensures
            attribute_views(r@) === list_releases_options_query_1(*self, attribute_views(attrs@)),
    {
        let mut attrs = attrs;
        attrs = push_u32(attrs, "limit", self.limit);
        attrs = push_u32(attrs, "page[size]", self.page_size);
        attrs = push_u32(attrs, "page[number]", self.page_number);
        attrs = push_text(attrs, "channel", release_channel_text(self.channel));
        attrs = push_text(attrs, "status", release_status_text(self.status));
        attrs = push_text(attrs, "version", copy_text(&self.version));
        attrs
    }

    fn push_query_2(&self, attrs: Vec<(String, AttributeValue)>) -> (r: Vec<(String, AttributeValue)>)
        ensures
            attribute_views(r@) === list_releases_options_query_2(*self, attribute_views(attrs@)),
    {
        let mut attrs = attrs;
        attrs = push_text(attrs, "product", copy_text(&self.product));
        attrs = push_text(attrs, "package", copy_text(&self.package));
        attrs = push_text(attrs, "engine", copy_text(&self.engine));
        attrs = push_texts(attrs, "entitlements[]", copy_texts(&self.entitlements));
        attrs
    }

    /// The query parameters that are set, in order.
    pub fn query(&self) -> (r: Vec<(String, AttributeValue)>)
        ensures
            attribute_views(r@) === release_list_query(*self),
    {
        let mut attrs: Vec<(String, AttributeValue)> = Vec::new();
        assert(attribute_views(attrs@) =~= Seq::empty()) by {
            reveal(attribute_views);
        }
        attrs = self.push_query_1(attrs);
        attrs = self.push_query_2(attrs);
        attrs
    }
}

/// What an upgrade may move to.
#[derive(Debug, Clone, Default)]
pub struct ReleaseUpgradeRequest {
    pub product: Option<String>,
    pub constraint: Option<String>,
    pub package: Option<String>,
    pub channel: Option<ReleaseChannel>,
}

/// `start` followed by part 1 of the query parameters of a `ReleaseUpgradeRequest`.
pub open spec fn release_upgrade_request_query_1(r: ReleaseUpgradeRequest, start: Seq<(Seq<char>, AttributeView)>) -> Seq<(Seq<char>, AttributeView)> {
    start
        + text_attr("product"@, opt_chars(r.product))
        + text_attr("constraint"@, opt_chars(r.constraint))
        + text_attr("package"@, opt_chars(r.package))
        + text_attr("channel"@, match r.channel { Some(e) => Some(e.code()), None => None })
}

/// The query of an upgrade: the product, constraint, package and channel (by its code) that are set.
pub open spec fn release_upgrade_query(r: ReleaseUpgradeRequest) -> Seq<(Seq<char>, AttributeView)> {
    release_upgrade_request_query_1(r, Seq::empty())
}

impl ReleaseUpgradeRequest {
    fn push_query_1(&self, attrs: Vec<(String, AttributeValue)>) -> (r: Vec<(String, AttributeValue)>)
        ensures
            attribute_views(r@) === release_upgrade_request_query_1(*self, attribute_views(attrs@)),
    {
        let mut attrs = attrs;
        attrs = push_text(attrs, "product", copy_text(&self.product));
        attrs = push_text(attrs, "constraint", copy_text(&self.constraint));
        attrs = push_text(attrs, "package", copy_text(&self.package));
        attrs = push_text(attrs, "channel", release_channel_text(self.channel));
        attrs
    }

    /// The query parameters that are set, in order.
    pub fn query(&self) -> (r: Vec<(String, AttributeValue)>)
        ensures
            attribute_views(r@) === release_upgrade_query(*self),
    {
        let mut attrs: Vec<(String, AttributeValue)> = Vec::new();
        assert(attribute_views(attrs@) =~= Seq::empty()) by {
            reveal(attribute_views);
        }
        attrs = self.push_query_1(attrs);
        attrs
    }
}

/// The attributes of a release constraint.
#[derive(Debug, Clone)]
pub struct ConstraintAttributes {
    pub created: String,
    pub updated: String,
}

/// An entitlement a release requires.
#[derive(Debug, Clone)]
pub struct Constraint {
    pub id: String,
    pub created: String,
    pub updated: String,
    pub account_id: Option<String>,
    pub entitlement_id: Option<String>,
    pub release_id: Option<String>,
}

/// The links of the constraints attached for `entitlement_ids`: one
/// entitlement per id, in order.
pub open spec fn constraint_links(ids: Seq<String>) -> Seq<(Seq<char>, Seq<char>, Seq<char>)> {
    ids.map_values(|id: String| ("entitlement"@, "entitlements"@, id@))
}

/// The entitlement each new constraint links to, in the order of
/// `entitlement_ids`.
pub fn constraint_relationships(entitlement_ids: &[String]) -> (r: Vec<Relationship>)
    ensures
        relationship_views(r@) == constraint_links(entitlement_ids@),
{
    let mut rels: Vec<Relationship> = Vec::new();
    let mut i: usize = 0;
    while i < entitlement_ids.len()
        invariant
            i <= entitlement_ids@.len(),
            relationship_views(rels@) =~= constraint_links(entitlement_ids@.take(i as int)),
        decreases entitlement_ids@.len() - i,
    {
        rels.push(
            Relationship {
                name: to_string("entitlement"),
                kind: to_string("entitlements"),
                id: entitlement_ids[i].clone(),
            },
        );
        assert(constraint_links(entitlement_ids@.take(i + 1)) =~= constraint_links(
            entitlement_ids@.take(i as int),
        ).push(("entitlement"@, "entitlements"@, entitlement_ids@[i as int]@)));
        i = i + 1;
    }
    assert(entitlement_ids@.take(i as int) =~= entitlement_ids@);
    rels
}

/// The path segments under the API URL of an artifact download.
pub open spec fn artifact_download_segments_of(config: KeygenConfig, release_id: Seq<char>, artifact: Seq<char>) -> Seq<
    Seq<char>,
> {
    seq![config.api_prefix@, "accounts"@, config.account@, "releases"@, release_id, "artifacts"@, artifact]
}

/// The path segments under the API URL of the download of `artifact` (an
/// id or file name) of the release `release_id`.
pub fn artifact_download_segments(config: &KeygenConfig, release_id: &str, artifact: &str) -> (r: Vec<String>)
    ensures
        text_views(r@) == artifact_download_segments_of(*config, release_id@, artifact@),
{
    let mut v: Vec<String> = Vec::new();
    v.push(config.api_prefix.clone());
    v.push(to_string("accounts"));
    v.push(config.account.clone());
    v.push(to_string("releases"));
    v.push(to_string(release_id));
    v.push(to_string("artifacts"));
    v.push(to_string(artifact));
    assert(text_views(v@) =~= artifact_download_segments_of(*config, release_id@, artifact@));
    v
}

/// The headers of an artifact download, in order: the JSON:API media type
/// accepted and sent, the contract version, the environment and user agent
/// when set, then the token as a bearer credential, or else the license key.
pub open spec fn artifact_download_headers_of(config: KeygenConfig) -> Seq<(Seq<char>, Seq<char>)> {
    seq![
        ("accept"@, "application/vnd.api+json"@),
        ("content-type"@, "application/vnd.api+json"@),
        ("keygen-version"@, config.api_version.text()),
    ] + optional_header("keygen-environment"@, config.environment) + optional_header(
        "user-agent"@,
        config.user_agent,
    ) + match config.token {
        Some(t) => seq![("authorization"@, "Bearer "@ + t@)],
        None => match config.license_key {
            Some(k) => seq![("authorization"@, "License "@ + k@)],
            None => Seq::empty(),
        },
    }
}

/// The headers of an artifact download under `config`.
pub fn artifact_download_headers(config: &KeygenConfig) -> (r: Vec<(String, String)>)
    ensures
        pair_views(r@) == artifact_download_headers_of(*config),
{
    let mut headers: Vec<(String, String)> = Vec::new();
    push_header(&mut headers, "accept", to_string("application/vnd.api+json"));
    push_header(&mut headers, "content-type", to_string("application/vnd.api+json"));
    push_header(&mut headers, "keygen-version", to_string(config.api_version.as_str()));
    let ghost a = pair_views(headers@);
    match &config.environment {
        Some(env) => push_header(&mut headers, "keygen-environment", env.clone()),
        None => {},
    }
    assert(pair_views(headers@) =~= a + optional_header("keygen-environment"@, config.environment));
    let ghost b = pair_views(headers@);
    match &config.user_agent {
        Some(ua) => push_header(&mut headers, "user-agent", ua.clone()),
        None => {},
    }
    assert(pair_views(headers@) =~= b + optional_header("user-agent"@, config.user_agent));
    let ghost c = pair_views(headers@);
    match &config.token {
        Some(token) => push_header(&mut headers, "authorization", joined("Bearer ", token.as_str())),
        None => match &config.license_key {
            Some(key) => push_header(&mut headers, "authorization", joined("License ", key.as_str())),
            None => {},
        },
    }
    assert(pair_views(headers@) =~= artifact_download_headers_of(*config));
    headers
}

/// Where an artifact download redirects to, and the headers of the
/// redirect.
#[derive(Debug, Clone)]
pub struct ReleaseArtifactDownload {
    pub location: String,
    pub headers: HeaderList,
}

/// The redirect an artifact download answered with: its `location`
/// header, which must be present and text.
pub fn artifact_download(headers: HeaderList) -> (r: Result<ReleaseArtifactDownload, Error>)
    ensures
        match header_lookup(headers.entries@, "location"@) {
            Some(Some(v)) => r matches Ok(d) && d.location@ == v && d.headers == headers,
            _ => r matches Err(Error::UnexpectedError(m)) && m@ == "Missing redirect Location header"@,
        },
{
    proof {
        reveal_strlit("location");
        assert(ascii_lower("location"@) =~= "location"@);
    }
    match headers.get("location") {
        Some(Some(location)) => Ok(ReleaseArtifactDownload { location, headers }),
        _ => Err(Error::UnexpectedError(to_string("Missing redirect Location header"))),
    }
}

} // verus!
