//! Artifacts: the files of a release, the bodies that create and change
//! them, and the query that lists them.

use std::collections::HashMap;

use vstd::prelude::*;

use crate::attributes::{
    attribute_views, copy_text, int_attr, opt_chars, opt_u32, opt_u64, push_u32, push_u64, push_relationship, push_text, relationship_views, text_attr, AttributeValue, AttributeView, Relationship,
};
use crate::text::{chars_eq_str, chars_of, to_string};

verus! {

/// The upload state of an artifact.
#[derive(Debug, Clone, Copy, PartialEq, Eq, Structural)]
pub enum ArtifactStatus {
    Waiting,
    Uploaded,
    Failed,
    Yanked,
}

impl ArtifactStatus {
    /// The code the API uses for the value.
    pub open spec fn code(self) -> Seq<char> {
        match self {
            ArtifactStatus::Waiting => "WAITING"@,
            ArtifactStatus::Uploaded => "UPLOADED"@,
            ArtifactStatus::Failed => "FAILED"@,
            ArtifactStatus::Yanked => "YANKED"@,
        }
    }

    /// The code the API uses for the value.
    pub fn as_str(self) -> (r: &'static str)
        ensures
            r@ == self.code(),
    {
        match self {
            ArtifactStatus::Waiting => "WAITING",
            ArtifactStatus::Uploaded => "UPLOADED",
            ArtifactStatus::Failed => "FAILED",
            ArtifactStatus::Yanked => "YANKED",
        }
    }

    /// The value whose code is exactly `c`.
    pub open spec fn with_code(c: Seq<char>) -> Option<Self> {
        if c == "WAITING"@ {
            Some(ArtifactStatus::Waiting)
        } else if c == "UPLOADED"@ {
            Some(ArtifactStatus::Uploaded)
        } else if c == "FAILED"@ {
            Some(ArtifactStatus::Failed)
        } else if c == "YANKED"@ {
            Some(ArtifactStatus::Yanked)
        } else {
            None
        }
    }

    /// The value whose code is `code`, if any.
    pub fn from_code(code: &str) -> (r: Option<Self>)
        ensures
            r == Self::with_code(code@),
    {
        let v = chars_of(code);
        let c = v.as_slice();
        if chars_eq_str(c, "WAITING") {
            Some(ArtifactStatus::Waiting)
        } else if chars_eq_str(c, "UPLOADED") {
            Some(ArtifactStatus::Uploaded)
        } else if chars_eq_str(c, "FAILED") {
            Some(ArtifactStatus::Failed)
        } else if chars_eq_str(c, "YANKED") {
            Some(ArtifactStatus::Yanked)
        } else {
            None
        }
    }
}

/// Reading the code of an ArtifactStatus gives the value back.
pub proof fn law_artifact_status_code_round_trip(x: ArtifactStatus)
    ensures
        ArtifactStatus::with_code(x.code()) == Some(x),
{
    reveal_strlit("WAITING");
    reveal_strlit("UPLOADED");
    reveal_strlit("FAILED");
    reveal_strlit("YANKED");
    match x {
        ArtifactStatus::Waiting => {
        },
        ArtifactStatus::Uploaded => {
            assert("UPLOADED"@.len() != "WAITING"@.len());
        },
        ArtifactStatus::Failed => {
            assert("FAILED"@.len() != "WAITING"@.len());
            assert("FAILED"@.len() != "UPLOADED"@.len());
        },
        ArtifactStatus::Yanked => {
            assert("YANKED"@.len() != "WAITING"@.len());
            assert("YANKED"@.len() != "UPLOADED"@.len());
            assert("YANKED"@[0] != "FAILED"@[0]);
        },
    }
}

/// The code of an optional ArtifactStatus.
pub fn artifact_status_text(e: Option<ArtifactStatus>) -> (r: Option<String>)
    ensures
        opt_chars(r) == match e {
            Some(x) => Some(x.code()),
            None => None,
        },
{
    match e {
        Some(x) => Some(to_string(x.as_str())),
        None => None,
    }
}

/// The attributes of a new artifact, and the release it belongs to.
#[derive(Debug, Clone)]
pub struct CreateArtifactRequest {
    pub filename: String,
    /// The release the artifact belongs to.
    pub release_id: String,
    pub filetype: Option<String>,
    /// The size in bytes.
    pub filesize: Option<u64>,
    /// Target platform (e.g. "darwin", "linux", "win32").
    pub platform: Option<String>,
    /// Target architecture (e.g. "amd64", "arm64").
    pub arch: Option<String>,
    pub signature: Option<String>,
    /// Checksum (e.g. SHA-256).
    pub checksum: Option<String>,
    pub metadata: Option<HashMap<String, serde_json::Value>>,
}

/// The changes to make to an artifact; absent fields are left unchanged.
#[derive(Debug, Clone, Default)]
pub struct UpdateArtifactRequest {
    pub filename: Option<String>,
    pub filetype: Option<String>,
    pub platform: Option<String>,
    pub arch: Option<String>,
    pub signature: Option<String>,
    pub checksum: Option<String>,
    pub metadata: Option<HashMap<String, serde_json::Value>>,
}

/// `start` followed by part 1 of the attributes of a `CreateArtifactRequest`.
pub open spec fn create_artifact_request_attributes_1(r: CreateArtifactRequest, start: Seq<(Seq<char>, AttributeView)>) -> Seq<(Seq<char>, AttributeView)> {
    start
        + text_attr("filename"@, Some(r.filename@))
        + text_attr("filetype"@, opt_chars(r.filetype))
        + int_attr("filesize"@, opt_u64(r.filesize))
        + text_attr("platform"@, opt_chars(r.platform))
        + text_attr("arch"@, opt_chars(r.arch))
        + text_attr("signature"@, opt_chars(r.signature))
}

/// `start` followed by part 2 of the attributes of a `CreateArtifactRequest`.
pub open spec fn create_artifact_request_attributes_2(r: CreateArtifactRequest, start: Seq<(Seq<char>, AttributeView)>) -> Seq<(Seq<char>, AttributeView)> {
    start
        + text_attr("checksum"@, opt_chars(r.checksum))
}

/// The attributes sent when an artifact is created: the file name, then the file type, size, platform, architecture, signature and checksum that are set (the metadata aside).
pub open spec fn create_artifact_attributes(r: CreateArtifactRequest) -> Seq<(Seq<char>, AttributeView)> {
    create_artifact_request_attributes_2(r, create_artifact_request_attributes_1(r, Seq::empty()))
}

impl CreateArtifactRequest {
    fn push_attributes_1(&self, attrs: Vec<(String, AttributeValue)>) -> (r: Vec<(String, AttributeValue)>)
        ensures
            attribute_views(r@) === create_artifact_request_attributes_1(*self, attribute_views(attrs@)),
    {
        let mut attrs = attrs;
        attrs = push_text(attrs, "filename", Some(self.filename.clone()));
        attrs = push_text(attrs, "filetype", copy_text(&self.filetype));
        attrs = push_u64(attrs, "filesize", self.filesize);
        attrs = push_text(attrs, "platform", copy_text(&self.platform));
        attrs = push_text(attrs, "arch", copy_text(&self.arch));
        attrs = push_text(attrs, "signature", copy_text(&self.signature));
        attrs
    }

    fn push_attributes_2(&self, attrs: Vec<(String, AttributeValue)>) -> (r: Vec<(String, AttributeValue)>)
        ensures
            attribute_views(r@) === create_artifact_request_attributes_2(*self, attribute_views(attrs@)),
    {
        let mut attrs = attrs;
        attrs = push_text(attrs, "checksum", copy_text(&self.checksum));
        attrs
    }

    /// The attributes of the request body that are set, in order.
    pub fn attributes(&self) -> (r: Vec<(String, AttributeValue)>)
        ensures
            attribute_views(r@) === create_artifact_attributes(*self),
    {
        let mut attrs: Vec<(String, AttributeValue)> = Vec::new();
        assert(attribute_views(attrs@) =~= Seq::empty()) by {
            reveal(attribute_views);
        }
        attrs = self.push_attributes_1(attrs);
        attrs = self.push_attributes_2(attrs);
        attrs
    }
}

/// The relationships sent when an artifact is created: its release.
pub open spec fn create_artifact_relationships(r: CreateArtifactRequest) -> Seq<(Seq<char>, Seq<char>, Seq<char>)> {
    Seq::empty() + seq![("release"@, "releases"@, r.release_id@)]
}

impl CreateArtifactRequest {
    /// The relationships of the request body.
    pub fn relationships(&self) -> (r: Vec<Relationship>)
        ensures
            relationship_views(r@) == create_artifact_relationships(*self),
    {
        let mut rels: Vec<Relationship> = Vec::new();
        assert(relationship_views(rels@) =~= Seq::empty());
        rels = push_relationship(rels, "release", "releases", Some(self.release_id.clone()));
        rels
    }
}

/// `start` followed by part 1 of the attributes of an `UpdateArtifactRequest`.
pub open spec fn update_artifact_request_attributes_1(r: UpdateArtifactRequest, start: Seq<(Seq<char>, AttributeView)>) -> Seq<(Seq<char>, AttributeView)> {
    start
        + text_attr("filename"@, opt_chars(r.filename))
        + text_attr("filetype"@, opt_chars(r.filetype))
        + text_attr("platform"@, opt_chars(r.platform))
        + text_attr("arch"@, opt_chars(r.arch))
        + text_attr("signature"@, opt_chars(r.signature))
        + text_attr("checksum"@, opt_chars(r.checksum))
}

/// The attributes sent when an artifact is changed: those that are set among the file name, type, platform, architecture, signature and checksum (the metadata aside).
pub open spec fn update_artifact_attributes(r: UpdateArtifactRequest) -> Seq<(Seq<char>, AttributeView)> {
    update_artifact_request_attributes_1(r, Seq::empty())
}

impl UpdateArtifactRequest {
    fn push_attributes_1(&self, attrs: Vec<(String, AttributeValue)>) -> (r: Vec<(String, AttributeValue)>)
        ensures
            attribute_views(r@) === update_artifact_request_attributes_1(*self, attribute_views(attrs@)),
    {
        let mut attrs = attrs;
        attrs = push_text(attrs, "filename", copy_text(&self.filename));
        attrs = push_text(attrs, "filetype", copy_text(&self.filetype));
        attrs = push_text(attrs, "platform", copy_text(&self.platform));
        attrs = push_text(attrs, "arch", copy_text(&self.arch));
        attrs = push_text(attrs, "signature", copy_text(&self.signature));
        attrs = push_text(attrs, "checksum", copy_text(&self.checksum));
        attrs
    }

    /// The attributes of the request body that are set, in order.
    pub fn attributes(&self) -> (r: Vec<(String, AttributeValue)>)
        ensures
            attribute_views(r@) === update_artifact_attributes(*self),
    {
        let mut attrs: Vec<(String, AttributeValue)> = Vec::new();
        assert(attribute_views(attrs@) =~= Seq::empty()) by {
            reveal(attribute_views);
        }
        attrs = self.push_attributes_1(attrs);
        attrs
    }
}

/// Pagination and filters for listing artifacts.
#[derive(Debug, Clone, Default)]
pub struct ListArtifactsOptions {
    pub limit: Option<u32>,
    pub page_size: Option<u32>,
    pub page_number: Option<u32>,
    pub release: Option<String>,
    pub product: Option<String>,
    pub channel: Option<String>,
    pub platform: Option<String>,
    pub arch: Option<String>,
    pub filetype: Option<String>,
    pub status: Option<ArtifactStatus>,
}

/// `start` followed by part 1 of the query parameters of a `ListArtifactsOptions`.
pub open spec fn list_artifacts_options_query_1(r: ListArtifactsOptions, start: Seq<(Seq<char>, AttributeView)>) -> Seq<(Seq<char>, AttributeView)> {
    start
        + int_attr("limit"@, opt_u32(r.limit))
        + int_attr("page[size]"@, opt_u32(r.page_size))
        + int_attr("page[number]"@, opt_u32(r.page_number))
        + text_attr("release"@, opt_chars(r.release))
        + text_attr("product"@, opt_chars(r.product))
        + text_attr("channel"@, opt_chars(r.channel))
}

/// `start` followed by part 2 of the query parameters of a `ListArtifactsOptions`.
pub open spec fn list_artifacts_options_query_2(r: ListArtifactsOptions, start: Seq<(Seq<char>, AttributeView)>) -> Seq<(Seq<char>, AttributeView)> {
    start
        + text_attr("platform"@, opt_chars(r.platform))
        + text_attr("arch"@, opt_chars(r.arch))
        + text_attr("filetype"@, opt_chars(r.filetype))
        + text_attr("status"@, match r.status { Some(e) => Some(e.code()), None => None })
}

/// The query parameters of a listing with `r`: the limit, page size and page number and filters that are set, in order.
pub open spec fn artifact_list_query(r: ListArtifactsOptions) -> Seq<(Seq<char>, AttributeView)> {
    list_artifacts_options_query_2(r, list_artifacts_options_query_1(r, Seq::empty()))
}

impl ListArtifactsOptions {
    fn push_query_1(&self, attrs: Vec<(String, AttributeValue)>) -> (r: Vec<(String, AttributeValue)>)
        ensures
            attribute_views(r@) === list_artifacts_options_query_1(*self, attribute_views(attrs@)),
    {
        let mut attrs = attrs;
        attrs = push_u32(attrs, "limit", self.limit);
        attrs = push_u32(attrs, "page[size]", self.page_size);
        attrs = push_u32(attrs, "page[number]", self.page_number);
        attrs = push_text(attrs, "release", copy_text(&self.release));
        attrs = push_text(attrs, "product", copy_text(&self.product));
        attrs = push_text(attrs, "channel", copy_text(&self.channel));
        attrs
    }

    fn push_query_2(&self, attrs: Vec<(String, AttributeValue)>) -> (r: Vec<(String, AttributeValue)>)
        ensures
            attribute_views(r@) === list_artifacts_options_query_2(*self, attribute_views(attrs@)),
    {
        let mut attrs = attrs;
        attrs = push_text(attrs, "platform", copy_text(&self.platform));
        attrs = push_text(attrs, "arch", copy_text(&self.arch));
        attrs = push_text(attrs, "filetype", copy_text(&self.filetype));
        attrs = push_text(attrs, "status", artifact_status_text(self.status));
        attrs
    }

    /// The query parameters that are set, in order.
    pub fn query(&self) -> (r: Vec<(String, AttributeValue)>)
        ensures
            attribute_views(r@) === artifact_list_query(*self),
    {
        let mut attrs: Vec<(String, AttributeValue)> = Vec::new();
        assert(attribute_views(attrs@) =~= Seq::empty()) by {
            reveal(attribute_views);
        }
        attrs = self.push_query_1(attrs);
        attrs = self.push_query_2(attrs);
        attrs
    }
}

/// A distributable file of a release.
#[derive(Debug, Clone)]
pub struct Artifact {
    pub id: String,
    pub filename: String,
    pub filetype: Option<String>,
    pub filesize: Option<u64>,
    pub platform: Option<String>,
    pub arch: Option<String>,
    pub signature: Option<String>,
    pub checksum: Option<String>,
    pub status: ArtifactStatus,
    pub metadata: Option<HashMap<String, serde_json::Value>>,
    pub created: String,
    pub updated: String,
    pub yanked_at: Option<String>,
    pub release_id: Option<String>,
    pub product_id: Option<String>,
    pub account_id: Option<String>,
}

} // verus!
