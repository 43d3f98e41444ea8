//! Packages: how a product's releases are distributed, and the bodies
//! that create and change them.

use std::collections::HashMap;

use vstd::prelude::*;

use crate::attributes::{
    attribute_views, copy_text, int_attr, opt_chars, opt_u32, push_u32, push_relationship, push_text, relationship_views, text_attr, AttributeValue, AttributeView, Relationship,
};
use crate::text::{chars_eq_str, chars_of, to_string};

verus! {

/// The package manager a package is distributed through.
#[derive(Debug, Clone, Copy, PartialEq, Eq, Structural)]
pub enum PackageEngine {
    Pypi,
    Tauri,
    Rubygems,
    Npm,
    Oci,
    Raw,
}

impl PackageEngine {
    /// The code the API uses for the value.
    pub open spec fn code(self) -> Seq<char> {
        match self {
            PackageEngine::Pypi => "pypi"@,
            PackageEngine::Tauri => "tauri"@,
            PackageEngine::Rubygems => "rubygems"@,
            PackageEngine::Npm => "npm"@,
            PackageEngine::Oci => "oci"@,
            PackageEngine::Raw => "raw"@,
        }
    }

    /// The code the API uses for the value.
    pub fn as_str(self) -> (r: &'static str)
        ensures
            r@ == self.code(),
    {
        match self {
            PackageEngine::Pypi => "pypi",
            PackageEngine::Tauri => "tauri",
            PackageEngine::Rubygems => "rubygems",
            PackageEngine::Npm => "npm",
            PackageEngine::Oci => "oci",
            PackageEngine::Raw => "raw",
        }
    }

    /// The value whose code is exactly `c`.
    pub open spec fn with_code(c: Seq<char>) -> Option<Self> {
        if c == "pypi"@ {
            Some(PackageEngine::Pypi)
        } else if c == "tauri"@ {
            Some(PackageEngine::Tauri)
        } else if c == "rubygems"@ {
            Some(PackageEngine::Rubygems)
        } else if c == "npm"@ {
            Some(PackageEngine::Npm)
        } else if c == "oci"@ {
            Some(PackageEngine::Oci)
        } else if c == "raw"@ {
            Some(PackageEngine::Raw)
        } else {
            None
        }
    }

    /// The value whose code is `code`, if any.
    pub fn from_code(code: &str) -> (r: Option<Self>)
        ensures
            r == Self::with_code(code@),
    {
        let v = chars_of(code);
        let c = v.as_slice();
        if chars_eq_str(c, "pypi") {
            Some(PackageEngine::Pypi)
        } else if chars_eq_str(c, "tauri") {
            Some(PackageEngine::Tauri)
        } else if chars_eq_str(c, "rubygems") {
            Some(PackageEngine::Rubygems)
        } else if chars_eq_str(c, "npm") {
            Some(PackageEngine::Npm)
        } else if chars_eq_str(c, "oci") {
            Some(PackageEngine::Oci)
        } else if chars_eq_str(c, "raw") {
            Some(PackageEngine::Raw)
        } else {
            None
        }
    }
}

/// Reading the code of a PackageEngine gives the value back.
pub proof fn law_package_engine_code_round_trip(x: PackageEngine)
    ensures
        PackageEngine::with_code(x.code()) == Some(x),
{
    reveal_strlit("pypi");
    reveal_strlit("tauri");
    reveal_strlit("rubygems");
    reveal_strlit("npm");
    reveal_strlit("oci");
    reveal_strlit("raw");
    match x {
        PackageEngine::Pypi => {
        },
        PackageEngine::Tauri => {
            assert("tauri"@.len() != "pypi"@.len());
        },
        PackageEngine::Rubygems => {
            assert("rubygems"@.len() != "pypi"@.len());
            assert("rubygems"@.len() != "tauri"@.len());
        },
        PackageEngine::Npm => {
            assert("npm"@.len() != "pypi"@.len());
            assert("npm"@.len() != "tauri"@.len());
            assert("npm"@.len() != "rubygems"@.len());
        },
        PackageEngine::Oci => {
            assert("oci"@.len() != "pypi"@.len());
            assert("oci"@.len() != "tauri"@.len());
            assert("oci"@.len() != "rubygems"@.len());
            assert("oci"@[0] != "npm"@[0]);
        },
        PackageEngine::Raw => {
            assert("raw"@.len() != "pypi"@.len());
            assert("raw"@.len() != "tauri"@.len());
            assert("raw"@.len() != "rubygems"@.len());
            assert("raw"@[0] != "npm"@[0]);
            assert("raw"@[0] != "oci"@[0]);
        },
    }
}

/// The code of an optional PackageEngine.
pub fn package_engine_text(e: Option<PackageEngine>) -> (r: Option<String>)
    ensures
        opt_chars(r) == match e {
            Some(x) => Some(x.code()),
            None => None,
        },
{
    match e {
        Some(x) => Some(to_string(x.as_str())),
        None => None,
    }
}

/// The attributes of a new package, and the product it belongs to.
#[derive(Debug, Clone)]
pub struct CreatePackageRequest {
    pub name: String,
    pub key: String,
    pub product_id: String,
    pub engine: Option<PackageEngine>,
    pub metadata: Option<HashMap<String, serde_json::Value>>,
}

/// The changes to make to a package; absent fields are left unchanged.
#[derive(Debug, Clone, Default)]
pub struct UpdatePackageRequest {
    pub name: Option<String>,
    pub key: Option<String>,
    pub metadata: Option<HashMap<String, serde_json::Value>>,
}

/// `start` followed by part 1 of the attributes of a `CreatePackageRequest`.
pub open spec fn create_package_request_attributes_1(r: CreatePackageRequest, start: Seq<(Seq<char>, AttributeView)>) -> Seq<(Seq<char>, AttributeView)> {
    start
        + text_attr("name"@, Some(r.name@))
        + text_attr("key"@, Some(r.key@))
        + text_attr("engine"@, match r.engine { Some(e) => Some(e.code()), None => None })
}

/// The attributes sent when a package is created: the name and key, then the engine's code when it is set (the metadata aside).
pub open spec fn create_package_attributes(r: CreatePackageRequest) -> Seq<(Seq<char>, AttributeView)> {
    create_package_request_attributes_1(r, Seq::empty())
}

impl CreatePackageRequest {
    fn push_attributes_1(&self, attrs: Vec<(String, AttributeValue)>) -> (r: Vec<(String, AttributeValue)>)
        ensures
            attribute_views(r@) === create_package_request_attributes_1(*self, attribute_views(attrs@)),
    {
        let mut attrs = attrs;
        attrs = push_text(attrs, "name", Some(self.name.clone()));
        attrs = push_text(attrs, "key", Some(self.key.clone()));
        attrs = push_text(attrs, "engine", package_engine_text(self.engine));
        attrs
    }

    /// The attributes of the request body that are set, in order.
    pub fn attributes(&self) -> (r: Vec<(String, AttributeValue)>)
        ensures
            attribute_views(r@) === create_package_attributes(*self),
    {
        let mut attrs: Vec<(String, AttributeValue)> = Vec::new();
        assert(attribute_views(attrs@) =~= Seq::empty()) by {
            reveal(attribute_views);
        }
        attrs = self.push_attributes_1(attrs);
        attrs
    }
}

/// The relationships sent when a package is created: its product.
pub open spec fn create_package_relationships(r: CreatePackageRequest) -> Seq<(Seq<char>, Seq<char>, Seq<char>)> {
    Seq::empty() + seq![("product"@, "products"@, r.product_id@)]
}

impl CreatePackageRequest {
    /// The relationships of the request body.
    pub fn relationships(&self) -> (r: Vec<Relationship>)
        ensures
            relationship_views(r@) == create_package_relationships(*self),
    {
        let mut rels: Vec<Relationship> = Vec::new();
        assert(relationship_views(rels@) =~= Seq::empty());
        rels = push_relationship(rels, "product", "products", Some(self.product_id.clone()));
        rels
    }
}

/// `start` followed by part 1 of the attributes of an `UpdatePackageRequest`.
pub open spec fn update_package_request_attributes_1(r: UpdatePackageRequest, start: Seq<(Seq<char>, AttributeView)>) -> Seq<(Seq<char>, AttributeView)> {
    start
        + text_attr("name"@, opt_chars(r.name))
        + text_attr("key"@, opt_chars(r.key))
}

/// The attributes sent when a package is changed: the name and key that are set (the metadata aside).
pub open spec fn update_package_attributes(r: UpdatePackageRequest) -> Seq<(Seq<char>, AttributeView)> {
    update_package_request_attributes_1(r, Seq::empty())
}

impl UpdatePackageRequest {
    fn push_attributes_1(&self, attrs: Vec<(String, AttributeValue)>) -> (r: Vec<(String, AttributeValue)>)
        ensures
            attribute_views(r@) === update_package_request_attributes_1(*self, attribute_views(attrs@)),
    {
        let mut attrs = attrs;
        attrs = push_text(attrs, "name", copy_text(&self.name));
        attrs = push_text(attrs, "key", copy_text(&self.key));
        attrs
    }

    /// The attributes of the request body that are set, in order.
    pub fn attributes(&self) -> (r: Vec<(String, AttributeValue)>)
        ensures
            attribute_views(r@) === update_package_attributes(*self),
    {
        let mut attrs: Vec<(String, AttributeValue)> = Vec::new();
        assert(attribute_views(attrs@) =~= Seq::empty()) by {
            reveal(attribute_views);
        }
        attrs = self.push_attributes_1(attrs);
        attrs
    }
}

/// Pagination and filters for listing packages.
#[derive(Debug, Clone, Default)]
pub struct ListPackagesOptions {
    pub limit: Option<u32>,
    pub page_size: Option<u32>,
    pub page_number: Option<u32>,
    pub product: Option<String>,
    pub engine: Option<PackageEngine>,
}

/// `start` followed by part 1 of the query parameters of a `ListPackagesOptions`.
pub open spec fn list_packages_options_query_1(r: ListPackagesOptions, start: Seq<(Seq<char>, AttributeView)>) -> Seq<(Seq<char>, AttributeView)> {
    start
        + int_attr("limit"@, opt_u32(r.limit))
        + int_attr("page[size]"@, opt_u32(r.page_size))
        + int_attr("page[number]"@, opt_u32(r.page_number))
        + text_attr("product"@, opt_chars(r.product))
        + text_attr("engine"@, match r.engine { Some(e) => Some(e.code()), None => None })
}

/// The query parameters of a listing with `r`: the limit, page size and page number and filters that are set, in order.
pub open spec fn package_list_query(r: ListPackagesOptions) -> Seq<(Seq<char>, AttributeView)> {
    list_packages_options_query_1(r, Seq::empty())
}

impl ListPackagesOptions {
    fn push_query_1(&self, attrs: Vec<(String, AttributeValue)>) -> (r: Vec<(String, AttributeValue)>)
        ensures
            attribute_views(r@) === list_packages_options_query_1(*self, attribute_views(attrs@)),
    {
        let mut attrs = attrs;
        attrs = push_u32(attrs, "limit", self.limit);
        attrs = push_u32(attrs, "page[size]", self.page_size);
        attrs = push_u32(attrs, "page[number]", self.page_number);
        attrs = push_text(attrs, "product", copy_text(&self.product));
        attrs = push_text(attrs, "engine", package_engine_text(self.engine));
        attrs
    }

    /// The query parameters that are set, in order.
    pub fn query(&self) -> (r: Vec<(String, AttributeValue)>)
        ensures
            attribute_views(r@) === package_list_query(*self),
    {
        let mut attrs: Vec<(String, AttributeValue)> = Vec::new();
        assert(attribute_views(attrs@) =~= Seq::empty()) by {
            reveal(attribute_views);
        }
        attrs = self.push_query_1(attrs);
        attrs
    }
}

/// A package of a product.
#[derive(Debug, Clone)]
pub struct Package {
    pub id: String,
    pub name: String,
    pub key: String,
    pub engine: Option<PackageEngine>,
    pub metadata: Option<HashMap<String, serde_json::Value>>,
    pub created: String,
    pub updated: String,
    pub product_id: Option<String>,
    pub account_id: Option<String>,
    pub environment_id: Option<String>,
}

} // verus!
