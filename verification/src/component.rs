//! Components of machines: the bodies that create and change them, and
//! the options and query that list them.

use std::collections::HashMap;

use vstd::prelude::*;

use crate::attributes::{
    attribute_views, copy_text, int_attr, opt_chars, opt_u32, push_relationship, push_text, push_u32,
    relationship_views, text_attr, AttributeValue, AttributeView, Relationship,
};

verus! {

/// Pagination and filters for listing components.
#[derive(Debug, Clone, Default)]
pub struct ListComponentsOptions {
    pub limit: Option<u32>,
    pub page_size: Option<u32>,
    pub page_number: Option<u32>,
    pub machine: Option<String>,
    pub license: Option<String>,
    pub owner: Option<String>,
    pub user: Option<String>,
    pub product: Option<String>,
}

impl ListComponentsOptions {
    /// Options with nothing set.
    pub fn new() -> (r: Self)
        ensures
            r.limit is None,
            r.page_size is None,
            r.page_number is None,
            r.machine is None,
            r.license is None,
            r.owner is None,
            r.user is None,
            r.product is None,
    {
        ListComponentsOptions {
            limit: None,
            page_size: None,
            page_number: None,
            machine: None,
            license: None,
            owner: None,
            user: None,
            product: None,
        }
    }

    /// These options with a limit on the number of results (1-100).
    pub fn with_limit(self, limit: u32) -> (r: Self)
        ensures
            r == (Self { limit: Some(limit), ..self }),
    {
        Self { limit: Some(limit), ..self }
    }

    /// These options asking for one page of results.
    pub fn with_pagination(self, page_number: u32, page_size: u32) -> (r: Self)
        ensures
            r == (Self { page_number: Some(page_number), page_size: Some(page_size), ..self }),
    {
        Self { page_number: Some(page_number), page_size: Some(page_size), ..self }
    }

    /// These options filtered by machine id.
    pub fn with_machine(self, machine: String) -> (r: Self)
        ensures
            r == (Self { machine: Some(machine), ..self }),
    {
        Self { machine: Some(machine), ..self }
    }

    /// These options filtered by license id.
    pub fn with_license(self, license: String) -> (r: Self)
        ensures
            r == (Self { license: Some(license), ..self }),
    {
        Self { license: Some(license), ..self }
    }

    /// These options filtered by owner id.
    pub fn with_owner(self, owner: String) -> (r: Self)
        ensures
            r == (Self { owner: Some(owner), ..self }),
    {
        Self { owner: Some(owner), ..self }
    }

    /// These options filtered by user id.
    pub fn with_user(self, user: String) -> (r: Self)
        ensures
            r == (Self { user: Some(user), ..self }),
    {
        Self { user: Some(user), ..self }
    }

    /// These options filtered by product id.
    pub fn with_product(self, product: String) -> (r: Self)
        ensures
            r == (Self { product: Some(product), ..self }),
    {
        Self { product: Some(product), ..self }
    }
}

/// The attributes of a new component, and the machine it belongs to.
#[derive(Debug, Clone)]
pub struct CreateComponentRequest {
    pub fingerprint: String,
    pub name: String,
    pub metadata: Option<HashMap<String, serde_json::Value>>,
    pub machine_id: String,
}

/// The changes to make to a component (only its name and metadata can change).
#[derive(Debug, Clone, Default)]
pub struct UpdateComponentRequest {
    pub name: Option<String>,
    pub metadata: Option<HashMap<String, serde_json::Value>>,
}

/// `start` followed by part 1 of the attributes of a `CreateComponentRequest`.
pub open spec fn create_component_request_attributes_1(r: CreateComponentRequest, start: Seq<(Seq<char>, AttributeView)>) -> Seq<(Seq<char>, AttributeView)> {
    start
        + text_attr("fingerprint"@, Some(r.fingerprint@))
        + text_attr("name"@, Some(r.name@))
}

/// The attributes sent when a component is created: the fingerprint and name (the metadata aside).
pub open spec fn create_component_attributes(r: CreateComponentRequest) -> Seq<(Seq<char>, AttributeView)> {
    create_component_request_attributes_1(r, Seq::empty())
}

impl CreateComponentRequest {
    fn push_attributes_1(&self, attrs: Vec<(String, AttributeValue)>) -> (r: Vec<(String, AttributeValue)>)
        ensures
            attribute_views(r@) === create_component_request_attributes_1(*self, attribute_views(attrs@)),
    {
        let mut attrs = attrs;
        attrs = push_text(attrs, "fingerprint", Some(self.fingerprint.clone()));
        attrs = push_text(attrs, "name", Some(self.name.clone()));
        attrs
    }

    /// The attributes of the request body that are set, in order.
    pub fn attributes(&self) -> (r: Vec<(String, AttributeValue)>)
        ensures
            attribute_views(r@) === create_component_attributes(*self),
    {
        let mut attrs: Vec<(String, AttributeValue)> = Vec::new();
        assert(attribute_views(attrs@) =~= Seq::empty()) by {
            reveal(attribute_views);
        }
        attrs = self.push_attributes_1(attrs);
        attrs
    }
}

/// The relationships sent when a component is created: its machine.
pub open spec fn create_component_relationships(r: CreateComponentRequest) -> Seq<(Seq<char>, Seq<char>, Seq<char>)> {
    Seq::empty() + seq![("machine"@, "machines"@, r.machine_id@)]
}

impl CreateComponentRequest {
    /// The relationships of the request body.
    pub fn relationships(&self) -> (r: Vec<Relationship>)
        ensures
            relationship_views(r@) == create_component_relationships(*self),
    {
        let mut rels: Vec<Relationship> = Vec::new();
        assert(relationship_views(rels@) =~= Seq::empty());
        rels = push_relationship(rels, "machine", "machines", Some(self.machine_id.clone()));
        rels
    }
}

/// `start` followed by part 1 of the attributes of an `UpdateComponentRequest`.
pub open spec fn update_component_request_attributes_1(r: UpdateComponentRequest, start: Seq<(Seq<char>, AttributeView)>) -> Seq<(Seq<char>, AttributeView)> {
    start
        + text_attr("name"@, opt_chars(r.name))
}

/// The attributes sent when a component is changed: the name when it is set (the metadata aside).
pub open spec fn update_component_attributes(r: UpdateComponentRequest) -> Seq<(Seq<char>, AttributeView)> {
    update_component_request_attributes_1(r, Seq::empty())
}

impl UpdateComponentRequest {
    fn push_attributes_1(&self, attrs: Vec<(String, AttributeValue)>) -> (r: Vec<(String, AttributeValue)>)
        ensures
            attribute_views(r@) === update_component_request_attributes_1(*self, attribute_views(attrs@)),
    {
        let mut attrs = attrs;
        attrs = push_text(attrs, "name", copy_text(&self.name));
        attrs
    }

    /// The attributes of the request body that are set, in order.
    pub fn attributes(&self) -> (r: Vec<(String, AttributeValue)>)
        ensures
            attribute_views(r@) === update_component_attributes(*self),
    {
        let mut attrs: Vec<(String, AttributeValue)> = Vec::new();
        assert(attribute_views(attrs@) =~= Seq::empty()) by {
            reveal(attribute_views);
        }
        attrs = self.push_attributes_1(attrs);
        attrs
    }
}

/// `start` followed by part 1 of the query parameters of a `ListComponentsOptions`.
pub open spec fn list_components_options_query_1(r: ListComponentsOptions, start: Seq<(Seq<char>, AttributeView)>) -> Seq<(Seq<char>, AttributeView)> {
    start
        + int_attr("limit"@, opt_u32(r.limit))
        + int_attr("page[size]"@, opt_u32(r.page_size))
        + int_attr("page[number]"@, opt_u32(r.page_number))
        + text_attr("machine"@, opt_chars(r.machine))
        + text_attr("license"@, opt_chars(r.license))
        + text_attr("owner"@, opt_chars(r.owner))
}

/// `start` followed by part 2 of the query parameters of a `ListComponentsOptions`.
pub open spec fn list_components_options_query_2(r: ListComponentsOptions, start: Seq<(Seq<char>, AttributeView)>) -> Seq<(Seq<char>, AttributeView)> {
    start
        + text_attr("user"@, opt_chars(r.user))
        + text_attr("product"@, opt_chars(r.product))
}

/// The query of a component listing: the limit, page size, page number and the machine, license, owner, user and product filters that are set.
pub open spec fn component_list_query(r: ListComponentsOptions) -> Seq<(Seq<char>, AttributeView)> {
    list_components_options_query_2(r, list_components_options_query_1(r, Seq::empty()))
}

impl ListComponentsOptions {
    fn push_query_1(&self, attrs: Vec<(String, AttributeValue)>) -> (r: Vec<(String, AttributeValue)>)
        ensures
            attribute_views(r@) === list_components_options_query_1(*self, attribute_views(attrs@)),
    {
        let mut attrs = attrs;
        attrs = push_u32(attrs, "limit", self.limit);
        attrs = push_u32(attrs, "page[size]", self.page_size);
        attrs = push_u32(attrs, "page[number]", self.page_number);
        attrs = push_text(attrs, "machine", copy_text(&self.machine));
        attrs = push_text(attrs, "license", copy_text(&self.license));
        attrs = push_text(attrs, "owner", copy_text(&self.owner));
        attrs
    }

    fn push_query_2(&self, attrs: Vec<(String, AttributeValue)>) -> (r: Vec<(String, AttributeValue)>)
        ensures
            attribute_views(r@) === list_components_options_query_2(*self, attribute_views(attrs@)),
    {
        let mut attrs = attrs;
        attrs = push_text(attrs, "user", copy_text(&self.user));
        attrs = push_text(attrs, "product", copy_text(&self.product));
        attrs
    }

    /// The query parameters that are set, in order.
    pub fn query(&self) -> (r: Vec<(String, AttributeValue)>)
        ensures
            attribute_views(r@) === component_list_query(*self),
    {
        let mut attrs: Vec<(String, AttributeValue)> = Vec::new();
        assert(attribute_views(attrs@) =~= Seq::empty()) by {
            reveal(attribute_views);
        }
        attrs = self.push_query_1(attrs);
        attrs = self.push_query_2(attrs);
        attrs
    }
}

impl CreateComponentRequest {
    /// A request for a component of the machine `machine_id`, without metadata.
    pub fn new(fingerprint: String, name: String, machine_id: String) -> (r: Self)
        ensures
            r.fingerprint == fingerprint,
            r.name == name,
            r.machine_id == machine_id,
            r.metadata is None,
    {
        CreateComponentRequest { fingerprint, name, metadata: None, machine_id }
    }

    /// This request with the given metadata.
    pub fn with_metadata(self, metadata: HashMap<String, serde_json::Value>) -> (r: Self)
        ensures
            r == (CreateComponentRequest { metadata: Some(metadata), ..self }),
    {
        CreateComponentRequest { metadata: Some(metadata), ..self }
    }
}

impl UpdateComponentRequest {
    /// A request that changes nothing.
    pub fn new() -> (r: Self)
        ensures
            r.name is None,
            r.metadata is None,
    {
        UpdateComponentRequest { name: None, metadata: None }
    }

    /// This request with the given name.
    pub fn with_name(self, name: String) -> (r: Self)
        ensures
            r == (UpdateComponentRequest { name: Some(name), ..self }),
    {
        UpdateComponentRequest { name: Some(name), ..self }
    }

    /// This request with the given metadata.
    pub fn with_metadata(self, metadata: HashMap<String, serde_json::Value>) -> (r: Self)
        ensures
            r == (UpdateComponentRequest { metadata: Some(metadata), ..self }),
    {
        UpdateComponentRequest { metadata: Some(metadata), ..self }
    }
}

} // verus!
