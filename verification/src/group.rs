//! Groups of users, licenses and machines with shared limits, and the
//! bodies that create and change them.

use std::collections::HashMap;

use vstd::prelude::*;

use crate::attributes::{
    attribute_views, copy_text, int_attr, opt_chars, opt_i32, opt_u32, push_i32, push_u32, push_text, text_attr, AttributeValue, AttributeView,
};

verus! {

/// The attributes of a new group.
#[derive(Debug, Clone)]
pub struct CreateGroupRequest {
    pub name: String,
    pub max_users: Option<i32>,
    pub max_licenses: Option<i32>,
    pub max_machines: Option<i32>,
    pub metadata: Option<HashMap<String, serde_json::Value>>,
}

/// The changes to make to a group; absent fields are left unchanged.
#[derive(Debug, Clone)]
pub struct UpdateGroupRequest {
    pub name: Option<String>,
    pub max_users: Option<i32>,
    pub max_licenses: Option<i32>,
    pub max_machines: Option<i32>,
    pub metadata: Option<HashMap<String, serde_json::Value>>,
}

/// `start` followed by part 1 of the attributes of a `CreateGroupRequest`.
pub open spec fn create_group_request_attributes_1(r: CreateGroupRequest, start: Seq<(Seq<char>, AttributeView)>) -> Seq<(Seq<char>, AttributeView)> {
    start
        + text_attr("name"@, Some(r.name@))
        + int_attr("maxUsers"@, opt_i32(r.max_users))
        + int_attr("maxLicenses"@, opt_i32(r.max_licenses))
        + int_attr("maxMachines"@, opt_i32(r.max_machines))
}

/// The attributes sent when a group is created: the name, then the user, license and machine limits that are set (the metadata aside).
pub open spec fn create_group_attributes(r: CreateGroupRequest) -> Seq<(Seq<char>, AttributeView)> {
    create_group_request_attributes_1(r, Seq::empty())
}

impl CreateGroupRequest {
    fn push_attributes_1(&self, attrs: Vec<(String, AttributeValue)>) -> (r: Vec<(String, AttributeValue)>)
        ensures
            attribute_views(r@) === create_group_request_attributes_1(*self, attribute_views(attrs@)),
    {
        let mut attrs = attrs;
        attrs = push_text(attrs, "name", Some(self.name.clone()));
        attrs = push_i32(attrs, "maxUsers", self.max_users);
        attrs = push_i32(attrs, "maxLicenses", self.max_licenses);
        attrs = push_i32(attrs, "maxMachines", self.max_machines);
        attrs
    }

    /// The attributes of the request body that are set, in order.
    pub fn attributes(&self) -> (r: Vec<(String, AttributeValue)>)
        ensures
            attribute_views(r@) === create_group_attributes(*self),
    {
        let mut attrs: Vec<(String, AttributeValue)> = Vec::new();
        assert(attribute_views(attrs@) =~= Seq::empty()) by {
            reveal(attribute_views);
        }
        attrs = self.push_attributes_1(attrs);
        attrs
    }
}

/// `start` followed by part 1 of the attributes of an `UpdateGroupRequest`.
pub open spec fn update_group_request_attributes_1(r: UpdateGroupRequest, start: Seq<(Seq<char>, AttributeView)>) -> Seq<(Seq<char>, AttributeView)> {
    start
        + text_attr("name"@, opt_chars(r.name))
        + int_attr("maxUsers"@, opt_i32(r.max_users))
        + int_attr("maxLicenses"@, opt_i32(r.max_licenses))
        + int_attr("maxMachines"@, opt_i32(r.max_machines))
}

/// The attributes sent when a group is changed: those that are set among the name and the user, license and machine limits (the metadata aside).
pub open spec fn update_group_attributes(r: UpdateGroupRequest) -> Seq<(Seq<char>, AttributeView)> {
    update_group_request_attributes_1(r, Seq::empty())
}

impl UpdateGroupRequest {
    fn push_attributes_1(&self, attrs: Vec<(String, AttributeValue)>) -> (r: Vec<(String, AttributeValue)>)
        ensures
            attribute_views(r@) === update_group_request_attributes_1(*self, attribute_views(attrs@)),
    {
        let mut attrs = attrs;
        attrs = push_text(attrs, "name", copy_text(&self.name));
        attrs = push_i32(attrs, "maxUsers", self.max_users);
        attrs = push_i32(attrs, "maxLicenses", self.max_licenses);
        attrs = push_i32(attrs, "maxMachines", self.max_machines);
        attrs
    }

    /// The attributes of the request body that are set, in order.
    pub fn attributes(&self) -> (r: Vec<(String, AttributeValue)>)
        ensures
            attribute_views(r@) === update_group_attributes(*self),
    {
        let mut attrs: Vec<(String, AttributeValue)> = Vec::new();
        assert(attribute_views(attrs@) =~= Seq::empty()) by {
            reveal(attribute_views);
        }
        attrs = self.push_attributes_1(attrs);
        attrs
    }
}

/// Page-number pagination for listing groups.
#[derive(Debug, Clone, Default)]
pub struct ListGroupsOptions {
    pub limit: Option<u32>,
    pub page_size: Option<u32>,
    pub page_number: Option<u32>,
}

/// `start` followed by part 1 of the query parameters of a `ListGroupsOptions`.
pub open spec fn list_groups_options_query_1(r: ListGroupsOptions, start: Seq<(Seq<char>, AttributeView)>) -> Seq<(Seq<char>, AttributeView)> {
    start
        + int_attr("limit"@, opt_u32(r.limit))
        + int_attr("page[size]"@, opt_u32(r.page_size))
        + int_attr("page[number]"@, opt_u32(r.page_number))
}

/// The query parameters of a listing with `r`: the limit, page size and page number that are set, in order.
pub open spec fn group_list_query(r: ListGroupsOptions) -> Seq<(Seq<char>, AttributeView)> {
    list_groups_options_query_1(r, Seq::empty())
}

impl ListGroupsOptions {
    fn push_query_1(&self, attrs: Vec<(String, AttributeValue)>) -> (r: Vec<(String, AttributeValue)>)
        ensures
            attribute_views(r@) === list_groups_options_query_1(*self, attribute_views(attrs@)),
    {
        let mut attrs = attrs;
        attrs = push_u32(attrs, "limit", self.limit);
        attrs = push_u32(attrs, "page[size]", self.page_size);
        attrs = push_u32(attrs, "page[number]", self.page_number);
        attrs
    }

    /// The query parameters that are set, in order.
    pub fn query(&self) -> (r: Vec<(String, AttributeValue)>)
        ensures
            attribute_views(r@) === group_list_query(*self),
    {
        let mut attrs: Vec<(String, AttributeValue)> = Vec::new();
        assert(attribute_views(attrs@) =~= Seq::empty()) by {
            reveal(attribute_views);
        }
        attrs = self.push_query_1(attrs);
        attrs
    }
}

} // verus!
