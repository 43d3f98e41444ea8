//! Entitlements: named features a license can be granted, and the bodies
//! that create and change them.

use std::collections::HashMap;

use vstd::prelude::*;

use crate::attributes::{
    attribute_views, copy_text, int_attr, opt_chars, opt_u32, push_u32, push_text, text_attr, AttributeValue, AttributeView,
};

verus! {

/// The attributes of a new entitlement.
#[derive(Debug, Clone)]
pub struct CreateEntitlementRequest {
    pub name: Option<String>,
    pub code: String,
    pub metadata: Option<HashMap<String, serde_json::Value>>,
}

/// The changes to make to an entitlement; absent fields are left unchanged.
#[derive(Debug, Clone)]
pub struct UpdateEntitlementRequest {
    pub name: Option<String>,
    pub code: Option<String>,
    pub metadata: Option<HashMap<String, serde_json::Value>>,
}

/// `start` followed by part 1 of the attributes of a `CreateEntitlementRequest`.
pub open spec fn create_entitlement_request_attributes_1(r: CreateEntitlementRequest, start: Seq<(Seq<char>, AttributeView)>) -> Seq<(Seq<char>, AttributeView)> {
    start
        + text_attr("name"@, opt_chars(r.name))
        + text_attr("code"@, Some(r.code@))
}

/// The attributes sent when an entitlement is created: the name when it is set, then the code (the metadata aside).
pub open spec fn create_entitlement_attributes(r: CreateEntitlementRequest) -> Seq<(Seq<char>, AttributeView)> {
    create_entitlement_request_attributes_1(r, Seq::empty())
}

impl CreateEntitlementRequest {
    fn push_attributes_1(&self, attrs: Vec<(String, AttributeValue)>) -> (r: Vec<(String, AttributeValue)>)
        ensures
            attribute_views(r@) === create_entitlement_request_attributes_1(*self, attribute_views(attrs@)),
    {
        let mut attrs = attrs;
        attrs = push_text(attrs, "name", copy_text(&self.name));
        attrs = push_text(attrs, "code", Some(self.code.clone()));
        attrs
    }

    /// The attributes of the request body that are set, in order.
    pub fn attributes(&self) -> (r: Vec<(String, AttributeValue)>)
        ensures
            attribute_views(r@) === create_entitlement_attributes(*self),
    {
        let mut attrs: Vec<(String, AttributeValue)> = Vec::new();
        assert(attribute_views(attrs@) =~= Seq::empty()) by {
            reveal(attribute_views);
        }
        attrs = self.push_attributes_1(attrs);
        attrs
    }
}

/// `start` followed by part 1 of the attributes of an `UpdateEntitlementRequest`.
pub open spec fn update_entitlement_request_attributes_1(r: UpdateEntitlementRequest, start: Seq<(Seq<char>, AttributeView)>) -> Seq<(Seq<char>, AttributeView)> {
    start
        + text_attr("name"@, opt_chars(r.name))
        + text_attr("code"@, opt_chars(r.code))
}

/// The attributes sent when an entitlement is changed: the name and code that are set (the metadata aside).
pub open spec fn update_entitlement_attributes(r: UpdateEntitlementRequest) -> Seq<(Seq<char>, AttributeView)> {
    update_entitlement_request_attributes_1(r, Seq::empty())
}

impl UpdateEntitlementRequest {
    fn push_attributes_1(&self, attrs: Vec<(String, AttributeValue)>) -> (r: Vec<(String, AttributeValue)>)
        ensures
            attribute_views(r@) === update_entitlement_request_attributes_1(*self, attribute_views(attrs@)),
    {
        let mut attrs = attrs;
        attrs = push_text(attrs, "name", copy_text(&self.name));
        attrs = push_text(attrs, "code", copy_text(&self.code));
        attrs
    }

    /// The attributes of the request body that are set, in order.
    pub fn attributes(&self) -> (r: Vec<(String, AttributeValue)>)
        ensures
            attribute_views(r@) === update_entitlement_attributes(*self),
    {
        let mut attrs: Vec<(String, AttributeValue)> = Vec::new();
        assert(attribute_views(attrs@) =~= Seq::empty()) by {
            reveal(attribute_views);
        }
        attrs = self.push_attributes_1(attrs);
        attrs
    }
}

/// Page-number pagination for listing entitlements.
#[derive(Debug, Clone, Default)]
pub struct ListEntitlementsOptions {
    pub limit: Option<u32>,
    pub page_size: Option<u32>,
    pub page_number: Option<u32>,
}

/// `start` followed by part 1 of the query parameters of a `ListEntitlementsOptions`.
pub open spec fn list_entitlements_options_query_1(r: ListEntitlementsOptions, start: Seq<(Seq<char>, AttributeView)>) -> Seq<(Seq<char>, AttributeView)> {
    start
        + int_attr("limit"@, opt_u32(r.limit))
        + int_attr("page[size]"@, opt_u32(r.page_size))
        + int_attr("page[number]"@, opt_u32(r.page_number))
}

/// The query parameters of a listing with `r`: the limit, page size and page number that are set, in order.
pub open spec fn entitlement_list_query(r: ListEntitlementsOptions) -> Seq<(Seq<char>, AttributeView)> {
    list_entitlements_options_query_1(r, Seq::empty())
}

impl ListEntitlementsOptions {
    fn push_query_1(&self, attrs: Vec<(String, AttributeValue)>) -> (r: Vec<(String, AttributeValue)>)
        ensures
            attribute_views(r@) === list_entitlements_options_query_1(*self, attribute_views(attrs@)),
    {
        let mut attrs = attrs;
        attrs = push_u32(attrs, "limit", self.limit);
        attrs = push_u32(attrs, "page[size]", self.page_size);
        attrs = push_u32(attrs, "page[number]", self.page_number);
        attrs
    }

    /// The query parameters that are set, in order.
    pub fn query(&self) -> (r: Vec<(String, AttributeValue)>)
        ensures
            attribute_views(r@) === entitlement_list_query(*self),
    {
        let mut attrs: Vec<(String, AttributeValue)> = Vec::new();
        assert(attribute_views(attrs@) =~= Seq::empty()) by {
            reveal(attribute_views);
        }
        attrs = self.push_query_1(attrs);
        attrs
    }
}

} // verus!
