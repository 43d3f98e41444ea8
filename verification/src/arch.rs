//! Architectures: read-only resources of an account, and the query that lists
//! them a page at a time.

use vstd::prelude::*;

use crate::attributes::{
    attribute_views, int_attr, opt_u32, push_u32, AttributeValue, AttributeView,
};

verus! {

/// The attributes of an architecture.
#[derive(Debug, Clone)]
pub struct ArchAttributes {
    pub name: Option<String>,
    pub key: String,
    pub created: String,
    pub updated: String,
}

/// A target CPU architecture of artifacts (read-only; populated from releases and artifacts).
#[derive(Debug, Clone)]
pub struct Arch {
    pub id: String,
    pub name: Option<String>,
    pub key: String,
    pub created: String,
    pub updated: String,
    pub account_id: Option<String>,
}

/// Page-number pagination for listing architectures.
#[derive(Debug, Clone, Default)]
pub struct ListArchesOptions {
    pub limit: Option<u32>,
    pub page_size: Option<u32>,
    pub page_number: Option<u32>,
}

/// `start` followed by part 1 of the query parameters of a `ListArchesOptions`.
pub open spec fn list_arches_options_query_1(r: ListArchesOptions, start: Seq<(Seq<char>, AttributeView)>) -> Seq<(Seq<char>, AttributeView)> {
    start
        + int_attr("limit"@, opt_u32(r.limit))
        + int_attr("page[size]"@, opt_u32(r.page_size))
        + int_attr("page[number]"@, opt_u32(r.page_number))
}

/// The query parameters of a listing with `r`: the limit, page size and page number that are set, in order.
pub open spec fn arch_list_query(r: ListArchesOptions) -> Seq<(Seq<char>, AttributeView)> {
    list_arches_options_query_1(r, Seq::empty())
}

impl ListArchesOptions {
    fn push_query_1(&self, attrs: Vec<(String, AttributeValue)>) -> (r: Vec<(String, AttributeValue)>)
        ensures
            attribute_views(r@) === list_arches_options_query_1(*self, attribute_views(attrs@)),
    {
        let mut attrs = attrs;
        attrs = push_u32(attrs, "limit", self.limit);
        attrs = push_u32(attrs, "page[size]", self.page_size);
        attrs = push_u32(attrs, "page[number]", self.page_number);
        attrs
    }

    /// The query parameters that are set, in order.
    pub fn query(&self) -> (r: Vec<(String, AttributeValue)>)
        ensures
            attribute_views(r@) === arch_list_query(*self),
    {
        let mut attrs: Vec<(String, AttributeValue)> = Vec::new();
        assert(attribute_views(attrs@) =~= Seq::empty()) by {
            reveal(attribute_views);
        }
        attrs = self.push_query_1(attrs);
        attrs
    }
}

} // verus!
