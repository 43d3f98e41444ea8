//! Webhook events: the record of a delivery, and the options for listing
//! them.

use vstd::prelude::*;

use crate::attributes::{
    attribute_views, int_attr, opt_chars, opt_i32, push_i32, push_text, text_attr, AttributeValue,
    AttributeView,
};
use crate::certificate::Timestamp;
use crate::text::{chars_eq_str, chars_of, to_string};

verus! {

/// Where the delivery of a webhook event stands.
#[derive(Debug, Clone, Copy, PartialEq, Eq, Structural)]
pub enum WebhookEventStatus {
    Delivering,
    Delivered,
    Failing,
    Failed,
}

impl WebhookEventStatus {
    /// The status, as the API spells it.
    pub open spec fn code(self) -> Seq<char> {
        match self {
            WebhookEventStatus::Delivering => "DELIVERING"@,
            WebhookEventStatus::Delivered => "DELIVERED"@,
            WebhookEventStatus::Failing => "FAILING"@,
            WebhookEventStatus::Failed => "FAILED"@,
        }
    }

    /// The status, as the API spells it.
    pub fn as_str(self) -> (r: &'static str)
        ensures
            r@ == self.code(),
    {
        match self {
            WebhookEventStatus::Delivering => "DELIVERING",
            WebhookEventStatus::Delivered => "DELIVERED",
            WebhookEventStatus::Failing => "FAILING",
            WebhookEventStatus::Failed => "FAILED",
        }
    }
}

impl WebhookEventStatus {
    /// The status whose code is exactly `c`.
    pub open spec fn with_code(c: Seq<char>) -> Option<Self> {
        if c == "DELIVERING"@ {
            Some(WebhookEventStatus::Delivering)
        } else if c == "DELIVERED"@ {
            Some(WebhookEventStatus::Delivered)
        } else if c == "FAILING"@ {
            Some(WebhookEventStatus::Failing)
        } else if c == "FAILED"@ {
            Some(WebhookEventStatus::Failed)
        } else {
            None
        }
    }

    /// The status whose code is `code`, if any.
    pub fn from_code(code: &str) -> (r: Option<Self>)
        ensures
            r == Self::with_code(code@),
    {
        let v = chars_of(code);
        let c = v.as_slice();
        if chars_eq_str(c, "DELIVERING") {
            Some(WebhookEventStatus::Delivering)
        } else if chars_eq_str(c, "DELIVERED") {
            Some(WebhookEventStatus::Delivered)
        } else if chars_eq_str(c, "FAILING") {
            Some(WebhookEventStatus::Failing)
        } else if chars_eq_str(c, "FAILED") {
            Some(WebhookEventStatus::Failed)
        } else {
            None
        }
    }
}

/// Reading the code of a delivery status gives the status back.
pub proof fn law_webhook_event_status_code_round_trip(s: WebhookEventStatus)
    ensures
        WebhookEventStatus::with_code(s.code()) == Some(s),
{
    reveal_strlit("DELIVERING");
    reveal_strlit("DELIVERED");
    reveal_strlit("FAILING");
    reveal_strlit("FAILED");
    match s {
        WebhookEventStatus::Delivering => {},
        WebhookEventStatus::Delivered => {
            assert("DELIVERED"@.len() != "DELIVERING"@.len());
        },
        WebhookEventStatus::Failing => {
            assert("FAILING"@.len() != "DELIVERING"@.len());
            assert("FAILING"@.len() != "DELIVERED"@.len());
        },
        WebhookEventStatus::Failed => {
            assert("FAILED"@.len() != "DELIVERING"@.len());
            assert("FAILED"@.len() != "DELIVERED"@.len());
            assert("FAILED"@.len() != "FAILING"@.len());
        },
    }
}

/// The record of a webhook event and its delivery.
#[derive(Debug)]
pub struct WebhookEventRecord {
    pub id: String,
    pub endpoint: String,
    pub payload: serde_json::Value,
    pub event: String,
    pub status: WebhookEventStatus,
    pub last_response_code: Option<i32>,
    pub last_response_body: Option<String>,
    pub created: Timestamp,
    pub updated: Timestamp,
    pub account_id: Option<String>,
}

impl WebhookEventRecord {
    /// Whether the event has been delivered.
    pub fn is_delivered(&self) -> (r: bool)
        ensures
            r == (self.status == WebhookEventStatus::Delivered),
    {
        match self.status {
            WebhookEventStatus::Delivered => true,
            _ => false,
        }
    }

    /// Whether the delivery has failed for good.
    pub fn is_failed(&self) -> (r: bool)
        ensures
            r == (self.status == WebhookEventStatus::Failed),
    {
        match self.status {
            WebhookEventStatus::Failed => true,
            _ => false,
        }
    }

    /// Whether the event is being delivered, or is failing and retried.
    pub fn is_pending(&self) -> (r: bool)
        ensures
            r == (self.status == WebhookEventStatus::Delivering || self.status
                == WebhookEventStatus::Failing),
    {
        match self.status {
            WebhookEventStatus::Delivering | WebhookEventStatus::Failing => true,
            _ => false,
        }
    }
}

/// A webhook event is in exactly one of the delivered, failed and pending
/// states.
pub proof fn law_event_states_partition(status: WebhookEventStatus)
    ensures
        (status == WebhookEventStatus::Delivered) as int + (status == WebhookEventStatus::Failed) as int
            + (status == WebhookEventStatus::Delivering || status == WebhookEventStatus::Failing) as int
            == 1,
{
}

/// Options for listing webhook events.
#[derive(Debug, Default)]
pub struct WebhookEventListOptions {
    pub limit: Option<i32>,
    pub page_number: Option<i32>,
    pub page_size: Option<i32>,
    pub event_type: Option<String>,
    pub status: Option<WebhookEventStatus>,
}

/// The query parameters of a webhook event listing: the page-number
/// pagination, then the event name and the status filters when given.
pub open spec fn event_list_query(o: WebhookEventListOptions) -> Seq<(Seq<char>, AttributeView)> {
    Seq::empty() + int_attr("limit"@, opt_i32(o.limit)) + int_attr(
        "page[number]"@,
        opt_i32(o.page_number),
    ) + int_attr("page[size]"@, opt_i32(o.page_size)) + text_attr("event"@, opt_chars(o.event_type))
        + text_attr(
        "status"@,
        match o.status {
            Some(s) => Some(s.code()),
            None => None,
        },
    )
}

impl WebhookEventListOptions {
    /// The query parameters of the listing, in the order they are set.
    pub fn query(&self) -> (r: Vec<(String, AttributeValue)>)
        ensures
            attribute_views(r@) === event_list_query(*self),
    {
        let mut attrs: Vec<(String, AttributeValue)> = Vec::new();
        assert(attribute_views(attrs@) =~= Seq::empty()) by {
            reveal(attribute_views);
        }
        attrs = push_i32(attrs, "limit", self.limit);
        attrs = push_i32(attrs, "page[number]", self.page_number);
        attrs = push_i32(attrs, "page[size]", self.page_size);
        let event = match &self.event_type {
            Some(e) => Some(e.clone()),
            None => None,
        };
        attrs = push_text(attrs, "event", event);
        let status = match self.status {
            Some(s) => Some(to_string(s.as_str())),
            None => None,
        };
        attrs = push_text(attrs, "status", status);
        attrs
    }
}

} // verus!
