//! Machines: the options of a machine file checkout, and the filters of a
//! machine listing.

use vstd::prelude::*;

use std::collections::HashMap;

use crate::attributes::{
    attribute_views, copy_text, int_attr, opt_chars, opt_i32, opt_i64, push_i32, push_i64, push_relationship,
    push_text, relationship_views, text_attr, AttributeValue, AttributeView, Relationship,
};
use crate::config::KeygenConfig;
use crate::text::{join_spec, join_strings, to_string};

verus! {

/// Options for checking out a machine file.
#[derive(Debug, Clone, Default)]
pub struct MachineCheckoutOpts {
    pub ttl: Option<i64>,
    pub included: Option<Vec<String>>,
}

/// Filters for listing machines.
#[derive(Debug, Clone)]
pub struct MachineListFilters {
    pub license: Option<String>,
    pub user: Option<String>,
    pub platform: Option<String>,
    pub name: Option<String>,
    pub fingerprint: Option<String>,
}

/// The query of a machine file checkout: an encrypted file, including the
/// given relationships joined with commas (the license's entitlements when
/// none are given), and the time to live when one is given.
pub open spec fn machine_checkout_query(o: MachineCheckoutOpts) -> Seq<(Seq<char>, AttributeView)> {
    seq![
        ("encrypt"@, AttributeView::Integer(1)),
        (
            "include"@,
            AttributeView::Text(
                match o.included {
                    Some(v) => join_spec(v.deep_view(), ','),
                    None => "license.entitlements"@,
                },
            ),
        ),
    ] + int_attr("ttl"@, opt_i64(o.ttl))
}

impl MachineCheckoutOpts {
    /// Checkout options with default settings.
    pub fn new() -> (r: Self)
        ensures
            r.ttl is None,
            r.included is None,
    {
        MachineCheckoutOpts { ttl: None, included: None }
    }

    /// Checkout options with a time to live in seconds.
    pub fn with_ttl(ttl: i64) -> (r: Self)
        ensures
            r.ttl == Some(ttl),
            r.included is None,
    {
        MachineCheckoutOpts { ttl: Some(ttl), included: None }
    }

    /// Checkout options including the given relationships.
    pub fn with_include(included: Vec<String>) -> (r: Self)
        ensures
            r.ttl is None,
            r.included == Some(included),
    {
        MachineCheckoutOpts { ttl: None, included: Some(included) }
    }

    /// The query parameters of the checkout, in the order they are set.
    pub fn to_query(&self) -> (r: Vec<(String, AttributeValue)>)
        ensures
            attribute_views(r@) === machine_checkout_query(*self),
    {
        let included = match &self.included {
            Some(v) => join_strings(v, ','),
            None => to_string("license.entitlements"),
        };
        let ghost inc = included@;
        let mut attrs: Vec<(String, AttributeValue)> = Vec::new();
        attrs.push((to_string("encrypt"), AttributeValue::Integer(1)));
        attrs.push((to_string("include"), AttributeValue::Text(included)));
        assert(attribute_views(attrs@) =~= seq![
            ("encrypt"@, AttributeView::Integer(1)),
            ("include"@, AttributeView::Text(inc)),
        ]) by {
            reveal(attribute_views);
        }
        attrs = push_i64(attrs, "ttl", self.ttl);
        attrs
    }
}

/// The platform a machine is activated with: the configured one, else the
/// operating system and architecture it runs on, as `<os>/<arch>`.
pub open spec fn activation_platform(config: KeygenConfig, os: Seq<char>, arch: Seq<char>) -> Seq<char> {
    match config.platform {
        Some(p) => p@,
        None => os + "/"@ + arch,
    }
}

/// The attributes of a machine activation: the fingerprint, the number of
/// cores, the host name and the platform.
pub open spec fn activation_attributes_of(
    fingerprint: Seq<char>,
    cores: u64,
    hostname: Seq<char>,
    platform: Seq<char>,
) -> Seq<(Seq<char>, AttributeView)> {
    seq![
        ("fingerprint"@, AttributeView::Text(fingerprint)),
        ("cores"@, AttributeView::Integer(cores as int)),
        ("hostname"@, AttributeView::Text(hostname)),
        ("platform"@, AttributeView::Text(platform)),
    ]
}

/// The attributes of a machine activation, given what the caller read of
/// the machine: its core count, its host name, and the
/// operating system and architecture the program was built for.
pub fn activation_attributes(
    config: &KeygenConfig,
    fingerprint: &str,
    cores: u64,
    hostname: &str,
    os: &str,
    arch: &str,
) -> (r: Vec<(String, AttributeValue)>)
    ensures
        attribute_views(r@) === activation_attributes_of(
            fingerprint@,
            cores,
            hostname@,
            activation_platform(*config, os@, arch@),
        ),
{
    let platform = match &config.platform {
        Some(p) => p.clone(),
        None => {
            let mut t = to_string(os);
            t.append("/");
            t.append(arch);
            t
        },
    };
    let ghost pv = platform@;
    let mut attrs: Vec<(String, AttributeValue)> = Vec::new();
    attrs.push((to_string("fingerprint"), AttributeValue::Text(to_string(fingerprint))));
    attrs.push((to_string("cores"), AttributeValue::Unsigned(cores)));
    attrs.push((to_string("hostname"), AttributeValue::Text(to_string(hostname))));
    attrs.push((to_string("platform"), AttributeValue::Text(platform)));
    assert(attribute_views(attrs@) =~= activation_attributes_of(
        fingerprint@,
        cores,
        hostname@,
        pv,
    )) by {
        reveal(attribute_views);
    }
    attrs
}

/// The attributes of a new machine, and the license it is activated for.
#[derive(Debug, Clone)]
pub struct MachineCreateRequest {
    pub fingerprint: String,
    pub name: Option<String>,
    pub platform: Option<String>,
    pub hostname: Option<String>,
    pub ip: Option<String>,
    pub cores: Option<i32>,
    pub metadata: Option<HashMap<String, serde_json::Value>>,
    pub license_id: String,
}

/// The changes to make to a machine; absent fields are left unchanged.
#[derive(Debug, Clone, Default)]
pub struct MachineUpdateRequest {
    pub name: Option<String>,
    pub platform: Option<String>,
    pub hostname: Option<String>,
    pub ip: Option<String>,
    pub cores: Option<i32>,
    pub metadata: Option<HashMap<String, serde_json::Value>>,
}

/// `start` followed by part 1 of the attributes of a `MachineCreateRequest`.
pub open spec fn machine_create_request_attributes_1(r: MachineCreateRequest, start: Seq<(Seq<char>, AttributeView)>) -> Seq<(Seq<char>, AttributeView)> {
    start
        + text_attr("fingerprint"@, Some(r.fingerprint@))
        + text_attr("name"@, opt_chars(r.name))
        + text_attr("platform"@, opt_chars(r.platform))
        + text_attr("hostname"@, opt_chars(r.hostname))
        + text_attr("ip"@, opt_chars(r.ip))
        + int_attr("cores"@, opt_i32(r.cores))
}

/// The attributes sent when a machine is created: the fingerprint, then the name, platform, host name, IP address and core count that are set (the metadata aside).
pub open spec fn create_machine_attributes(r: MachineCreateRequest) -> Seq<(Seq<char>, AttributeView)> {
    machine_create_request_attributes_1(r, Seq::empty())
}

impl MachineCreateRequest {
    fn push_attributes_1(&self, attrs: Vec<(String, AttributeValue)>) -> (r: Vec<(String, AttributeValue)>)
        ensures
            attribute_views(r@) === machine_create_request_attributes_1(*self, attribute_views(attrs@)),
    {
        let mut attrs = attrs;
        attrs = push_text(attrs, "fingerprint", Some(self.fingerprint.clone()));
        attrs = push_text(attrs, "name", copy_text(&self.name));
        attrs = push_text(attrs, "platform", copy_text(&self.platform));
        attrs = push_text(attrs, "hostname", copy_text(&self.hostname));
        attrs = push_text(attrs, "ip", copy_text(&self.ip));
        attrs = push_i32(attrs, "cores", self.cores);
        attrs
    }

    /// The attributes of the request body that are set, in order.
    pub fn attributes(&self) -> (r: Vec<(String, AttributeValue)>)
        ensures
            attribute_views(r@) === create_machine_attributes(*self),
    {
        let mut attrs: Vec<(String, AttributeValue)> = Vec::new();
        assert(attribute_views(attrs@) =~= Seq::empty()) by {
            reveal(attribute_views);
        }
        attrs = self.push_attributes_1(attrs);
        attrs
    }
}

/// The relationships sent when a machine is created: its license.
pub open spec fn create_machine_relationships(r: MachineCreateRequest) -> Seq<(Seq<char>, Seq<char>, Seq<char>)> {
    Seq::empty() + seq![("license"@, "licenses"@, r.license_id@)]
}

impl MachineCreateRequest {
    /// The relationships of the request body.
    pub fn relationships(&self) -> (r: Vec<Relationship>)
        ensures
            relationship_views(r@) == create_machine_relationships(*self),
    {
        let mut rels: Vec<Relationship> = Vec::new();
        assert(relationship_views(rels@) =~= Seq::empty());
        rels = push_relationship(rels, "license", "licenses", Some(self.license_id.clone()));
        rels
    }
}

/// `start` followed by part 1 of the attributes of a `MachineUpdateRequest`.
pub open spec fn machine_update_request_attributes_1(r: MachineUpdateRequest, start: Seq<(Seq<char>, AttributeView)>) -> Seq<(Seq<char>, AttributeView)> {
    start
        + text_attr("name"@, opt_chars(r.name))
        + text_attr("platform"@, opt_chars(r.platform))
        + text_attr("hostname"@, opt_chars(r.hostname))
        + text_attr("ip"@, opt_chars(r.ip))
        + int_attr("cores"@, opt_i32(r.cores))
}

/// The attributes sent when a machine is changed: those that are set among the name, platform, host name, IP address and core count (the metadata aside).
pub open spec fn update_machine_attributes(r: MachineUpdateRequest) -> Seq<(Seq<char>, AttributeView)> {
    machine_update_request_attributes_1(r, Seq::empty())
}

impl MachineUpdateRequest {
    fn push_attributes_1(&self, attrs: Vec<(String, AttributeValue)>) -> (r: Vec<(String, AttributeValue)>)
        ensures
            attribute_views(r@) === machine_update_request_attributes_1(*self, attribute_views(attrs@)),
    {
        let mut attrs = attrs;
        attrs = push_text(attrs, "name", copy_text(&self.name));
        attrs = push_text(attrs, "platform", copy_text(&self.platform));
        attrs = push_text(attrs, "hostname", copy_text(&self.hostname));
        attrs = push_text(attrs, "ip", copy_text(&self.ip));
        attrs = push_i32(attrs, "cores", self.cores);
        attrs
    }

    /// The attributes of the request body that are set, in order.
    pub fn attributes(&self) -> (r: Vec<(String, AttributeValue)>)
        ensures
            attribute_views(r@) === update_machine_attributes(*self),
    {
        let mut attrs: Vec<(String, AttributeValue)> = Vec::new();
        assert(attribute_views(attrs@) =~= Seq::empty()) by {
            reveal(attribute_views);
        }
        attrs = self.push_attributes_1(attrs);
        attrs
    }
}

/// `start` followed by part 1 of the query parameters of a `MachineListFilters`.
pub open spec fn machine_list_filters_query_1(r: MachineListFilters, start: Seq<(Seq<char>, AttributeView)>) -> Seq<(Seq<char>, AttributeView)> {
    start
        + text_attr("license"@, opt_chars(r.license))
        + text_attr("user"@, opt_chars(r.user))
        + text_attr("platform"@, opt_chars(r.platform))
        + text_attr("name"@, opt_chars(r.name))
        + text_attr("fingerprint"@, opt_chars(r.fingerprint))
}

/// The query of a machine listing: the license, user, platform, name and fingerprint filters that are set.
pub open spec fn machine_list_query(r: MachineListFilters) -> Seq<(Seq<char>, AttributeView)> {
    machine_list_filters_query_1(r, Seq::empty())
}

impl MachineListFilters {
    fn push_query_1(&self, attrs: Vec<(String, AttributeValue)>) -> (r: Vec<(String, AttributeValue)>)
        ensures
            attribute_views(r@) === machine_list_filters_query_1(*self, attribute_views(attrs@)),
    {
        let mut attrs = attrs;
        attrs = push_text(attrs, "license", copy_text(&self.license));
        attrs = push_text(attrs, "user", copy_text(&self.user));
        attrs = push_text(attrs, "platform", copy_text(&self.platform));
        attrs = push_text(attrs, "name", copy_text(&self.name));
        attrs = push_text(attrs, "fingerprint", copy_text(&self.fingerprint));
        attrs
    }

    /// The query parameters that are set, in order.
    pub fn query(&self) -> (r: Vec<(String, AttributeValue)>)
        ensures
            attribute_views(r@) === machine_list_query(*self),
    {
        let mut attrs: Vec<(String, AttributeValue)> = Vec::new();
        assert(attribute_views(attrs@) =~= Seq::empty()) by {
            reveal(attribute_views);
        }
        attrs = self.push_query_1(attrs);
        attrs
    }
}

/// What the heartbeat monitor of a machine learns: it has just started,
/// or an interval has passed (and whether it was cancelled meanwhile).
#[derive(Debug, Clone, Copy, PartialEq, Eq, Structural)]
pub enum MonitorEvent {
    Started,
    IntervalElapsed { cancelled: bool },
}

/// What the heartbeat monitor does next: ping the machine and wait for the
/// next interval, or stop.
#[derive(Debug, Clone, Copy, PartialEq, Eq, Structural)]
pub enum MonitorAction {
    Ping,
    Stop,
}

/// The monitor pings right away when it starts, then once after every
/// interval, until an interval ends with a cancellation.
pub fn monitor_step(event: MonitorEvent) -> (r: MonitorAction)
    ensures
        r == MonitorAction::Stop <==> event == (MonitorEvent::IntervalElapsed { cancelled: true }),
{
    match event {
        MonitorEvent::Started => MonitorAction::Ping,
        MonitorEvent::IntervalElapsed { cancelled } => if cancelled {
            MonitorAction::Stop
        } else {
            MonitorAction::Ping
        },
    }
}

} // verus!
