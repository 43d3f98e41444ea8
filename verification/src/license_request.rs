//! The bodies of the requests that create, change and authenticate
//! licenses: which attributes and relationships are sent, under which API
//! names, and how an update keeps, clears or sets a field.

use std::collections::HashMap;

use vstd::prelude::*;

use crate::attributes::{
    attribute_views, copy_text, copy_texts, flag_attr, i32_update, i64_update, int_attr, opt_chars,
    opt_i32, opt_i64, opt_texts, push_flag, push_i32, push_i64, push_relationship, push_text,
    push_texts, push_update, relationship_of, relationship_views, text_attr, text_update,
    texts_attr, update_attr, AttributeValue, AttributeView, Relationship,
};
use crate::certificate::{utc_rfc3339, utc_rfc3339_text, Timestamp};
use crate::license::UpdateField;
use crate::text::to_string;

verus! {

/// Attributes and relationships accepted when creating a license.
#[derive(Debug, Default)]
pub struct LicenseCreateRequest {
    /// The policy the license is issued under (required).
    pub policy_id: String,
    pub name: Option<String>,
    pub key: Option<String>,
    pub expiry: Option<Timestamp>,
    pub max_machines: Option<i32>,
    pub max_processes: Option<i32>,
    pub max_users: Option<i32>,
    pub max_cores: Option<i32>,
    pub max_uses: Option<i32>,
    pub max_memory: Option<i64>,
    pub max_disk: Option<i64>,
    pub protected: Option<bool>,
    pub suspended: Option<bool>,
    pub permissions: Option<Vec<String>>,
    pub metadata: Option<HashMap<String, serde_json::Value>>,
    /// The owning user, if any.
    pub owner_id: Option<String>,
    /// The group, if any.
    pub group_id: Option<String>,
}

/// Mutable license attributes.
#[derive(Debug, Default)]
pub struct LicenseUpdateRequest {
    pub name: UpdateField<String>,
    pub expiry: UpdateField<Timestamp>,
    pub max_machines: UpdateField<i32>,
    pub max_processes: UpdateField<i32>,
    pub max_users: UpdateField<i32>,
    pub max_cores: UpdateField<i32>,
    pub max_uses: UpdateField<i32>,
    pub max_memory: UpdateField<i64>,
    pub max_disk: UpdateField<i64>,
    pub protected: Option<bool>,
    pub suspended: Option<bool>,
    pub permissions: Option<Vec<String>>,
    pub metadata: Option<HashMap<String, serde_json::Value>>,
}

/// The attributes of a new license token.
#[derive(Debug, Clone, Default)]
pub struct LicenseTokenCreateRequest {
    pub name: Option<String>,
    pub expiry: Option<String>,
    pub permissions: Option<Vec<String>>,
    pub max_activations: Option<u32>,
    pub max_deactivations: Option<u32>,
}

/// The text an expiry is sent as, if it has one.
pub open spec fn expiry_text(t: Timestamp) -> Option<Seq<char>> {
    utc_rfc3339_text(t.secs as int, t.nanos as int)
}

/// Whether an optional expiry can be written as a date-time.
pub open spec fn expiry_writable(e: Option<Timestamp>) -> bool {
    match e {
        Some(t) => expiry_text(t) is Some,
        None => true,
    }
}

/// The text of an optional expiry that can be written.
pub open spec fn opt_expiry_text(e: Option<Timestamp>) -> Option<Seq<char>> {
    match e {
        Some(t) => expiry_text(t),
        None => None,
    }
}

/// `start` followed by the limits of a new license that are set.
pub open spec fn create_limit_attributes(r: LicenseCreateRequest, start: Seq<(Seq<char>, AttributeView)>) -> Seq<
    (Seq<char>, AttributeView),
> {
    start + int_attr("maxMachines"@, opt_i32(r.max_machines)) + int_attr(
        "maxProcesses"@,
        opt_i32(r.max_processes),
    ) + int_attr("maxUsers"@, opt_i32(r.max_users)) + int_attr("maxCores"@, opt_i32(r.max_cores))
        + int_attr("maxUses"@, opt_i32(r.max_uses)) + int_attr("maxMemory"@, opt_i64(r.max_memory))
        + int_attr("maxDisk"@, opt_i64(r.max_disk))
}

/// The attributes sent when a license is created: those that are set among
/// the name, key, expiry (as its RFC 3339 text), limits, protection,
/// suspension and permissions, in that order (the metadata aside).
pub open spec fn license_create_attributes(r: LicenseCreateRequest) -> Seq<(Seq<char>, AttributeView)> {
    create_limit_attributes(
        r,
        text_attr("name"@, opt_chars(r.name)) + text_attr("key"@, opt_chars(r.key)) + text_attr(
            "expiry"@,
            opt_expiry_text(r.expiry),
        ),
    ) + flag_attr("protected"@, r.protected) + flag_attr("suspended"@, r.suspended) + texts_attr(
        "permissions"@,
        opt_texts(r.permissions),
    )
}

/// The relationships sent when a license is created: its policy, then its
/// owner and group when they are given.
pub open spec fn license_create_relationships(r: LicenseCreateRequest) -> Seq<
    (Seq<char>, Seq<char>, Seq<char>),
> {
    seq![("policy"@, "policies"@, r.policy_id@)] + relationship_of(
        "owner"@,
        "users"@,
        opt_chars(r.owner_id),
    ) + relationship_of("group"@, "groups"@, opt_chars(r.group_id))
}

/// The update of a text field, viewed.
pub open spec fn text_update_view(u: UpdateField<String>) -> UpdateField<AttributeView> {
    u.map_view(|s: String| AttributeView::Text(s@))
}

/// The update of a 32-bit field, viewed.
pub open spec fn i32_update_view(u: UpdateField<i32>) -> UpdateField<AttributeView> {
    u.map_view(|i: i32| AttributeView::Integer(i as int))
}

/// The update of a 64-bit field, viewed.
pub open spec fn i64_update_view(u: UpdateField<i64>) -> UpdateField<AttributeView> {
    u.map_view(|i: i64| AttributeView::Integer(i as int))
}

/// Whether an expiry update can be written.
pub open spec fn expiry_update_writable(u: UpdateField<Timestamp>) -> bool {
    match u {
        UpdateField::SetTo(t) => expiry_text(t) is Some,
        _ => true,
    }
}

/// The update of an expiry, viewed as the text it is sent as.
pub open spec fn expiry_update_view(u: UpdateField<Timestamp>) -> UpdateField<AttributeView> {
    match u {
        UpdateField::Keep => UpdateField::Keep,
        UpdateField::Clear => UpdateField::Clear,
        UpdateField::SetTo(t) => UpdateField::SetTo(
            AttributeView::Text(
                match expiry_text(t) {
                    Some(s) => s,
                    None => Seq::empty(),
                },
            ),
        ),
    }
}

/// `start` followed by the limit updates of a license.
pub open spec fn update_limit_attributes(r: LicenseUpdateRequest, start: Seq<(Seq<char>, AttributeView)>) -> Seq<
    (Seq<char>, AttributeView),
> {
    start + update_attr("maxMachines"@, i32_update_view(r.max_machines)) + update_attr(
        "maxProcesses"@,
        i32_update_view(r.max_processes),
    ) + update_attr("maxUsers"@, i32_update_view(r.max_users)) + update_attr(
        "maxCores"@,
        i32_update_view(r.max_cores),
    ) + update_attr("maxUses"@, i32_update_view(r.max_uses)) + update_attr(
        "maxMemory"@,
        i64_update_view(r.max_memory),
    ) + update_attr("maxDisk"@, i64_update_view(r.max_disk))
}

/// The attributes sent when a license is changed: the name, expiry and
/// limits as their updates ask (nothing when kept, `null` when cleared),
/// then the protection, suspension and permissions that are set (the
/// metadata aside).
pub open spec fn license_update_attributes(r: LicenseUpdateRequest) -> Seq<(Seq<char>, AttributeView)> {
    update_limit_attributes(
        r,
        update_attr("name"@, text_update_view(r.name)) + update_attr(
            "expiry"@,
            expiry_update_view(r.expiry),
        ),
    ) + flag_attr("protected"@, r.protected) + flag_attr("suspended"@, r.suspended) + texts_attr(
        "permissions"@,
        opt_texts(r.permissions),
    )
}

/// The attributes of a license token request that are set.
pub open spec fn license_token_attributes(r: LicenseTokenCreateRequest) -> Seq<(Seq<char>, AttributeView)> {
    text_attr("name"@, opt_chars(r.name)) + text_attr("expiry"@, opt_chars(r.expiry)) + texts_attr(
        "permissions"@,
        opt_texts(r.permissions),
    ) + int_attr(
        "maxActivations"@,
        match r.max_activations {
            Some(n) => Some(n as int),
            None => None,
        },
    ) + int_attr(
        "maxDeactivations"@,
        match r.max_deactivations {
            Some(n) => Some(n as int),
            None => None,
        },
    )
}

/// The text of an optional expiry; `Err` when it cannot be written.
fn expiry_string(e: Option<Timestamp>) -> (r: Result<Option<String>, ()>)
    ensures
        r is Ok <==> expiry_writable(e),
        r matches Ok(v) ==> opt_chars(v) == opt_expiry_text(e),
{
    match e {
        None => Ok(None),
        Some(t) => match utc_rfc3339(t) {
            Some(s) => Ok(Some(s)),
            None => Err(()),
        },
    }
}

impl LicenseCreateRequest {
    /// A request for a license under the given policy, with nothing else set.
    pub fn new(policy_id: String) -> (r: Self)
        ensures
            r.policy_id == policy_id,
            r.name is None && r.key is None && r.expiry is None,
            r.max_machines is None && r.max_processes is None && r.max_users is None,
            r.max_cores is None && r.max_uses is None && r.max_memory is None && r.max_disk is None,
            r.protected is None && r.suspended is None && r.permissions is None,
            r.metadata is None && r.owner_id is None && r.group_id is None,
    {
        LicenseCreateRequest {
            policy_id,
            name: None,
            key: None,
            expiry: None,
            max_machines: None,
            max_processes: None,
            max_users: None,
            max_cores: None,
            max_uses: None,
            max_memory: None,
            max_disk: None,
            protected: None,
            suspended: None,
            permissions: None,
            metadata: None,
            owner_id: None,
            group_id: None,
        }
    }

    pub fn with_name(self, name: String) -> (r: Self)
        ensures
            r == (LicenseCreateRequest { name: Some(name), ..self }),
    {
        LicenseCreateRequest { name: Some(name), ..self }
    }

    pub fn with_key(self, key: String) -> (r: Self)
        ensures
            r == (LicenseCreateRequest { key: Some(key), ..self }),
    {
        LicenseCreateRequest { key: Some(key), ..self }
    }

    pub fn with_expiry(self, expiry: Timestamp) -> (r: Self)
        ensures
            r == (LicenseCreateRequest { expiry: Some(expiry), ..self }),
    {
        LicenseCreateRequest { expiry: Some(expiry), ..self }
    }

    pub fn with_max_machines(self, max_machines: i32) -> (r: Self)
        ensures
            r == (LicenseCreateRequest { max_machines: Some(max_machines), ..self }),
    {
        LicenseCreateRequest { max_machines: Some(max_machines), ..self }
    }

    pub fn with_max_processes(self, max_processes: i32) -> (r: Self)
        ensures
            r == (LicenseCreateRequest { max_processes: Some(max_processes), ..self }),
    {
        LicenseCreateRequest { max_processes: Some(max_processes), ..self }
    }

    pub fn with_max_users(self, max_users: i32) -> (r: Self)
        ensures
            r == (LicenseCreateRequest { max_users: Some(max_users), ..self }),
    {
        LicenseCreateRequest { max_users: Some(max_users), ..self }
    }

    pub fn with_max_cores(self, max_cores: i32) -> (r: Self)
        ensures
            r == (LicenseCreateRequest { max_cores: Some(max_cores), ..self }),
    {
        LicenseCreateRequest { max_cores: Some(max_cores), ..self }
    }

    pub fn with_max_uses(self, max_uses: i32) -> (r: Self)
        ensures
            r == (LicenseCreateRequest { max_uses: Some(max_uses), ..self }),
    {
        LicenseCreateRequest { max_uses: Some(max_uses), ..self }
    }

    pub fn with_max_memory(self, max_memory: i64) -> (r: Self)
        ensures
            r == (LicenseCreateRequest { max_memory: Some(max_memory), ..self }),
    {
        LicenseCreateRequest { max_memory: Some(max_memory), ..self }
    }

    pub fn with_max_disk(self, max_disk: i64) -> (r: Self)
        ensures
            r == (LicenseCreateRequest { max_disk: Some(max_disk), ..self }),
    {
        LicenseCreateRequest { max_disk: Some(max_disk), ..self }
    }

    pub fn with_protected(self, protected: bool) -> (r: Self)
        ensures
            r == (LicenseCreateRequest { protected: Some(protected), ..self }),
    {
        LicenseCreateRequest { protected: Some(protected), ..self }
    }

    pub fn with_suspended(self, suspended: bool) -> (r: Self)
        ensures
            r == (LicenseCreateRequest { suspended: Some(suspended), ..self }),
    {
        LicenseCreateRequest { suspended: Some(suspended), ..self }
    }

    pub fn with_permissions(self, permissions: Vec<String>) -> (r: Self)
        ensures
            r == (LicenseCreateRequest { permissions: Some(permissions), ..self }),
    {
        LicenseCreateRequest { permissions: Some(permissions), ..self }
    }

    pub fn with_metadata(self, metadata: HashMap<String, serde_json::Value>) -> (r: Self)
        ensures
            r == (LicenseCreateRequest { metadata: Some(metadata), ..self }),
    {
        LicenseCreateRequest { metadata: Some(metadata), ..self }
    }

    pub fn with_owner_id(self, owner_id: String) -> (r: Self)
        ensures
            r == (LicenseCreateRequest { owner_id: Some(owner_id), ..self }),
    {
        LicenseCreateRequest { owner_id: Some(owner_id), ..self }
    }

    pub fn with_group_id(self, group_id: String) -> (r: Self)
        ensures
            r == (LicenseCreateRequest { group_id: Some(group_id), ..self }),
    {
        LicenseCreateRequest { group_id: Some(group_id), ..self }
    }

    fn push_limits(&self, attrs: Vec<(String, AttributeValue)>) -> (r: Vec<(String, AttributeValue)>)
        ensures
            attribute_views(r@) === create_limit_attributes(*self, attribute_views(attrs@)),
    {
        let mut attrs = attrs;
        attrs = push_i32(attrs, "maxMachines", self.max_machines);
        attrs = push_i32(attrs, "maxProcesses", self.max_processes);
        attrs = push_i32(attrs, "maxUsers", self.max_users);
        attrs = push_i32(attrs, "maxCores", self.max_cores);
        attrs = push_i32(attrs, "maxUses", self.max_uses);
        attrs = push_i64(attrs, "maxMemory", self.max_memory);
        attrs = push_i64(attrs, "maxDisk", self.max_disk);
        attrs
    }

    /// The attributes of the request body, in the order they are set;
    /// `None` when the expiry is a point in time that has no date-time.
    pub fn attributes(&self) -> (r: Option<Vec<(String, AttributeValue)>>)
        ensures
            r is Some <==> expiry_writable(self.expiry),
            r matches Some(v) ==> attribute_views(v@) === license_create_attributes(*self),
    {
        let expiry = match expiry_string(self.expiry) {
            Ok(e) => e,
            Err(()) => return None,
        };
        let mut attrs: Vec<(String, AttributeValue)> = Vec::new();
        assert(attribute_views(attrs@) =~= Seq::empty()) by {
            reveal(attribute_views);
        }
        attrs = push_text(attrs, "name", copy_text(&self.name));
        attrs = push_text(attrs, "key", copy_text(&self.key));
        attrs = push_text(attrs, "expiry", expiry);
        attrs = self.push_limits(attrs);
        attrs = push_flag(attrs, "protected", self.protected);
        attrs = push_flag(attrs, "suspended", self.suspended);
        attrs = push_texts(attrs, "permissions", copy_texts(&self.permissions));
        Some(attrs)
    }

    /// The relationships of the request body: the policy, then the owner
    /// and group when they are given.
    pub fn relationships(&self) -> (r: Vec<Relationship>)
        ensures
            relationship_views(r@) == license_create_relationships(*self),
    {
        let mut rels: Vec<Relationship> = Vec::new();
        rels.push(
            Relationship {
                name: to_string("policy"),
                kind: to_string("policies"),
                id: self.policy_id.clone(),
            },
        );
        assert(relationship_views(rels@) =~= seq![("policy"@, "policies"@, self.policy_id@)]);
        rels = push_relationship(rels, "owner", "users", copy_text(&self.owner_id));
        rels = push_relationship(rels, "group", "groups", copy_text(&self.group_id));
        rels
    }
}

/// The update of an expiry, as an attribute update; `Err` when the new
/// expiry cannot be written.
fn expiry_update(u: &UpdateField<Timestamp>) -> (r: Result<UpdateField<AttributeValue>, ()>)
    ensures
        r is Ok <==> expiry_update_writable(*u),
        r matches Ok(v) ==> v.view_update() == expiry_update_view(*u),
{
    match u {
        UpdateField::Keep => Ok(UpdateField::Keep),
        UpdateField::Clear => Ok(UpdateField::Clear),
        UpdateField::SetTo(t) => match utc_rfc3339(*t) {
            Some(s) => Ok(UpdateField::SetTo(AttributeValue::Text(s))),
            None => Err(()),
        },
    }
}

impl LicenseUpdateRequest {
    /// A request that changes nothing.
    pub fn new() -> (r: Self)
        ensures
            r.name is Keep && r.expiry is Keep,
            r.max_machines is Keep && r.max_processes is Keep && r.max_users is Keep,
            r.max_cores is Keep && r.max_uses is Keep && r.max_memory is Keep && r.max_disk is Keep,
            r.protected is None && r.suspended is None && r.permissions is None && r.metadata is None,
    {
        LicenseUpdateRequest {
            name: UpdateField::Keep,
            expiry: UpdateField::Keep,
            max_machines: UpdateField::Keep,
            max_processes: UpdateField::Keep,
            max_users: UpdateField::Keep,
            max_cores: UpdateField::Keep,
            max_uses: UpdateField::Keep,
            max_memory: UpdateField::Keep,
            max_disk: UpdateField::Keep,
            protected: None,
            suspended: None,
            permissions: None,
            metadata: None,
        }
    }

    pub fn with_name(self, name: String) -> (r: Self)
        ensures
            r == (LicenseUpdateRequest { name: UpdateField::SetTo(name), ..self }),
    {
        LicenseUpdateRequest { name: UpdateField::SetTo(name), ..self }
    }

    pub fn clear_name(self) -> (r: Self)
        ensures
            r == (LicenseUpdateRequest { name: UpdateField::Clear, ..self }),
    {
        LicenseUpdateRequest { name: UpdateField::Clear, ..self }
    }

    pub fn with_expiry(self, expiry: Timestamp) -> (r: Self)
        ensures
            r == (LicenseUpdateRequest { expiry: UpdateField::SetTo(expiry), ..self }),
    {
        LicenseUpdateRequest { expiry: UpdateField::SetTo(expiry), ..self }
    }

    pub fn clear_expiry(self) -> (r: Self)
        ensures
            r == (LicenseUpdateRequest { expiry: UpdateField::Clear, ..self }),
    {
        LicenseUpdateRequest { expiry: UpdateField::Clear, ..self }
    }

    pub fn with_max_machines(self, max_machines: i32) -> (r: Self)
        ensures
            r == (LicenseUpdateRequest { max_machines: UpdateField::SetTo(max_machines), ..self }),
    {
        LicenseUpdateRequest { max_machines: UpdateField::SetTo(max_machines), ..self }
    }

    pub fn clear_max_machines(self) -> (r: Self)
        ensures
            r == (LicenseUpdateRequest { max_machines: UpdateField::Clear, ..self }),
    {
        LicenseUpdateRequest { max_machines: UpdateField::Clear, ..self }
    }

    pub fn with_max_processes(self, max_processes: i32) -> (r: Self)
        ensures
            r == (LicenseUpdateRequest { max_processes: UpdateField::SetTo(max_processes), ..self }),
    {
        LicenseUpdateRequest { max_processes: UpdateField::SetTo(max_processes), ..self }
    }

    pub fn clear_max_processes(self) -> (r: Self)
        ensures
            r == (LicenseUpdateRequest { max_processes: UpdateField::Clear, ..self }),
    {
        LicenseUpdateRequest { max_processes: UpdateField::Clear, ..self }
    }

    pub fn with_max_users(self, max_users: i32) -> (r: Self)
        ensures
            r == (LicenseUpdateRequest { max_users: UpdateField::SetTo(max_users), ..self }),
    {
        LicenseUpdateRequest { max_users: UpdateField::SetTo(max_users), ..self }
    }

    pub fn clear_max_users(self) -> (r: Self)
        ensures
            r == (LicenseUpdateRequest { max_users: UpdateField::Clear, ..self }),
    {
        LicenseUpdateRequest { max_users: UpdateField::Clear, ..self }
    }

    pub fn with_max_cores(self, max_cores: i32) -> (r: Self)
        ensures
            r == (LicenseUpdateRequest { max_cores: UpdateField::SetTo(max_cores), ..self }),
    {
        LicenseUpdateRequest { max_cores: UpdateField::SetTo(max_cores), ..self }
    }

    pub fn clear_max_cores(self) -> (r: Self)
        ensures
            r == (LicenseUpdateRequest { max_cores: UpdateField::Clear, ..self }),
    {
        LicenseUpdateRequest { max_cores: UpdateField::Clear, ..self }
    }

    pub fn with_max_uses(self, max_uses: i32) -> (r: Self)
        ensures
            r == (LicenseUpdateRequest { max_uses: UpdateField::SetTo(max_uses), ..self }),
    {
        LicenseUpdateRequest { max_uses: UpdateField::SetTo(max_uses), ..self }
    }

    pub fn clear_max_uses(self) -> (r: Self)
        ensures
            r == (LicenseUpdateRequest { max_uses: UpdateField::Clear, ..self }),
    {
        LicenseUpdateRequest { max_uses: UpdateField::Clear, ..self }
    }

    pub fn with_max_memory(self, max_memory: i64) -> (r: Self)
        ensures
            r == (LicenseUpdateRequest { max_memory: UpdateField::SetTo(max_memory), ..self }),
    {
        LicenseUpdateRequest { max_memory: UpdateField::SetTo(max_memory), ..self }
    }

    pub fn clear_max_memory(self) -> (r: Self)
        ensures
            r == (LicenseUpdateRequest { max_memory: UpdateField::Clear, ..self }),
    {
        LicenseUpdateRequest { max_memory: UpdateField::Clear, ..self }
    }

    pub fn with_max_disk(self, max_disk: i64) -> (r: Self)
        ensures
            r == (LicenseUpdateRequest { max_disk: UpdateField::SetTo(max_disk), ..self }),
    {
        LicenseUpdateRequest { max_disk: UpdateField::SetTo(max_disk), ..self }
    }

    pub fn clear_max_disk(self) -> (r: Self)
        ensures
            r == (LicenseUpdateRequest { max_disk: UpdateField::Clear, ..self }),
    {
        LicenseUpdateRequest { max_disk: UpdateField::Clear, ..self }
    }

    pub fn with_protected(self, protected: bool) -> (r: Self)
        ensures
            r == (LicenseUpdateRequest { protected: Some(protected), ..self }),
    {
        LicenseUpdateRequest { protected: Some(protected), ..self }
    }

    pub fn with_suspended(self, suspended: bool) -> (r: Self)
        ensures
            r == (LicenseUpdateRequest { suspended: Some(suspended), ..self }),
    {
        LicenseUpdateRequest { suspended: Some(suspended), ..self }
    }

    pub fn with_permissions(self, permissions: Vec<String>) -> (r: Self)
        ensures
            r == (LicenseUpdateRequest { permissions: Some(permissions), ..self }),
    {
        LicenseUpdateRequest { permissions: Some(permissions), ..self }
    }

    pub fn with_metadata(self, metadata: HashMap<String, serde_json::Value>) -> (r: Self)
        ensures
            r == (LicenseUpdateRequest { metadata: Some(metadata), ..self }),
    {
        LicenseUpdateRequest { metadata: Some(metadata), ..self }
    }

    fn push_limits(&self, attrs: Vec<(String, AttributeValue)>) -> (r: Vec<(String, AttributeValue)>)
        ensures
            attribute_views(r@) === update_limit_attributes(*self, attribute_views(attrs@)),
    {
        let mut attrs = attrs;
        attrs = push_update(attrs, "maxMachines", i32_update(&self.max_machines));
        attrs = push_update(attrs, "maxProcesses", i32_update(&self.max_processes));
        attrs = push_update(attrs, "maxUsers", i32_update(&self.max_users));
        attrs = push_update(attrs, "maxCores", i32_update(&self.max_cores));
        attrs = push_update(attrs, "maxUses", i32_update(&self.max_uses));
        attrs = push_update(attrs, "maxMemory", i64_update(&self.max_memory));
        attrs = push_update(attrs, "maxDisk", i64_update(&self.max_disk));
        attrs
    }

    /// The attributes of the request body, in the order they are set;
    /// `None` when the new expiry is a point in time that has no date-time.
    pub fn attributes(&self) -> (r: Option<Vec<(String, AttributeValue)>>)
        ensures
            r is Some <==> expiry_update_writable(self.expiry),
            r matches Some(v) ==> attribute_views(v@) === license_update_attributes(*self),
    {
        let expiry = match expiry_update(&self.expiry) {
            Ok(e) => e,
            Err(()) => return None,
        };
        let mut attrs: Vec<(String, AttributeValue)> = Vec::new();
        assert(attribute_views(attrs@) =~= Seq::empty()) by {
            reveal(attribute_views);
        }
        attrs = push_update(attrs, "name", text_update(&self.name));
        attrs = push_update(attrs, "expiry", expiry);
        attrs = self.push_limits(attrs);
        attrs = push_flag(attrs, "protected", self.protected);
        attrs = push_flag(attrs, "suspended", self.suspended);
        attrs = push_texts(attrs, "permissions", copy_texts(&self.permissions));
        Some(attrs)
    }
}

impl LicenseTokenCreateRequest {
    /// The attributes of the request body that are set, in order.
    pub fn attributes(&self) -> (r: Vec<(String, AttributeValue)>)
        ensures
            attribute_views(r@) === license_token_attributes(*self),
    {
        let mut attrs: Vec<(String, AttributeValue)> = Vec::new();
        assert(attribute_views(attrs@) =~= Seq::empty()) by {
            reveal(attribute_views);
        }
        attrs = push_text(attrs, "name", copy_text(&self.name));
        attrs = push_text(attrs, "expiry", copy_text(&self.expiry));
        attrs = push_texts(attrs, "permissions", copy_texts(&self.permissions));
        let act = match self.max_activations {
            Some(n) => Some(n as i64),
            None => None,
        };
        attrs = push_i64(attrs, "maxActivations", act);
        let deact = match self.max_deactivations {
            Some(n) => Some(n as i64),
            None => None,
        };
        attrs = push_i64(attrs, "maxDeactivations", deact);
        attrs
    }
}

/// A license is always created under its policy: the policy is the first
/// relationship of every creation request.
pub proof fn law_license_created_under_its_policy(r: LicenseCreateRequest)
    ensures
        license_create_relationships(r).len() >= 1,
        license_create_relationships(r)[0] == ("policy"@, "policies"@, r.policy_id@),
{
}

/// An update that keeps every field and sets no flag, permission list or
/// metadata sends no attribute at all.
pub proof fn law_update_keeping_everything_sends_nothing(r: LicenseUpdateRequest)
    requires
        r.name is Keep && r.expiry is Keep,
        r.max_machines is Keep && r.max_processes is Keep && r.max_users is Keep,
        r.max_cores is Keep && r.max_uses is Keep && r.max_memory is Keep && r.max_disk is Keep,
        r.protected is None && r.suspended is None && r.permissions is None,
    ensures
        license_update_attributes(r) =~= Seq::empty(),
{
}

/// Clearing a limit sends it as `null`, and setting it sends its value: the
/// attribute list of an update holds the limit exactly as the update asks.
pub proof fn law_cleared_limit_is_sent_as_null(r: LicenseUpdateRequest)
    requires
        r.max_machines is Clear,
        r.name is Keep && r.expiry is Keep,
    ensures
        license_update_attributes(r)[0] == ("maxMachines"@, AttributeView::Null),
{
}

} // verus!
