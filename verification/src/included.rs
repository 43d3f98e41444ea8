//! The resources a license or machine file includes: which kind each one
//! is, and what a component or group is read as, with the defaults the API
//! documents. The caller reads the plain fields of each resource out of its
//! JSON; the decisions are made here.

use vstd::prelude::*;

use crate::attributes::opt_chars;
use crate::text::{chars_eq_str, chars_of, to_string};

verus! {

/// The plain fields of an included resource, as read from its JSON: its
/// type and id when they are strings, whether it has an `attributes`
/// member, and the attributes read here when they have the expected type.
#[derive(Debug, Clone, Default)]
pub struct IncludedItem {
    pub kind: Option<String>,
    pub id: Option<String>,
    pub has_attributes: bool,
    pub name: Option<String>,
    pub fingerprint: Option<String>,
    pub max_users: Option<i64>,
    pub max_licenses: Option<i64>,
    pub max_machines: Option<i64>,
}

/// What an included resource is read as.
#[derive(Debug, Clone, Copy, PartialEq, Eq, Structural)]
pub enum IncludedKind {
    Entitlement,
    Component,
    Group,
    Machine,
    /// Any other type, or none.
    Other,
}

/// The kind of a resource whose type is `kind`.
pub open spec fn included_kind_of(kind: Option<Seq<char>>) -> IncludedKind {
    match kind {
        Some(k) => if k == "entitlements"@ {
            IncludedKind::Entitlement
        } else if k == "components"@ {
            IncludedKind::Component
        } else if k == "groups"@ {
            IncludedKind::Group
        } else if k == "machines"@ {
            IncludedKind::Machine
        } else {
            IncludedKind::Other
        },
        None => IncludedKind::Other,
    }
}

/// The kind of an included resource, by its type.
pub fn included_kind(item: &IncludedItem) -> (r: IncludedKind)
    ensures
        r == included_kind_of(opt_chars(item.kind)),
{
    match &item.kind {
        Some(k) => {
            let c = chars_of(k.as_str());
            if chars_eq_str(c.as_slice(), "entitlements") {
                IncludedKind::Entitlement
            } else if chars_eq_str(c.as_slice(), "components") {
                IncludedKind::Component
            } else if chars_eq_str(c.as_slice(), "groups") {
                IncludedKind::Group
            } else if chars_eq_str(c.as_slice(), "machines") {
                IncludedKind::Machine
            } else {
                IncludedKind::Other
            }
        },
        None => IncludedKind::Other,
    }
}

/// A component read from an included resource.
#[derive(Debug, Clone, PartialEq, Eq)]
pub struct IncludedComponent {
    pub id: String,
    pub fingerprint: String,
    pub name: String,
}

/// A component is read only from a resource with an id and attributes that
/// hold both its fingerprint and its name.
pub fn included_component(item: &IncludedItem) -> (r: Option<IncludedComponent>)
    ensures
        r is Some <==> (item.id is Some && item.has_attributes && item.fingerprint is Some
            && item.name is Some),
        r matches Some(c) ==> (Some(c.id@) == opt_chars(item.id) && Some(c.fingerprint@) == opt_chars(
            item.fingerprint,
        ) && Some(c.name@) == opt_chars(item.name)),
{
    if !item.has_attributes {
        return None;
    }
    match (&item.id, &item.fingerprint, &item.name) {
        (Some(id), Some(fingerprint), Some(name)) => Some(
            IncludedComponent { id: id.clone(), fingerprint: fingerprint.clone(), name: name.clone() },
        ),
        _ => None,
    }
}

/// A group read from an included resource; its dates and metadata are
/// read by the caller.
#[derive(Debug, Clone, PartialEq, Eq)]
pub struct IncludedGroup {
    pub id: String,
    pub name: String,
    pub max_users: Option<i32>,
    pub max_licenses: Option<i32>,
    pub max_machines: Option<i32>,
}

/// A limit narrowed to 32 bits, keeping the low bits as a cast does.
pub open spec fn narrowed(v: Option<i64>) -> Option<i32> {
    match v {
        Some(i) => Some(i as i32),
        None => None,
    }
}

fn narrow(v: Option<i64>) -> (r: Option<i32>)
    ensures
        r == narrowed(v),
{
    match v {
        Some(i) => Some(#[verifier::truncate] (i as i32)),
        None => None,
    }
}

/// A group is read from any resource with an id and attributes; without a
/// name it is called "Unknown Group", and its limits are narrowed to 32
/// bits.
pub fn included_group(item: &IncludedItem) -> (r: Option<IncludedGroup>)
    ensures
        r is Some <==> (item.id is Some && item.has_attributes),
        r matches Some(g) ==> {
            &&& Some(g.id@) == opt_chars(item.id)
            &&& g.name@ == match item.name {
                Some(n) => n@,
                None => "Unknown Group"@,
            }
            &&& g.max_users == narrowed(item.max_users)
            &&& g.max_licenses == narrowed(item.max_licenses)
            &&& g.max_machines == narrowed(item.max_machines)
        },
{
    if !item.has_attributes {
        return None;
    }
    let id = match &item.id {
        Some(id) => id.clone(),
        None => return None,
    };
    let name = match &item.name {
        Some(n) => n.clone(),
        None => to_string("Unknown Group"),
    };
    Some(
        IncludedGroup {
            id,
            name,
            max_users: narrow(item.max_users),
            max_licenses: narrow(item.max_licenses),
            max_machines: narrow(item.max_machines),
        },
    )
}

} // verus!
