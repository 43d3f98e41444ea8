//! The bearer and token used to authenticate a client, as the `/me`
//! endpoint reports them.

use vstd::prelude::*;

use crate::errors::Error;
use crate::text::{chars_eq_str, chars_of, to_string};

verus! {

/// The JSON:API identity of a resource: its id and its type.
#[derive(Debug, Clone, PartialEq, Eq)]
pub struct ResourceIdentifier {
    pub id: String,
    pub resource_type: String,
}

/// The attributes of a token resource.
#[derive(Debug, Clone, PartialEq, Eq)]
pub struct TokenAttributes {
    pub kind: String,
    pub expiry: Option<String>,
    pub permissions: Option<Vec<String>>,
}

/// A resource included in a `/me` document: its identity, the bearer its
/// `bearer` relationship points to (if any), and its attributes read as
/// token attributes (or why they could not be).
#[derive(Debug)]
pub struct ProfileResource {
    pub id: String,
    pub resource_type: String,
    pub bearer: Option<ResourceIdentifier>,
    pub attributes: Result<TokenAttributes, String>,
}

/// A `/me` document: the bearer, and the resources included with it.
#[derive(Debug)]
pub struct ProfileDocument {
    pub data: ResourceIdentifier,
    pub included: Vec<ProfileResource>,
}

/// The stable identity and token projection returned by Keygen's `/me`
/// endpoint.
#[derive(Debug, Clone, PartialEq, Eq)]
pub struct CurrentProfile {
    bearer: ProfileBearer,
    token: CurrentToken,
}

/// The JSON:API identity of the resource that owns the current token.
#[derive(Debug, Clone, PartialEq, Eq)]
pub struct ProfileBearer {
    id: String,
    resource_type: String,
}

/// The current token fields needed for expiry and permission preflight
/// checks.
#[derive(Debug, Clone, PartialEq, Eq)]
pub struct CurrentToken {
    id: String,
    kind: String,
    expiry: Option<String>,
    permissions: Option<Vec<String>>,
}

/// How a token constrains a permission.
#[derive(Debug, Clone, Copy, PartialEq, Eq, Structural)]
#[non_exhaustive]
pub enum TokenPermissionConstraint {
    /// The token names the requested permission directly.
    Explicit,
    /// The token uses `*`, or the server does not expose token permissions,
    /// so the bearer's permission decision applies.
    Inherited,
    /// The token has an explicit set that omits the requested permission.
    Excluded,
}

/// The views of a list of strings.
pub open spec fn string_views(v: Seq<String>) -> Seq<Seq<char>> {
    v.map_values(|s: String| s@)
}

/// The view of an optional string.
pub open spec fn opt_view(o: Option<String>) -> Option<Seq<char>> {
    match o {
        Some(s) => Some(s@),
        None => None,
    }
}

/// The view of an optional list of strings.
pub open spec fn opt_list_view(o: Option<Vec<String>>) -> Option<Seq<Seq<char>>> {
    match o {
        Some(v) => Some(string_views(v@)),
        None => None,
    }
}

/// How a token whose permissions are `permissions` (`None` when the server
/// does not expose them) constrains `permission`.
pub open spec fn constraint_of(permissions: Option<Seq<Seq<char>>>, permission: Seq<char>) -> TokenPermissionConstraint {
    match permissions {
        None => TokenPermissionConstraint::Inherited,
        Some(ps) => if ps.contains(permission) {
            TokenPermissionConstraint::Explicit
        } else if ps.contains("*"@) {
            TokenPermissionConstraint::Inherited
        } else {
            TokenPermissionConstraint::Excluded
        },
    }
}

/// Whether `res` is a token whose bearer is `bearer`.
pub open spec fn bearer_token(res: ProfileResource, bearer: ResourceIdentifier) -> bool {
    &&& res.resource_type@ == "tokens"@
    &&& res.bearer matches Some(b) && b.id@ == bearer.id@ && b.resource_type@ == bearer.resource_type@
}

/// `p` is the profile of `bearer` with the token resource `res`, whose
/// attributes are `a`.
pub open spec fn profile_of(
    p: CurrentProfile,
    bearer: ResourceIdentifier,
    res: ProfileResource,
    a: TokenAttributes,
) -> bool {
    &&& p.bearer_view().id_view() == bearer.id@
    &&& p.bearer_view().resource_type_view() == bearer.resource_type@
    &&& p.token_view().id_view() == res.id@
    &&& p.token_view().kind_view() == a.kind@
    &&& p.token_view().expiry_view() == opt_view(a.expiry)
    &&& p.token_view().permissions_view() == opt_list_view(a.permissions)
}

impl ProfileBearer {
    /// The bearer's id.
    pub closed spec fn id_view(&self) -> Seq<char> {
        self.id@
    }

    /// The bearer's resource type.
    pub closed spec fn resource_type_view(&self) -> Seq<char> {
        self.resource_type@
    }

    pub fn id(&self) -> (r: &str)
        ensures
            r@ == self.id_view(),
    {
        self.id.as_str()
    }

    pub fn resource_type(&self) -> (r: &str)
        ensures
            r@ == self.resource_type_view(),
    {
        self.resource_type.as_str()
    }
}

impl CurrentToken {
    /// The token's id.
    pub closed spec fn id_view(&self) -> Seq<char> {
        self.id@
    }

    /// The token's kind.
    pub closed spec fn kind_view(&self) -> Seq<char> {
        self.kind@
    }

    /// The token's expiry, if it has one.
    pub closed spec fn expiry_view(&self) -> Option<Seq<char>> {
        opt_view(self.expiry)
    }

    /// The token's permissions, when the server exposes them.
    pub closed spec fn permissions_view(&self) -> Option<Seq<Seq<char>>> {
        opt_list_view(self.permissions)
    }

    pub fn id(&self) -> (r: &str)
        ensures
            r@ == self.id_view(),
    {
        self.id.as_str()
    }

    pub fn kind(&self) -> (r: &str)
        ensures
            r@ == self.kind_view(),
    {
        self.kind.as_str()
    }

    pub fn expiry(&self) -> (r: Option<&str>)
        ensures
            match self.expiry_view() {
                Some(e) => r matches Some(s) && s@ == e,
                None => r is None,
            },
    {
        match &self.expiry {
            Some(e) => Some(e.as_str()),
            None => None,
        }
    }

    /// Returns `None` when the server does not expose token permissions, as
    /// Keygen CE omits them. An empty set is returned as `Some(&[])`.
    pub fn permissions(&self) -> (r: Option<&[String]>)
        ensures
            match self.permissions_view() {
                Some(ps) => r matches Some(s) && string_views(s@) == ps,
                None => r is None,
            },
    {
        match &self.permissions {
            Some(v) => Some(v.as_slice()),
            None => None,
        }
    }

    /// Describes how this token constrains a permission, not whether a
    /// request will ultimately be authorized for a specific resource.
    pub fn permission_constraint(&self, permission: &str) -> (r: TokenPermissionConstraint)
        ensures
            r == constraint_of(self.permissions_view(), permission@),
    {
        let permissions = match &self.permissions {
            None => return TokenPermissionConstraint::Inherited,
            Some(p) => p,
        };
        let ghost ps = string_views(permissions@);
        let mut wildcard = false;
        let mut i: usize = 0;
        while i < permissions.len()
            invariant
                i <= permissions@.len(),
                ps == string_views(permissions@),
                self.permissions_view() == Some(ps),
                forall|k: int| 0 <= k < i ==> ps[k] != permission@,
                wildcard <==> exists|k: int| 0 <= k < i && ps[k] == "*"@,
            decreases permissions@.len() - i,
        {
            let candidate = chars_of(permissions[i].as_str());
            assert(ps[i as int] == candidate@);
            if chars_eq_str(candidate.as_slice(), permission) {
                assert(ps[i as int] == permission@);
                assert(ps.contains(permission@));
                return TokenPermissionConstraint::Explicit;
            }
            if chars_eq_str(candidate.as_slice(), "*") {
                wildcard = true;
            }
            assert(wildcard <==> exists|k: int| 0 <= k < i + 1 && ps[k] == "*"@) by {
                if wildcard && !(exists|k: int| 0 <= k < i && ps[k] == "*"@) {
                    assert(ps[i as int] == "*"@);
                }
            }
            i = i + 1;
        }
        assert(!ps.contains(permission@));
        if wildcard {
            TokenPermissionConstraint::Inherited
        } else {
            TokenPermissionConstraint::Excluded
        }
    }
}

impl CurrentProfile {
    /// The bearer of the current token.
    pub closed spec fn bearer_view(&self) -> ProfileBearer {
        self.bearer
    }

    /// The current token.
    pub closed spec fn token_view(&self) -> CurrentToken {
        self.token
    }

    pub fn bearer(&self) -> (r: &ProfileBearer)
        ensures
            *r == self.bearer_view(),
    {
        &self.bearer
    }

    pub fn token(&self) -> (r: &CurrentToken)
        ensures
            *r == self.token_view(),
    {
        &self.token
    }

    /// The profile a `/me` document describes: exactly one included token
    /// must name the document's resource as its bearer, and its attributes
    /// give the token's fields.
    pub fn from_document(document: ProfileDocument) -> (r: Result<CurrentProfile, Error>)
        ensures
            (forall|k: int|
                0 <= k < document.included@.len() ==> !bearer_token(
                    #[trigger] document.included@[k],
                    document.data,
                )) ==> (r matches Err(Error::InvalidResponse(m)) && m@
                == "the /me response did not include a token for the current bearer"@),
            (exists|i: int, j: int|
                0 <= i < j < document.included@.len() && bearer_token(
                    #[trigger] document.included@[i],
                    document.data,
                ) && bearer_token(#[trigger] document.included@[j], document.data)) ==> (r matches Err(
                Error::InvalidResponse(m),
            ) && m@ == "the /me response included multiple tokens for the current bearer"@),
            forall|i: int|
                0 <= i < document.included@.len() && bearer_token(
                    #[trigger] document.included@[i],
                    document.data,
                ) && (forall|k: int|
                    0 <= k < document.included@.len() && k != i ==> !bearer_token(
                        #[trigger] document.included@[k],
                        document.data,
                    )) ==> match document.included@[i].attributes {
                    Err(m) => r matches Err(Error::JsonError(e)) && e@ == m@,
                    Ok(a) => r matches Ok(p) && profile_of(
                        p,
                        document.data,
                        document.included@[i],
                        a,
                    ),
                },
    {
        let ghost inc = document.included@;
        let ghost b = document.data;
        let mut found: Option<usize> = None;
        let mut i: usize = 0;
        while i < document.included.len()
            invariant
                i <= inc.len(),
                inc == document.included@,
                b == document.data,
                match found {
                    None => forall|k: int| 0 <= k < i ==> !bearer_token(#[trigger] inc[k], b),
                    Some(f) => f < i && bearer_token(inc[f as int], b) && forall|k: int|
                        0 <= k < i && k != f ==> !bearer_token(#[trigger] inc[k], b),
                },
            decreases inc.len() - i,
        {
            let res = &document.included[i];
            let is_token = chars_eq_str(chars_of(res.resource_type.as_str()).as_slice(), "tokens")
                && match &res.bearer {
                Some(rb) => chars_eq_str(
                    chars_of(rb.id.as_str()).as_slice(),
                    document.data.id.as_str(),
                ) && chars_eq_str(
                    chars_of(rb.resource_type.as_str()).as_slice(),
                    document.data.resource_type.as_str(),
                ),
                None => false,
            };
            proof {
                reveal_strlit("tokens");
            }
            assert(is_token == bearer_token(inc[i as int], b));
            if is_token {
                match found {
                    Some(f) => {
                        assert(bearer_token(inc[f as int], b) && bearer_token(inc[i as int], b));
                        return Err(
                            Error::InvalidResponse(
                                to_string(
                                    "the /me response included multiple tokens for the current bearer",
                                ),
                            ),
                        );
                    },
                    None => {
                        found = Some(i);
                    },
                }
            }
            i = i + 1;
        }
        let index = match found {
            None => {
                return Err(
                    Error::InvalidResponse(
                        to_string("the /me response did not include a token for the current bearer"),
                    ),
                );
            },
            Some(f) => f,
        };
        assert forall|x: int, y: int|
            0 <= x < y < inc.len() && bearer_token(#[trigger] inc[x], b) implies !bearer_token(
            #[trigger] inc[y],
            b,
        ) by {
            if x != index as int {
                assert(!bearer_token(inc[x], b));
            }
        }
        let ProfileDocument { data, included } = document;
        let mut included = included;
        let res = included.remove(index);
        match res.attributes {
            Err(m) => Err(Error::JsonError(m)),
            Ok(a) => Ok(
                CurrentProfile {
                    bearer: ProfileBearer { id: data.id, resource_type: data.resource_type },
                    token: CurrentToken {
                        id: res.id,
                        kind: a.kind,
                        expiry: a.expiry,
                        permissions: a.permissions,
                    },
                },
            ),
        }
    }
}

/// A token that does not expose its permissions leaves every permission to
/// the bearer.
pub proof fn law_unexposed_permissions_are_inherited(permission: Seq<char>)
    ensures
        constraint_of(None, permission) == TokenPermissionConstraint::Inherited,
{
}

/// An empty permission set excludes every permission: it is not treated
/// like a missing one.
pub proof fn law_empty_permission_set_excludes(permission: Seq<char>)
    ensures
        constraint_of(Some(Seq::empty()), permission) == TokenPermissionConstraint::Excluded,
{
}

/// A token with the `*` permission never excludes a permission.
pub proof fn law_wildcard_never_excludes(permissions: Seq<Seq<char>>, permission: Seq<char>)
    requires
        permissions.contains("*"@),
    ensures
        constraint_of(Some(permissions), permission) != TokenPermissionConstraint::Excluded,
{
}

/// A permission the token names is explicit, whatever else the set holds.
pub proof fn law_named_permission_is_explicit(permissions: Seq<Seq<char>>, permission: Seq<char>)
    requires
        permissions.contains(permission),
    ensures
        constraint_of(Some(permissions), permission) == TokenPermissionConstraint::Explicit,
{
}

} // verus!
