//! Users: their statuses and roles, and the bodies and query that create,
//! change and list them.

use std::collections::HashMap;

use vstd::prelude::*;

use crate::attributes::{
    attribute_views, copy_text, copy_texts, flag_attr, int_attr, opt_chars, opt_u32, opt_texts, push_flag, push_u32, push_text, push_texts, text_attr, text_views, texts_attr, AttributeValue, AttributeView,
};
use crate::text::{chars_eq_str, chars_of, to_string};

verus! {

/// The state of a user.
#[derive(Debug, Clone, Copy, PartialEq, Eq, Structural)]
pub enum UserStatus {
    Active,
    Inactive,
    Banned,
}

impl UserStatus {
    /// The code the API uses for the value.
    pub open spec fn code(self) -> Seq<char> {
        match self {
            UserStatus::Active => "ACTIVE"@,
            UserStatus::Inactive => "INACTIVE"@,
            UserStatus::Banned => "BANNED"@,
        }
    }

    /// The code the API uses for the value.
    pub fn as_str(self) -> (r: &'static str)
        ensures
            r@ == self.code(),
    {
        match self {
            UserStatus::Active => "ACTIVE",
            UserStatus::Inactive => "INACTIVE",
            UserStatus::Banned => "BANNED",
        }
    }

    /// The value whose code is exactly `c`.
    pub open spec fn with_code(c: Seq<char>) -> Option<Self> {
        if c == "ACTIVE"@ {
            Some(UserStatus::Active)
        } else if c == "INACTIVE"@ {
            Some(UserStatus::Inactive)
        } else if c == "BANNED"@ {
            Some(UserStatus::Banned)
        } else {
            None
        }
    }

    /// The value whose code is `code`, if any.
    pub fn from_code(code: &str) -> (r: Option<Self>)
        ensures
            r == Self::with_code(code@),
    {
        let v = chars_of(code);
        let c = v.as_slice();
        if chars_eq_str(c, "ACTIVE") {
            Some(UserStatus::Active)
        } else if chars_eq_str(c, "INACTIVE") {
            Some(UserStatus::Inactive)
        } else if chars_eq_str(c, "BANNED") {
            Some(UserStatus::Banned)
        } else {
            None
        }
    }
}

/// Reading the code of an UserStatus gives the value back.
pub proof fn law_user_status_code_round_trip(x: UserStatus)
    ensures
        UserStatus::with_code(x.code()) == Some(x),
{
    reveal_strlit("ACTIVE");
    reveal_strlit("INACTIVE");
    reveal_strlit("BANNED");
    match x {
        UserStatus::Active => {
        },
        UserStatus::Inactive => {
            assert("INACTIVE"@.len() != "ACTIVE"@.len());
        },
        UserStatus::Banned => {
            assert("BANNED"@[0] != "ACTIVE"@[0]);
            assert("BANNED"@.len() != "INACTIVE"@.len());
        },
    }
}

/// The code of an optional UserStatus.
pub fn user_status_text(e: Option<UserStatus>) -> (r: Option<String>)
    ensures
        opt_chars(r) == match e {
            Some(x) => Some(x.code()),
            None => None,
        },
{
    match e {
        Some(x) => Some(to_string(x.as_str())),
        None => None,
    }
}

/// The role of a user.
#[derive(Debug, Clone, Copy, PartialEq, Eq, Structural)]
pub enum UserRole {
    Admin,
    Developer,
    Environment,
    Product,
    License,
    SalesAgent,
    SupportAgent,
    ReadOnly,
    User,
}

impl UserRole {
    /// The code the API uses for the value.
    pub open spec fn code(self) -> Seq<char> {
        match self {
            UserRole::Admin => "admin"@,
            UserRole::Developer => "developer"@,
            UserRole::Environment => "environment"@,
            UserRole::Product => "product"@,
            UserRole::License => "license"@,
            UserRole::SalesAgent => "sales-agent"@,
            UserRole::SupportAgent => "support-agent"@,
            UserRole::ReadOnly => "read-only"@,
            UserRole::User => "user"@,
        }
    }

    /// The code the API uses for the value.
    pub fn as_str(self) -> (r: &'static str)
        ensures
            r@ == self.code(),
    {
        match self {
            UserRole::Admin => "admin",
            UserRole::Developer => "developer",
            UserRole::Environment => "environment",
            UserRole::Product => "product",
            UserRole::License => "license",
            UserRole::SalesAgent => "sales-agent",
            UserRole::SupportAgent => "support-agent",
            UserRole::ReadOnly => "read-only",
            UserRole::User => "user",
        }
    }

    /// The value whose code is exactly `c`.
    pub open spec fn with_code(c: Seq<char>) -> Option<Self> {
        if c == "admin"@ {
            Some(UserRole::Admin)
        } else if c == "developer"@ {
            Some(UserRole::Developer)
        } else if c == "environment"@ {
            Some(UserRole::Environment)
        } else if c == "product"@ {
            Some(UserRole::Product)
        } else if c == "license"@ {
            Some(UserRole::License)
        } else if c == "sales-agent"@ {
            Some(UserRole::SalesAgent)
        } else if c == "support-agent"@ {
            Some(UserRole::SupportAgent)
        } else if c == "read-only"@ {
            Some(UserRole::ReadOnly)
        } else if c == "user"@ {
            Some(UserRole::User)
        } else {
            None
        }
    }

    /// The value whose code is `code`, if any.
    pub fn from_code(code: &str) -> (r: Option<Self>)
        ensures
            r == Self::with_code(code@),
    {
        let v = chars_of(code);
        let c = v.as_slice();
        if chars_eq_str(c, "admin") {
            Some(UserRole::Admin)
        } else if chars_eq_str(c, "developer") {
            Some(UserRole::Developer)
        } else if chars_eq_str(c, "environment") {
            Some(UserRole::Environment)
        } else if chars_eq_str(c, "product") {
            Some(UserRole::Product)
        } else if chars_eq_str(c, "license") {
            Some(UserRole::License)
        } else if chars_eq_str(c, "sales-agent") {
            Some(UserRole::SalesAgent)
        } else if chars_eq_str(c, "support-agent") {
            Some(UserRole::SupportAgent)
        } else if chars_eq_str(c, "read-only") {
            Some(UserRole::ReadOnly)
        } else if chars_eq_str(c, "user") {
            Some(UserRole::User)
        } else {
            None
        }
    }
}

/// Reading the code of an UserRole gives the value back.
pub proof fn law_user_role_code_round_trip(x: UserRole)
    ensures
        UserRole::with_code(x.code()) == Some(x),
{
    reveal_strlit("admin");
    reveal_strlit("developer");
    reveal_strlit("environment");
    reveal_strlit("product");
    reveal_strlit("license");
    reveal_strlit("sales-agent");
    reveal_strlit("support-agent");
    reveal_strlit("read-only");
    reveal_strlit("user");
    match x {
        UserRole::Admin => {
        },
        UserRole::Developer => {
            assert("developer"@.len() != "admin"@.len());
        },
        UserRole::Environment => {
            assert("environment"@.len() != "admin"@.len());
            assert("environment"@.len() != "developer"@.len());
        },
        UserRole::Product => {
            assert("product"@.len() != "admin"@.len());
            assert("product"@.len() != "developer"@.len());
            assert("product"@.len() != "environment"@.len());
        },
        UserRole::License => {
            assert("license"@.len() != "admin"@.len());
            assert("license"@.len() != "developer"@.len());
            assert("license"@.len() != "environment"@.len());
            assert("license"@[0] != "product"@[0]);
        },
        UserRole::SalesAgent => {
            assert("sales-agent"@.len() != "admin"@.len());
            assert("sales-agent"@.len() != "developer"@.len());
            assert("sales-agent"@[0] != "environment"@[0]);
            assert("sales-agent"@.len() != "product"@.len());
            assert("sales-agent"@.len() != "license"@.len());
        },
        UserRole::SupportAgent => {
            assert("support-agent"@.len() != "admin"@.len());
            assert("support-agent"@.len() != "developer"@.len());
            assert("support-agent"@.len() != "environment"@.len());
            assert("support-agent"@.len() != "product"@.len());
            assert("support-agent"@.len() != "license"@.len());
            assert("support-agent"@.len() != "sales-agent"@.len());
        },
        UserRole::ReadOnly => {
            assert("read-only"@.len() != "admin"@.len());
            assert("read-only"@[0] != "developer"@[0]);
            assert("read-only"@.len() != "environment"@.len());
            assert("read-only"@.len() != "product"@.len());
            assert("read-only"@.len() != "license"@.len());
            assert("read-only"@.len() != "sales-agent"@.len());
            assert("read-only"@.len() != "support-agent"@.len());
        },
        UserRole::User => {
            assert("user"@.len() != "admin"@.len());
            assert("user"@.len() != "developer"@.len());
            assert("user"@.len() != "environment"@.len());
            assert("user"@.len() != "product"@.len());
            assert("user"@.len() != "license"@.len());
            assert("user"@.len() != "sales-agent"@.len());
            assert("user"@.len() != "support-agent"@.len());
            assert("user"@.len() != "read-only"@.len());
        },
    }
}

/// The code of an optional UserRole.
pub fn user_role_text(e: Option<UserRole>) -> (r: Option<String>)
    ensures
        opt_chars(r) == match e {
            Some(x) => Some(x.code()),
            None => None,
        },
{
    match e {
        Some(x) => Some(to_string(x.as_str())),
        None => None,
    }
}

/// The codes of an optional list of UserRole values.
pub open spec fn user_role_codes_view(v: Option<Vec<UserRole>>) -> Option<Seq<Seq<char>>> {
    match v {
        Some(l) => Some(l@.map_values(|e: UserRole| e.code())),
        None => None,
    }
}

/// The codes of an optional list of UserRole values, in order.
pub fn user_role_codes(v: &Option<Vec<UserRole>>) -> (r: Option<Vec<String>>)
    ensures
        opt_texts(r) == user_role_codes_view(*v),
{
    match v {
        Some(l) => {
            let mut out: Vec<String> = Vec::new();
            let mut i: usize = 0;
            while i < l.len()
                invariant
                    i <= l@.len(),
                    text_views(out@) =~= l@.take(i as int).map_values(|e: UserRole| e.code()),
                decreases l@.len() - i,
            {
                out.push(to_string(l[i].as_str()));
                assert(l@.take(i + 1).map_values(|e: UserRole| e.code()) =~= l@.take(i as int).map_values(
                    |e: UserRole| e.code(),
                ).push(l@[i as int].code()));
                i = i + 1;
            }
            assert(l@.take(i as int) =~= l@);
            Some(out)
        },
        None => None,
    }
}

/// A user of an account.
#[derive(Debug, Clone)]
pub struct User {
    pub id: String,
    pub email: String,
    pub first_name: Option<String>,
    pub last_name: Option<String>,
    pub full_name: Option<String>,
    pub status: UserStatus,
    pub role: UserRole,
    pub permissions: Option<Vec<String>>,
    pub metadata: Option<HashMap<String, serde_json::Value>>,
    pub last_seen_at: Option<String>,
    pub ban_reason: Option<String>,
    pub created: String,
    pub updated: String,
}

/// The attributes of a new user.
#[derive(Debug, Clone)]
pub struct CreateUserRequest {
    pub email: String,
    pub first_name: Option<String>,
    pub last_name: Option<String>,
    pub role: Option<UserRole>,
    pub permissions: Option<Vec<String>>,
    pub metadata: Option<HashMap<String, serde_json::Value>>,
}

/// The changes to make to a user; absent fields are left unchanged.
#[derive(Debug, Clone)]
pub struct UpdateUserRequest {
    pub email: Option<String>,
    pub first_name: Option<String>,
    pub last_name: Option<String>,
    pub role: Option<UserRole>,
    pub metadata: Option<HashMap<String, serde_json::Value>>,
}

/// `start` followed by part 1 of the attributes of a `CreateUserRequest`.
pub open spec fn create_user_request_attributes_1(r: CreateUserRequest, start: Seq<(Seq<char>, AttributeView)>) -> Seq<(Seq<char>, AttributeView)> {
    start
        + text_attr("email"@, Some(r.email@))
        + text_attr("firstName"@, opt_chars(r.first_name))
        + text_attr("lastName"@, opt_chars(r.last_name))
        + text_attr("role"@, match r.role { Some(e) => Some(e.code()), None => None })
        + texts_attr("permissions"@, opt_texts(r.permissions))
}

/// The attributes sent when a user is created: the email, then the first and last name, role (by its code) and permissions that are set (the metadata aside).
pub open spec fn create_user_attributes(r: CreateUserRequest) -> Seq<(Seq<char>, AttributeView)> {
    create_user_request_attributes_1(r, Seq::empty())
}

impl CreateUserRequest {
    fn push_attributes_1(&self, attrs: Vec<(String, AttributeValue)>) -> (r: Vec<(String, AttributeValue)>)
        ensures
            attribute_views(r@) === create_user_request_attributes_1(*self, attribute_views(attrs@)),
    {
        let mut attrs = attrs;
        attrs = push_text(attrs, "email", Some(self.email.clone()));
        attrs = push_text(attrs, "firstName", copy_text(&self.first_name));
        attrs = push_text(attrs, "lastName", copy_text(&self.last_name));
        attrs = push_text(attrs, "role", user_role_text(self.role));
        attrs = push_texts(attrs, "permissions", copy_texts(&self.permissions));
        attrs
    }

    /// The attributes of the request body that are set, in order.
    pub fn attributes(&self) -> (r: Vec<(String, AttributeValue)>)
        ensures
            attribute_views(r@) === create_user_attributes(*self),
    {
        let mut attrs: Vec<(String, AttributeValue)> = Vec::new();
        assert(attribute_views(attrs@) =~= Seq::empty()) by {
            reveal(attribute_views);
        }
        attrs = self.push_attributes_1(attrs);
        attrs
    }
}

/// `start` followed by part 1 of the attributes of an `UpdateUserRequest`.
pub open spec fn update_user_request_attributes_1(r: UpdateUserRequest, start: Seq<(Seq<char>, AttributeView)>) -> Seq<(Seq<char>, AttributeView)> {
    start
        + text_attr("email"@, opt_chars(r.email))
        + text_attr("firstName"@, opt_chars(r.first_name))
        + text_attr("lastName"@, opt_chars(r.last_name))
        + text_attr("role"@, match r.role { Some(e) => Some(e.code()), None => None })
}

/// The attributes sent when a user is changed: those that are set among the email, first and last name and role (by its code) (the metadata aside).
pub open spec fn update_user_attributes(r: UpdateUserRequest) -> Seq<(Seq<char>, AttributeView)> {
    update_user_request_attributes_1(r, Seq::empty())
}

impl UpdateUserRequest {
    fn push_attributes_1(&self, attrs: Vec<(String, AttributeValue)>) -> (r: Vec<(String, AttributeValue)>)
        ensures
            attribute_views(r@) === update_user_request_attributes_1(*self, attribute_views(attrs@)),
    {
        let mut attrs = attrs;
        attrs = push_text(attrs, "email", copy_text(&self.email));
        attrs = push_text(attrs, "firstName", copy_text(&self.first_name));
        attrs = push_text(attrs, "lastName", copy_text(&self.last_name));
        attrs = push_text(attrs, "role", user_role_text(self.role));
        attrs
    }

    /// The attributes of the request body that are set, in order.
    pub fn attributes(&self) -> (r: Vec<(String, AttributeValue)>)
        ensures
            attribute_views(r@) === update_user_attributes(*self),
    {
        let mut attrs: Vec<(String, AttributeValue)> = Vec::new();
        assert(attribute_views(attrs@) =~= Seq::empty()) by {
            reveal(attribute_views);
        }
        attrs = self.push_attributes_1(attrs);
        attrs
    }
}

/// Pagination, filters, sorting and inclusion for listing users; the metadata entries are sent as their own parameters.
#[derive(Debug, Clone, Default)]
pub struct ListUsersOptions {
    pub limit: Option<u32>,
    pub page_size: Option<u32>,
    pub page_number: Option<u32>,
    pub status: Option<UserStatus>,
    pub assigned: Option<bool>,
    pub product: Option<String>,
    pub group: Option<String>,
    pub roles: Option<Vec<UserRole>>,
    pub sort: Option<String>,
    pub included: Option<String>,
    pub metadata: Option<HashMap<String, serde_json::Value>>,
}

/// `start` followed by part 1 of the query parameters of a `ListUsersOptions`.
pub open spec fn list_users_options_query_1(r: ListUsersOptions, start: Seq<(Seq<char>, AttributeView)>) -> Seq<(Seq<char>, AttributeView)> {
    start
        + int_attr("limit"@, opt_u32(r.limit))
        + int_attr("page[size]"@, opt_u32(r.page_size))
        + int_attr("page[number]"@, opt_u32(r.page_number))
        + text_attr("status"@, match r.status { Some(e) => Some(e.code()), None => None })
        + flag_attr("assigned"@, r.assigned)
        + text_attr("product"@, opt_chars(r.product))
}

/// `start` followed by part 2 of the query parameters of a `ListUsersOptions`.
pub open spec fn list_users_options_query_2(r: ListUsersOptions, start: Seq<(Seq<char>, AttributeView)>) -> Seq<(Seq<char>, AttributeView)> {
    start
        + text_attr("group"@, opt_chars(r.group))
        + texts_attr("roles"@, user_role_codes_view(r.roles))
        + text_attr("sort"@, opt_chars(r.sort))
        + text_attr("include"@, opt_chars(r.included))
}

/// The query parameters of a listing with `r`: the limit, page size and page number and filters that are set, in order.
pub open spec fn user_list_query(r: ListUsersOptions) -> Seq<(Seq<char>, AttributeView)> {
    list_users_options_query_2(r, list_users_options_query_1(r, Seq::empty()))
}

impl ListUsersOptions {
    fn push_query_1(&self, attrs: Vec<(String, AttributeValue)>) -> (r: Vec<(String, AttributeValue)>)
        ensures
            attribute_views(r@) === list_users_options_query_1(*self, attribute_views(attrs@)),
    {
        let mut attrs = attrs;
        attrs = push_u32(attrs, "limit", self.limit);
        attrs = push_u32(attrs, "page[size]", self.page_size);
        attrs = push_u32(attrs, "page[number]", self.page_number);
        attrs = push_text(attrs, "status", user_status_text(self.status));
        attrs = push_flag(attrs, "assigned", self.assigned);
        attrs = push_text(attrs, "product", copy_text(&self.product));
        attrs
    }

    fn push_query_2(&self, attrs: Vec<(String, AttributeValue)>) -> (r: Vec<(String, AttributeValue)>)
        ensures
            attribute_views(r@) === list_users_options_query_2(*self, attribute_views(attrs@)),
    {
        let mut attrs = attrs;
        attrs = push_text(attrs, "group", copy_text(&self.group));
        attrs = push_texts(attrs, "roles", user_role_codes(&self.roles));
        attrs = push_text(attrs, "sort", copy_text(&self.sort));
        attrs = push_text(attrs, "include", copy_text(&self.included));
        attrs
    }

    /// The query parameters that are set, in order.
    pub fn query(&self) -> (r: Vec<(String, AttributeValue)>)
        ensures
            attribute_views(r@) === user_list_query(*self),
    {
        let mut attrs: Vec<(String, AttributeValue)> = Vec::new();
        assert(attribute_views(attrs@) =~= Seq::empty()) by {
            reveal(attribute_views);
        }
        attrs = self.push_query_1(attrs);
        attrs = self.push_query_2(attrs);
        attrs
    }
}

} // verus!
