//! Products: their distribution strategies, platforms and token
//! permissions, and the bodies that create and change them.

use std::collections::HashMap;

use vstd::prelude::*;

use crate::attributes::{
    attribute_views, copy_text, int_attr, opt_chars, opt_u32, opt_texts, push_u32, push_text, push_texts, text_attr, text_views, texts_attr, AttributeValue, AttributeView,
};
use crate::text::{chars_eq_str, chars_of, to_string};

verus! {

/// Who may download a product's releases.
#[derive(Debug, Clone, Copy, PartialEq, Eq, Structural)]
pub enum DistributionStrategy {
    Open,
    Closed,
    Licensed,
}

impl DistributionStrategy {
    /// The code the API uses for the value.
    pub open spec fn code(self) -> Seq<char> {
        match self {
            DistributionStrategy::Open => "OPEN"@,
            DistributionStrategy::Closed => "CLOSED"@,
            DistributionStrategy::Licensed => "LICENSED"@,
        }
    }

    /// The code the API uses for the value.
    pub fn as_str(self) -> (r: &'static str)
        ensures
            r@ == self.code(),
    {
        match self {
            DistributionStrategy::Open => "OPEN",
            DistributionStrategy::Closed => "CLOSED",
            DistributionStrategy::Licensed => "LICENSED",
        }
    }

    /// The value whose code is exactly `c`.
    pub open spec fn with_code(c: Seq<char>) -> Option<Self> {
        if c == "OPEN"@ {
            Some(DistributionStrategy::Open)
        } else if c == "CLOSED"@ {
            Some(DistributionStrategy::Closed)
        } else if c == "LICENSED"@ {
            Some(DistributionStrategy::Licensed)
        } else {
            None
        }
    }

    /// The value whose code is `code`, if any.
    pub fn from_code(code: &str) -> (r: Option<Self>)
        ensures
            r == Self::with_code(code@),
    {
        let v = chars_of(code);
        let c = v.as_slice();
        if chars_eq_str(c, "OPEN") {
            Some(DistributionStrategy::Open)
        } else if chars_eq_str(c, "CLOSED") {
            Some(DistributionStrategy::Closed)
        } else if chars_eq_str(c, "LICENSED") {
            Some(DistributionStrategy::Licensed)
        } else {
            None
        }
    }
}

/// Reading the code of a DistributionStrategy gives the value back.
pub proof fn law_distribution_strategy_code_round_trip(x: DistributionStrategy)
    ensures
        DistributionStrategy::with_code(x.code()) == Some(x),
{
    reveal_strlit("OPEN");
    reveal_strlit("CLOSED");
    reveal_strlit("LICENSED");
    match x {
        DistributionStrategy::Open => {
        },
        DistributionStrategy::Closed => {
            assert("CLOSED"@.len() != "OPEN"@.len());
        },
        DistributionStrategy::Licensed => {
            assert("LICENSED"@.len() != "OPEN"@.len());
            assert("LICENSED"@.len() != "CLOSED"@.len());
        },
    }
}

/// The code of an optional DistributionStrategy.
pub fn distribution_strategy_text(e: Option<DistributionStrategy>) -> (r: Option<String>)
    ensures
        opt_chars(r) == match e {
            Some(x) => Some(x.code()),
            None => None,
        },
{
    match e {
        Some(x) => Some(to_string(x.as_str())),
        None => None,
    }
}

/// A platform a product runs on.
#[derive(Debug, Clone, Copy, PartialEq, Eq, Structural)]
pub enum Platform {
    Windows,
    MacOs,
    Linux,
    Darwin,
    Android,
    Ios,
    Web,
}

impl Platform {
    /// The code the API uses for the value.
    pub open spec fn code(self) -> Seq<char> {
        match self {
            Platform::Windows => "windows"@,
            Platform::MacOs => "macOS"@,
            Platform::Linux => "linux"@,
            Platform::Darwin => "darwin"@,
            Platform::Android => "android"@,
            Platform::Ios => "iOS"@,
            Platform::Web => "web"@,
        }
    }

    /// The code the API uses for the value.
    pub fn as_str(self) -> (r: &'static str)
        ensures
            r@ == self.code(),
    {
        match self {
            Platform::Windows => "windows",
            Platform::MacOs => "macOS",
            Platform::Linux => "linux",
            Platform::Darwin => "darwin",
            Platform::Android => "android",
            Platform::Ios => "iOS",
            Platform::Web => "web",
        }
    }

    /// The value whose code is exactly `c`.
    pub open spec fn with_code(c: Seq<char>) -> Option<Self> {
        if c == "windows"@ {
            Some(Platform::Windows)
        } else if c == "macOS"@ {
            Some(Platform::MacOs)
        } else if c == "linux"@ {
            Some(Platform::Linux)
        } else if c == "darwin"@ {
            Some(Platform::Darwin)
        } else if c == "android"@ {
            Some(Platform::Android)
        } else if c == "iOS"@ {
            Some(Platform::Ios)
        } else if c == "web"@ {
            Some(Platform::Web)
        } else {
            None
        }
    }

    /// The value whose code is `code`, if any.
    pub fn from_code(code: &str) -> (r: Option<Self>)
        ensures
            r == Self::with_code(code@),
    {
        let v = chars_of(code);
        let c = v.as_slice();
        if chars_eq_str(c, "windows") {
            Some(Platform::Windows)
        } else if chars_eq_str(c, "macOS") {
            Some(Platform::MacOs)
        } else if chars_eq_str(c, "linux") {
            Some(Platform::Linux)
        } else if chars_eq_str(c, "darwin") {
            Some(Platform::Darwin)
        } else if chars_eq_str(c, "android") {
            Some(Platform::Android)
        } else if chars_eq_str(c, "iOS") {
            Some(Platform::Ios)
        } else if chars_eq_str(c, "web") {
            Some(Platform::Web)
        } else {
            None
        }
    }
}

/// Reading the code of a Platform gives the value back.
pub proof fn law_platform_code_round_trip(x: Platform)
    ensures
        Platform::with_code(x.code()) == Some(x),
{
    reveal_strlit("windows");
    reveal_strlit("macOS");
    reveal_strlit("linux");
    reveal_strlit("darwin");
    reveal_strlit("android");
    reveal_strlit("iOS");
    reveal_strlit("web");
    match x {
        Platform::Windows => {
        },
        Platform::MacOs => {
            assert("macOS"@.len() != "windows"@.len());
        },
        Platform::Linux => {
            assert("linux"@.len() != "windows"@.len());
            assert("linux"@[0] != "macOS"@[0]);
        },
        Platform::Darwin => {
            assert("darwin"@.len() != "windows"@.len());
            assert("darwin"@.len() != "macOS"@.len());
            assert("darwin"@.len() != "linux"@.len());
        },
        Platform::Android => {
            assert("android"@[0] != "windows"@[0]);
            assert("android"@.len() != "macOS"@.len());
            assert("android"@.len() != "linux"@.len());
            assert("android"@.len() != "darwin"@.len());
        },
        Platform::Ios => {
            assert("iOS"@.len() != "windows"@.len());
            assert("iOS"@.len() != "macOS"@.len());
            assert("iOS"@.len() != "linux"@.len());
            assert("iOS"@.len() != "darwin"@.len());
            assert("iOS"@.len() != "android"@.len());
        },
        Platform::Web => {
            assert("web"@.len() != "windows"@.len());
            assert("web"@.len() != "macOS"@.len());
            assert("web"@.len() != "linux"@.len());
            assert("web"@.len() != "darwin"@.len());
            assert("web"@.len() != "android"@.len());
            assert("web"@[0] != "iOS"@[0]);
        },
    }
}

/// The code of an optional Platform.
pub fn platform_text(e: Option<Platform>) -> (r: Option<String>)
    ensures
        opt_chars(r) == match e {
            Some(x) => Some(x.code()),
            None => None,
        },
{
    match e {
        Some(x) => Some(to_string(x.as_str())),
        None => None,
    }
}

/// A permission a product grants its tokens.
#[derive(Debug, Clone, Copy, PartialEq, Eq, Structural)]
pub enum Permission {
    LicenseRead,
    LicenseCreate,
    LicenseUpdate,
    LicenseDelete,
    LicenseValidate,
    MachineRead,
    MachineCreate,
    MachineUpdate,
    MachineDelete,
    UserRead,
    UserCreate,
    UserUpdate,
    UserDelete,
}

impl Permission {
    /// The code the API uses for the value.
    pub open spec fn code(self) -> Seq<char> {
        match self {
            Permission::LicenseRead => "license.read"@,
            Permission::LicenseCreate => "license.create"@,
            Permission::LicenseUpdate => "license.update"@,
            Permission::LicenseDelete => "license.delete"@,
            Permission::LicenseValidate => "license.validate"@,
            Permission::MachineRead => "machine.read"@,
            Permission::MachineCreate => "machine.create"@,
            Permission::MachineUpdate => "machine.update"@,
            Permission::MachineDelete => "machine.delete"@,
            Permission::UserRead => "user.read"@,
            Permission::UserCreate => "user.create"@,
            Permission::UserUpdate => "user.update"@,
            Permission::UserDelete => "user.delete"@,
        }
    }

    /// The code the API uses for the value.
    pub fn as_str(self) -> (r: &'static str)
        ensures
            r@ == self.code(),
    {
        match self {
            Permission::LicenseRead => "license.read",
            Permission::LicenseCreate => "license.create",
            Permission::LicenseUpdate => "license.update",
            Permission::LicenseDelete => "license.delete",
            Permission::LicenseValidate => "license.validate",
            Permission::MachineRead => "machine.read",
            Permission::MachineCreate => "machine.create",
            Permission::MachineUpdate => "machine.update",
            Permission::MachineDelete => "machine.delete",
            Permission::UserRead => "user.read",
            Permission::UserCreate => "user.create",
            Permission::UserUpdate => "user.update",
            Permission::UserDelete => "user.delete",
        }
    }

    /// The value whose code is exactly `c`.
    pub open spec fn with_code(c: Seq<char>) -> Option<Self> {
        if c == "license.read"@ {
            Some(Permission::LicenseRead)
        } else if c == "license.create"@ {
            Some(Permission::LicenseCreate)
        } else if c == "license.update"@ {
            Some(Permission::LicenseUpdate)
        } else if c == "license.delete"@ {
            Some(Permission::LicenseDelete)
        } else if c == "license.validate"@ {
            Some(Permission::LicenseValidate)
        } else if c == "machine.read"@ {
            Some(Permission::MachineRead)
        } else if c == "machine.create"@ {
            Some(Permission::MachineCreate)
        } else if c == "machine.update"@ {
            Some(Permission::MachineUpdate)
        } else if c == "machine.delete"@ {
            Some(Permission::MachineDelete)
        } else if c == "user.read"@ {
            Some(Permission::UserRead)
        } else if c == "user.create"@ {
            Some(Permission::UserCreate)
        } else if c == "user.update"@ {
            Some(Permission::UserUpdate)
        } else if c == "user.delete"@ {
            Some(Permission::UserDelete)
        } else {
            None
        }
    }

    /// The value whose code is `code`, if any.
    pub fn from_code(code: &str) -> (r: Option<Self>)
        ensures
            r == Self::with_code(code@),
    {
        let v = chars_of(code);
        let c = v.as_slice();
        if chars_eq_str(c, "license.read") {
            Some(Permission::LicenseRead)
        } else if chars_eq_str(c, "license.create") {
            Some(Permission::LicenseCreate)
        } else if chars_eq_str(c, "license.update") {
            Some(Permission::LicenseUpdate)
        } else if chars_eq_str(c, "license.delete") {
            Some(Permission::LicenseDelete)
        } else if chars_eq_str(c, "license.validate") {
            Some(Permission::LicenseValidate)
        } else if chars_eq_str(c, "machine.read") {
            Some(Permission::MachineRead)
        } else if chars_eq_str(c, "machine.create") {
            Some(Permission::MachineCreate)
        } else if chars_eq_str(c, "machine.update") {
            Some(Permission::MachineUpdate)
        } else if chars_eq_str(c, "machine.delete") {
            Some(Permission::MachineDelete)
        } else if chars_eq_str(c, "user.read") {
            Some(Permission::UserRead)
        } else if chars_eq_str(c, "user.create") {
            Some(Permission::UserCreate)
        } else if chars_eq_str(c, "user.update") {
            Some(Permission::UserUpdate)
        } else if chars_eq_str(c, "user.delete") {
            Some(Permission::UserDelete)
        } else {
            None
        }
    }
}

/// Reading the code of a Permission gives the value back.
pub proof fn law_permission_code_round_trip(x: Permission)
    ensures
        Permission::with_code(x.code()) == Some(x),
{
    reveal_strlit("license.read");
    reveal_strlit("license.create");
    reveal_strlit("license.update");
    reveal_strlit("license.delete");
    reveal_strlit("license.validate");
    reveal_strlit("machine.read");
    reveal_strlit("machine.create");
    reveal_strlit("machine.update");
    reveal_strlit("machine.delete");
    reveal_strlit("user.read");
    reveal_strlit("user.create");
    reveal_strlit("user.update");
    reveal_strlit("user.delete");
    match x {
        Permission::LicenseRead => {
        },
        Permission::LicenseCreate => {
            assert("license.create"@.len() != "license.read"@.len());
        },
        Permission::LicenseUpdate => {
            assert("license.update"@.len() != "license.read"@.len());
            assert("license.update"@[8] != "license.create"@[8]);
        },
        Permission::LicenseDelete => {
            assert("license.delete"@.len() != "license.read"@.len());
            assert("license.delete"@[8] != "license.create"@[8]);
            assert("license.delete"@[8] != "license.update"@[8]);
        },
        Permission::LicenseValidate => {
            assert("license.validate"@.len() != "license.read"@.len());
            assert("license.validate"@.len() != "license.create"@.len());
            assert("license.validate"@.len() != "license.update"@.len());
            assert("license.validate"@.len() != "license.delete"@.len());
        },
        Permission::MachineRead => {
            assert("machine.read"@[0] != "license.read"@[0]);
            assert("machine.read"@.len() != "license.create"@.len());
            assert("machine.read"@.len() != "license.update"@.len());
            assert("machine.read"@.len() != "license.delete"@.len());
            assert("machine.read"@.len() != "license.validate"@.len());
        },
        Permission::MachineCreate => {
            assert("machine.create"@.len() != "license.read"@.len());
            assert("machine.create"@[0] != "license.create"@[0]);
            assert("machine.create"@[0] != "license.update"@[0]);
            assert("machine.create"@[0] != "license.delete"@[0]);
            assert("machine.create"@.len() != "license.validate"@.len());
            assert("machine.create"@.len() != "machine.read"@.len());
        },
        Permission::MachineUpdate => {
            assert("machine.update"@.len() != "license.read"@.len());
            assert("machine.update"@[0] != "license.create"@[0]);
            assert("machine.update"@[0] != "license.update"@[0]);
            assert("machine.update"@[0] != "license.delete"@[0]);
            assert("machine.update"@.len() != "license.validate"@.len());
            assert("machine.update"@.len() != "machine.read"@.len());
            assert("machine.update"@[8] != "machine.create"@[8]);
        },
        Permission::MachineDelete => {
            assert("machine.delete"@.len() != "license.read"@.len());
            assert("machine.delete"@[0] != "license.create"@[0]);
            assert("machine.delete"@[0] != "license.update"@[0]);
            assert("machine.delete"@[0] != "license.delete"@[0]);
            assert("machine.delete"@.len() != "license.validate"@.len());
            assert("machine.delete"@.len() != "machine.read"@.len());
            assert("machine.delete"@[8] != "machine.create"@[8]);
            assert("machine.delete"@[8] != "machine.update"@[8]);
        },
        Permission::UserRead => {
            assert("user.read"@.len() != "license.read"@.len());
            assert("user.read"@.len() != "license.create"@.len());
            assert("user.read"@.len() != "license.update"@.len());
            assert("user.read"@.len() != "license.delete"@.len());
            assert("user.read"@.len() != "license.validate"@.len());
            assert("user.read"@.len() != "machine.read"@.len());
            assert("user.read"@.len() != "machine.create"@.len());
            assert("user.read"@.len() != "machine.update"@.len());
            assert("user.read"@.len() != "machine.delete"@.len());
        },
        Permission::UserCreate => {
            assert("user.create"@.len() != "license.read"@.len());
            assert("user.create"@.len() != "license.create"@.len());
            assert("user.create"@.len() != "license.update"@.len());
            assert("user.create"@.len() != "license.delete"@.len());
            assert("user.create"@.len() != "license.validate"@.len());
            assert("user.create"@.len() != "machine.read"@.len());
            assert("user.create"@.len() != "machine.create"@.len());
            assert("user.create"@.len() != "machine.update"@.len());
            assert("user.create"@.len() != "machine.delete"@.len());
            assert("user.create"@.len() != "user.read"@.len());
        },
        Permission::UserUpdate => {
            assert("user.update"@.len() != "license.read"@.len());
            assert("user.update"@.len() != "license.create"@.len());
            assert("user.update"@.len() != "license.update"@.len());
            assert("user.update"@.len() != "license.delete"@.len());
            assert("user.update"@.len() != "license.validate"@.len());
            assert("user.update"@.len() != "machine.read"@.len());
            assert("user.update"@.len() != "machine.create"@.len());
            assert("user.update"@.len() != "machine.update"@.len());
            assert("user.update"@.len() != "machine.delete"@.len());
            assert("user.update"@.len() != "user.read"@.len());
            assert("user.update"@[5] != "user.create"@[5]);
        },
        Permission::UserDelete => {
            assert("user.delete"@.len() != "license.read"@.len());
            assert("user.delete"@.len() != "license.create"@.len());
            assert("user.delete"@.len() != "license.update"@.len());
            assert("user.delete"@.len() != "license.delete"@.len());
            assert("user.delete"@.len() != "license.validate"@.len());
            assert("user.delete"@.len() != "machine.read"@.len());
            assert("user.delete"@.len() != "machine.create"@.len());
            assert("user.delete"@.len() != "machine.update"@.len());
            assert("user.delete"@.len() != "machine.delete"@.len());
            assert("user.delete"@.len() != "user.read"@.len());
            assert("user.delete"@[5] != "user.create"@[5]);
            assert("user.delete"@[5] != "user.update"@[5]);
        },
    }
}

/// The code of an optional Permission.
pub fn permission_text(e: Option<Permission>) -> (r: Option<String>)
    ensures
        opt_chars(r) == match e {
            Some(x) => Some(x.code()),
            None => None,
        },
{
    match e {
        Some(x) => Some(to_string(x.as_str())),
        None => None,
    }
}

/// The codes of an optional list of Platform values.
pub open spec fn platform_codes_view(v: Option<Vec<Platform>>) -> Option<Seq<Seq<char>>> {
    match v {
        Some(l) => Some(l@.map_values(|e: Platform| e.code())),
        None => None,
    }
}

/// The codes of an optional list of Platform values, in order.
pub fn platform_codes(v: &Option<Vec<Platform>>) -> (r: Option<Vec<String>>)
    ensures
        opt_texts(r) == platform_codes_view(*v),
{
    match v {
        Some(l) => {
            let mut out: Vec<String> = Vec::new();
            let mut i: usize = 0;
            while i < l.len()
                invariant
                    i <= l@.len(),
                    text_views(out@) =~= l@.take(i as int).map_values(|e: Platform| e.code()),
                decreases l@.len() - i,
            {
                out.push(to_string(l[i].as_str()));
                assert(l@.take(i + 1).map_values(|e: Platform| e.code()) =~= l@.take(i as int).map_values(
                    |e: Platform| e.code(),
                ).push(l@[i as int].code()));
                i = i + 1;
            }
            assert(l@.take(i as int) =~= l@);
            Some(out)
        },
        None => None,
    }
}

/// The codes of an optional list of Permission values.
pub open spec fn permission_codes_view(v: Option<Vec<Permission>>) -> Option<Seq<Seq<char>>> {
    match v {
        Some(l) => Some(l@.map_values(|e: Permission| e.code())),
        None => None,
    }
}

/// The codes of an optional list of Permission values, in order.
pub fn permission_codes(v: &Option<Vec<Permission>>) -> (r: Option<Vec<String>>)
    ensures
        opt_texts(r) == permission_codes_view(*v),
{
    match v {
        Some(l) => {
            let mut out: Vec<String> = Vec::new();
            let mut i: usize = 0;
            while i < l.len()
                invariant
                    i <= l@.len(),
                    text_views(out@) =~= l@.take(i as int).map_values(|e: Permission| e.code()),
                decreases l@.len() - i,
            {
                out.push(to_string(l[i].as_str()));
                assert(l@.take(i + 1).map_values(|e: Permission| e.code()) =~= l@.take(i as int).map_values(
                    |e: Permission| e.code(),
                ).push(l@[i as int].code()));
                i = i + 1;
            }
            assert(l@.take(i as int) =~= l@);
            Some(out)
        },
        None => None,
    }
}

/// The attributes of a new product.
#[derive(Debug, Clone)]
pub struct CreateProductRequest {
    pub name: String,
    pub code: String,
    pub distribution_strategy: Option<DistributionStrategy>,
    pub url: Option<String>,
    pub platforms: Option<Vec<Platform>>,
    pub permissions: Option<Vec<Permission>>,
    pub metadata: Option<HashMap<String, serde_json::Value>>,
}

/// The changes to make to a product; absent fields are left unchanged.
#[derive(Debug, Clone)]
pub struct UpdateProductRequest {
    pub name: Option<String>,
    pub code: Option<String>,
    pub distribution_strategy: Option<DistributionStrategy>,
    pub url: Option<String>,
    pub platforms: Option<Vec<Platform>>,
    pub permissions: Option<Vec<Permission>>,
    pub metadata: Option<HashMap<String, serde_json::Value>>,
}

/// `start` followed by part 1 of the attributes of a `CreateProductRequest`.
pub open spec fn create_product_request_attributes_1(r: CreateProductRequest, start: Seq<(Seq<char>, AttributeView)>) -> Seq<(Seq<char>, AttributeView)> {
    start
        + text_attr("name"@, Some(r.name@))
        + text_attr("code"@, Some(r.code@))
        + text_attr("distributionStrategy"@, match r.distribution_strategy { Some(e) => Some(e.code()), None => None })
        + text_attr("url"@, opt_chars(r.url))
        + texts_attr("platforms"@, platform_codes_view(r.platforms))
        + texts_attr("permissions"@, permission_codes_view(r.permissions))
}

/// The attributes sent when a product is created: the name and code, then the distribution strategy, URL, platforms and permissions that are set, enumerations by their codes (the metadata aside).
pub open spec fn create_product_attributes(r: CreateProductRequest) -> Seq<(Seq<char>, AttributeView)> {
    create_product_request_attributes_1(r, Seq::empty())
}

impl CreateProductRequest {
    fn push_attributes_1(&self, attrs: Vec<(String, AttributeValue)>) -> (r: Vec<(String, AttributeValue)>)
        ensures
            attribute_views(r@) === create_product_request_attributes_1(*self, attribute_views(attrs@)),
    {
        let mut attrs = attrs;
        attrs = push_text(attrs, "name", Some(self.name.clone()));
        attrs = push_text(attrs, "code", Some(self.code.clone()));
        attrs = push_text(attrs, "distributionStrategy", distribution_strategy_text(self.distribution_strategy));
        attrs = push_text(attrs, "url", copy_text(&self.url));
        attrs = push_texts(attrs, "platforms", platform_codes(&self.platforms));
        attrs = push_texts(attrs, "permissions", permission_codes(&self.permissions));
        attrs
    }

    /// The attributes of the request body that are set, in order.
    pub fn attributes(&self) -> (r: Vec<(String, AttributeValue)>)
        ensures
            attribute_views(r@) === create_product_attributes(*self),
    {
        let mut attrs: Vec<(String, AttributeValue)> = Vec::new();
        assert(attribute_views(attrs@) =~= Seq::empty()) by {
            reveal(attribute_views);
        }
        attrs = self.push_attributes_1(attrs);
        attrs
    }
}

/// `start` followed by part 1 of the attributes of an `UpdateProductRequest`.
pub open spec fn update_product_request_attributes_1(r: UpdateProductRequest, start: Seq<(Seq<char>, AttributeView)>) -> Seq<(Seq<char>, AttributeView)> {
    start
        + text_attr("name"@, opt_chars(r.name))
        + text_attr("code"@, opt_chars(r.code))
        + text_attr("distributionStrategy"@, match r.distribution_strategy { Some(e) => Some(e.code()), None => None })
        + text_attr("url"@, opt_chars(r.url))
        + texts_attr("platforms"@, platform_codes_view(r.platforms))
        + texts_attr("permissions"@, permission_codes_view(r.permissions))
}

/// The attributes sent when a product is changed: those that are set among the name, code, distribution strategy, URL, platforms and permissions, enumerations by their codes (the metadata aside).
pub open spec fn update_product_attributes(r: UpdateProductRequest) -> Seq<(Seq<char>, AttributeView)> {
    update_product_request_attributes_1(r, Seq::empty())
}

impl UpdateProductRequest {
    fn push_attributes_1(&self, attrs: Vec<(String, AttributeValue)>) -> (r: Vec<(String, AttributeValue)>)
        ensures
            attribute_views(r@) === update_product_request_attributes_1(*self, attribute_views(attrs@)),
    {
        let mut attrs = attrs;
        attrs = push_text(attrs, "name", copy_text(&self.name));
        attrs = push_text(attrs, "code", copy_text(&self.code));
        attrs = push_text(attrs, "distributionStrategy", distribution_strategy_text(self.distribution_strategy));
        attrs = push_text(attrs, "url", copy_text(&self.url));
        attrs = push_texts(attrs, "platforms", platform_codes(&self.platforms));
        attrs = push_texts(attrs, "permissions", permission_codes(&self.permissions));
        attrs
    }

    /// The attributes of the request body that are set, in order.
    pub fn attributes(&self) -> (r: Vec<(String, AttributeValue)>)
        ensures
            attribute_views(r@) === update_product_attributes(*self),
    {
        let mut attrs: Vec<(String, AttributeValue)> = Vec::new();
        assert(attribute_views(attrs@) =~= Seq::empty()) by {
            reveal(attribute_views);
        }
        attrs = self.push_attributes_1(attrs);
        attrs
    }
}

/// Page-number pagination for listing products.
#[derive(Debug, Clone, Default)]
pub struct ListProductsOptions {
    pub limit: Option<u32>,
    pub page_size: Option<u32>,
    pub page_number: Option<u32>,
}

/// `start` followed by part 1 of the query parameters of a `ListProductsOptions`.
pub open spec fn list_products_options_query_1(r: ListProductsOptions, start: Seq<(Seq<char>, AttributeView)>) -> Seq<(Seq<char>, AttributeView)> {
    start
        + int_attr("limit"@, opt_u32(r.limit))
        + int_attr("page[size]"@, opt_u32(r.page_size))
        + int_attr("page[number]"@, opt_u32(r.page_number))
}

/// The query parameters of a listing with `r`: the limit, page size and page number that are set, in order.
pub open spec fn product_list_query(r: ListProductsOptions) -> Seq<(Seq<char>, AttributeView)> {
    list_products_options_query_1(r, Seq::empty())
}

impl ListProductsOptions {
    fn push_query_1(&self, attrs: Vec<(String, AttributeValue)>) -> (r: Vec<(String, AttributeValue)>)
        ensures
            attribute_views(r@) === list_products_options_query_1(*self, attribute_views(attrs@)),
    {
        let mut attrs = attrs;
        attrs = push_u32(attrs, "limit", self.limit);
        attrs = push_u32(attrs, "page[size]", self.page_size);
        attrs = push_u32(attrs, "page[number]", self.page_number);
        attrs
    }

    /// The query parameters that are set, in order.
    pub fn query(&self) -> (r: Vec<(String, AttributeValue)>)
        ensures
            attribute_views(r@) === product_list_query(*self),
    {
        let mut attrs: Vec<(String, AttributeValue)> = Vec::new();
        assert(attribute_views(attrs@) =~= Seq::empty()) by {
            reveal(attribute_views);
        }
        attrs = self.push_query_1(attrs);
        attrs
    }
}

/// A product: what licenses and releases belong to.
#[derive(Debug, Clone)]
pub struct Product {
    pub id: String,
    pub name: String,
    pub code: Option<String>,
    pub distribution_strategy: Option<DistributionStrategy>,
    pub url: Option<String>,
    pub platforms: Option<Vec<Platform>>,
    pub permissions: Option<Vec<Permission>>,
    pub metadata: Option<HashMap<String, serde_json::Value>>,
    pub created: String,
    pub updated: String,
    pub account_id: Option<String>,
}

} // verus!
