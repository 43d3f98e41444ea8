//! Environments: isolated (or shared) spaces of an account, and the
//! requests that create, change, list and authenticate them.

use vstd::prelude::*;

use crate::attributes::{
    attribute_views, opt_chars, push_text, push_texts, text_attr, text_views, texts_attr,
    AttributeValue, AttributeView,
};
use crate::text::{chars_eq_str, chars_of, decimal, push_decimal, to_string};

verus! {

/// How an environment's resources relate to the global ones.
#[derive(Debug, Clone, Copy, PartialEq, Eq, Structural)]
pub enum IsolationStrategy {
    /// Complete resource isolation (default)
    Isolated,
    /// Global environment resources readable
    Shared,
}

impl IsolationStrategy {
    /// The strategy, as the API spells it.
    pub open spec fn code(self) -> Seq<char> {
        match self {
            IsolationStrategy::Isolated => "ISOLATED"@,
            IsolationStrategy::Shared => "SHARED"@,
        }
    }

    /// The strategy, as the API spells it.
    pub fn as_str(self) -> (r: &'static str)
        ensures
            r@ == self.code(),
    {
        match self {
            IsolationStrategy::Isolated => "ISOLATED",
            IsolationStrategy::Shared => "SHARED",
        }
    }

    /// The strategy whose code is exactly `c`.
    pub open spec fn with_code(c: Seq<char>) -> Option<Self> {
        if c == "ISOLATED"@ {
            Some(IsolationStrategy::Isolated)
        } else if c == "SHARED"@ {
            Some(IsolationStrategy::Shared)
        } else {
            None
        }
    }

    /// The strategy whose code is `code`, if any.
    pub fn from_code(code: &str) -> (r: Option<Self>)
        ensures
            r == Self::with_code(code@),
    {
        let v = chars_of(code);
        let c = v.as_slice();
        if chars_eq_str(c, "ISOLATED") {
            Some(IsolationStrategy::Isolated)
        } else if chars_eq_str(c, "SHARED") {
            Some(IsolationStrategy::Shared)
        } else {
            None
        }
    }
}

/// Reading the code of an isolation strategy gives the strategy back.
pub proof fn law_isolation_strategy_code_round_trip(x: IsolationStrategy)
    ensures
        IsolationStrategy::with_code(x.code()) == Some(x),
{
    reveal_strlit("ISOLATED");
    reveal_strlit("SHARED");
    if x == IsolationStrategy::Shared {
        assert("SHARED"@.len() != "ISOLATED"@.len());
    }
}

impl Default for IsolationStrategy {
    fn default() -> (r: Self)
        ensures
            r == IsolationStrategy::Isolated,
    {
        IsolationStrategy::Isolated
    }
}

/// The attributes of an environment.
#[derive(Debug, Clone)]
pub struct EnvironmentAttributes {
    pub name: String,
    pub code: String,
    pub isolation_strategy: IsolationStrategy,
    pub created: String,
    pub updated: String,
}

/// An environment.
#[derive(Debug, Clone)]
pub struct Environment {
    pub id: String,
    pub name: String,
    pub code: String,
    pub isolation_strategy: IsolationStrategy,
    pub created: String,
    pub updated: String,
    pub account_id: Option<String>,
}

/// The attributes of a new environment.
#[derive(Debug, Clone)]
pub struct CreateEnvironmentRequest {
    pub name: String,
    pub code: String,
    pub isolation_strategy: Option<IsolationStrategy>,
}

/// The changes to make to an environment.
#[derive(Debug, Clone)]
pub struct UpdateEnvironmentRequest {
    pub name: Option<String>,
    pub code: Option<String>,
}

/// Page-number pagination for listing environments.
#[derive(Debug, Clone, Default)]
pub struct ListEnvironmentsOptions {
    pub limit: Option<u32>,
    pub page_size: Option<u32>,
    pub page_number: Option<u32>,
}

/// The attributes of a new environment token.
#[derive(Debug, Clone)]
pub struct CreateEnvironmentTokenRequest {
    pub name: Option<String>,
    pub expiry: Option<String>,
    pub permissions: Option<Vec<String>>,
}

/// The attributes of an environment token.
#[derive(Debug, Clone)]
pub struct EnvironmentTokenAttributes {
    pub token: String,
    pub name: Option<String>,
    pub expiry: Option<String>,
    pub permissions: Option<Vec<String>>,
    pub created: String,
    pub updated: String,
}

/// A token of an environment.
#[derive(Debug, Clone)]
pub struct EnvironmentToken {
    pub id: String,
    pub token: String,
    pub name: Option<String>,
    pub expiry: Option<String>,
    pub permissions: Option<Vec<String>>,
    pub created: String,
    pub updated: String,
    pub environment_id: String,
    pub account_id: Option<String>,
}

/// The views of an optional list of strings.
pub open spec fn opt_texts(v: Option<Vec<String>>) -> Option<Seq<Seq<char>>> {
    match v {
        Some(l) => Some(text_views(l@)),
        None => None,
    }
}

/// The attributes sent when an environment is created: its name and code,
/// then the isolation strategy when given.
pub open spec fn create_environment_attributes(r: CreateEnvironmentRequest) -> Seq<
    (Seq<char>, AttributeView),
> {
    seq![("name"@, AttributeView::Text(r.name@)), ("code"@, AttributeView::Text(r.code@))]
        + text_attr(
        "isolationStrategy"@,
        match r.isolation_strategy {
            Some(s) => Some(s.code()),
            None => None,
        },
    )
}

/// The attributes sent when an environment is updated: the name and code
/// when given.
pub open spec fn update_environment_attributes(r: UpdateEnvironmentRequest) -> Seq<
    (Seq<char>, AttributeView),
> {
    Seq::empty() + text_attr("name"@, opt_chars(r.name)) + text_attr("code"@, opt_chars(r.code))
}

/// The attributes sent when an environment token is generated: the name,
/// expiry and permissions when given (none without a request).
pub open spec fn environment_token_attributes(r: Option<CreateEnvironmentTokenRequest>) -> Seq<
    (Seq<char>, AttributeView),
> {
    match r {
        None => Seq::empty(),
        Some(r) => Seq::empty() + text_attr("name"@, opt_chars(r.name)) + text_attr(
            "expiry"@,
            opt_chars(r.expiry),
        ) + texts_attr("permissions"@, opt_texts(r.permissions)),
    }
}

/// The decimal text of an optional number.
pub open spec fn opt_decimal(v: Option<u32>) -> Option<Seq<char>> {
    match v {
        Some(n) => Some(decimal(n as nat)),
        None => None,
    }
}

/// The query parameters of an environment listing, each number written in
/// decimal: the limit, page size and page number when given.
pub open spec fn environment_list_query(o: Option<ListEnvironmentsOptions>) -> Seq<
    (Seq<char>, AttributeView),
> {
    match o {
        None => Seq::empty(),
        Some(o) => Seq::empty() + text_attr("limit"@, opt_decimal(o.limit)) + text_attr(
            "page[size]"@,
            opt_decimal(o.page_size),
        ) + text_attr("page[number]"@, opt_decimal(o.page_number)),
    }
}

fn decimal_text(v: Option<u32>) -> (r: Option<String>)
    ensures
        opt_chars(r) == opt_decimal(v),
{
    match v {
        Some(n) => {
            let mut t = String::new();
            push_decimal(&mut t, n as u64);
            assert(t@ =~= decimal(n as nat));
            Some(t)
        },
        None => None,
    }
}

fn copy_texts(v: &Option<Vec<String>>) -> (r: Option<Vec<String>>)
    ensures
        opt_texts(r) == opt_texts(*v),
{
    match v {
        Some(l) => {
            let mut out: Vec<String> = Vec::new();
            let mut i: usize = 0;
            while i < l.len()
                invariant
                    i <= l@.len(),
                    text_views(out@) == text_views(l@.take(i as int)),
                decreases l@.len() - i,
            {
                let ghost before = out@;
                out.push(l[i].clone());
                assert(text_views(out@) =~= text_views(before).push(l@[i as int]@));
                assert(text_views(l@.take(i + 1)) =~= text_views(l@.take(i as int)).push(
                    l@[i as int]@,
                ));
                i = i + 1;
            }
            assert(l@.take(i as int) =~= l@);
            Some(out)
        },
        None => None,
    }
}

impl CreateEnvironmentRequest {
    /// The attributes of the request body, in the order they are set.
    pub fn attributes(&self) -> (r: Vec<(String, AttributeValue)>)
        ensures
            attribute_views(r@) === create_environment_attributes(*self),
    {
        let mut attrs: Vec<(String, AttributeValue)> = Vec::new();
        attrs.push((to_string("name"), AttributeValue::Text(self.name.clone())));
        attrs.push((to_string("code"), AttributeValue::Text(self.code.clone())));
        assert(attribute_views(attrs@) =~= seq![
            ("name"@, AttributeView::Text(self.name@)),
            ("code"@, AttributeView::Text(self.code@)),
        ]) by {
            reveal(attribute_views);
        }
        let strategy = match self.isolation_strategy {
            Some(s) => Some(to_string(s.as_str())),
            None => None,
        };
        attrs = push_text(attrs, "isolationStrategy", strategy);
        attrs
    }
}

impl UpdateEnvironmentRequest {
    /// The attributes of the request body, in the order they are set.
    pub fn attributes(&self) -> (r: Vec<(String, AttributeValue)>)
        ensures
            attribute_views(r@) === update_environment_attributes(*self),
    {
        let mut attrs: Vec<(String, AttributeValue)> = Vec::new();
        assert(attribute_views(attrs@) =~= Seq::empty()) by {
            reveal(attribute_views);
        }
        attrs = push_text(attrs, "name", crate::attributes::copy_text(&self.name));
        attrs = push_text(attrs, "code", crate::attributes::copy_text(&self.code));
        attrs
    }
}

impl CreateEnvironmentTokenRequest {
    /// The attributes of a token generation request body, in the order they
    /// are set.
    pub fn attributes(request: Option<&CreateEnvironmentTokenRequest>) -> (r: Vec<
        (String, AttributeValue),
    >)
        ensures
            attribute_views(r@) === environment_token_attributes(
                match request {
                    Some(q) => Some(*q),
                    None => None,
                },
            ),
    {
        let mut attrs: Vec<(String, AttributeValue)> = Vec::new();
        assert(attribute_views(attrs@) =~= Seq::empty()) by {
            reveal(attribute_views);
        }
        let q = match request {
            None => return attrs,
            Some(q) => q,
        };
        attrs = push_text(attrs, "name", crate::attributes::copy_text(&q.name));
        attrs = push_text(attrs, "expiry", crate::attributes::copy_text(&q.expiry));
        attrs = push_texts(attrs, "permissions", copy_texts(&q.permissions));
        attrs
    }
}

impl ListEnvironmentsOptions {
    /// The query parameters of an environment listing, in the order they
    /// are set.
    pub fn query(options: Option<&ListEnvironmentsOptions>) -> (r: Vec<(String, AttributeValue)>)
        ensures
            attribute_views(r@) === environment_list_query(
                match options {
                    Some(o) => Some(*o),
                    None => None,
                },
            ),
    {
        let mut attrs: Vec<(String, AttributeValue)> = Vec::new();
        assert(attribute_views(attrs@) =~= Seq::empty()) by {
            reveal(attribute_views);
        }
        let o = match options {
            None => return attrs,
            Some(o) => o,
        };
        attrs = push_text(attrs, "limit", decimal_text(o.limit));
        attrs = push_text(attrs, "page[size]", decimal_text(o.page_size));
        attrs = push_text(attrs, "page[number]", decimal_text(o.page_number));
        attrs
    }
}

} // verus!
