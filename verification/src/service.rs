//! What the `/v1/ping` endpoint tells about the service, and whether the
//! contract it reports is one a client can rely on.

use vstd::prelude::*;

use crate::api_version::ApiContractVersion;
use crate::headers::{first_text, pair_views, HeaderList};
use crate::text::{chars_eq_str, chars_of, string_of, trim, trim_spec};

verus! {

/// The answer to a ping: its (trimmed) text, and the contract version and
/// date the service sent with it.
#[derive(Debug, Clone)]
pub struct PingResponse {
    pub message: String,
    pub version: Option<String>,
    pub timestamp: Option<String>,
}

/// What a ping reveals about the service.
#[derive(Debug, Clone)]
pub struct ServiceInfo {
    /// Server timestamp
    pub timestamp: Option<String>,
    /// API version from response or headers
    pub api_version: Option<String>,
    /// Ping message
    pub message: Option<String>,
    /// The headers whose values are text, in the order received.
    pub headers: Vec<(String, String)>,
}

/// The headers of `entries` whose values are text, in order.
pub open spec fn text_headers(entries: Seq<(String, Option<String>)>) -> Seq<(Seq<char>, Seq<char>)>
    decreases entries.len(),
{
    if entries.len() == 0 {
        Seq::empty()
    } else {
        let rest = text_headers(entries.drop_last());
        match entries.last().1 {
            Some(v) => rest.push((entries.last().0@, v@)),
            None => rest,
        }
    }
}

/// The value of the last of `pairs` named `name`: the one a map filled in
/// order keeps.
pub open spec fn last_value(pairs: Seq<(Seq<char>, Seq<char>)>, name: Seq<char>) -> Option<Seq<char>>
    decreases pairs.len(),
{
    if pairs.len() == 0 {
        None
    } else if pairs.last().0 == name {
        Some(pairs.last().1)
    } else {
        last_value(pairs.drop_last(), name)
    }
}

/// The first of the values of `a`, `b` and `c` that is present.
pub open spec fn first_present(a: Option<Seq<char>>, b: Option<Seq<char>>, c: Option<Seq<char>>) -> Option<
    Seq<char>,
> {
    if a is Some {
        a
    } else if b is Some {
        b
    } else {
        c
    }
}

/// `o` holds the text `s` describes.
pub open spec fn opt_text(o: Option<String>, s: Option<Seq<char>>) -> bool {
    match s {
        Some(t) => o matches Some(v) && v@ == t,
        None => o is None,
    }
}

/// Whether a service reporting the contract `api_version` supports the
/// contract `required`: the report must resolve to a contract at least as
/// new.
pub open spec fn supports(api_version: Option<Seq<char>>, required: ApiContractVersion) -> bool {
    match api_version {
        Some(v) => match ApiContractVersion::observed(v) {
            Some(observed) => observed.at_least(required),
            None => false,
        },
        None => false,
    }
}

fn opt_string(s: Option<&String>) -> (r: Option<String>)
    ensures
        match s {
            Some(v) => r matches Some(w) && w@ == v@,
            None => r is None,
        },
{
    match s {
        Some(v) => Some(v.clone()),
        None => None,
    }
}

/// The value of the last pair named `name`.
fn last_named<'a>(pairs: &'a Vec<(String, String)>, name: &str) -> (r: Option<&'a String>)
    ensures
        match last_value(pair_views(pairs@), name@) {
            Some(v) => r matches Some(w) && w@ == v,
            None => r is None,
        },
{
    let mut i: usize = pairs.len();
    assert(pairs@.take(i as int) =~= pairs@);
    while i > 0
        invariant
            i <= pairs@.len(),
            last_value(pair_views(pairs@), name@) == last_value(
                pair_views(pairs@.take(i as int)),
                name@,
            ),
        decreases i,
    {
        let ghost t = pairs@.take(i as int);
        assert(pair_views(t).drop_last() =~= pair_views(pairs@.take(i - 1)));
        assert(pair_views(t).last() == (pairs@[i - 1].0@, pairs@[i - 1].1@));
        if chars_eq_str(chars_of(pairs[i - 1].0.as_str()).as_slice(), name) {
            return Some(&pairs[i - 1].1);
        }
        i = i - 1;
    }
    None
}

impl PingResponse {
    /// The ping answer carried by a response: the trimmed body, and the
    /// `Keygen-Version` and `Date` headers when their first values are text.
    pub fn from_response(headers: &HeaderList, body: &str) -> (r: Self)
        ensures
            r.message@ == trim_spec(body@),
            opt_text(r.version, first_text(headers.entries@, "keygen-version"@)),
            opt_text(r.timestamp, first_text(headers.entries@, "date"@)),
    {
        proof {
            reveal_strlit("keygen-version");
            reveal_strlit("date");
            assert(crate::text::ascii_lower("keygen-version"@) =~= "keygen-version"@);
            assert(crate::text::ascii_lower("date"@) =~= "date"@);
        }
        let message = string_of(trim(chars_of(body).as_slice()).as_slice());
        let version = headers.text("keygen-version");
        let timestamp = headers.text("date");
        PingResponse { message, version, timestamp }
    }
}

impl ServiceInfo {
    /// The service information carried by a ping response: the text headers,
    /// the contract from `Keygen-Version` (else `X-Api-Version`, else
    /// `Api-Version`), the time from `Date` (else `X-Timestamp`), and the
    /// trimmed body. Where a header repeats, its last text value counts.
    pub fn from_response(headers: &HeaderList, body: &str) -> (r: Self)
        ensures
            pair_views(r.headers@) == text_headers(headers.entries@),
            opt_text(
                r.api_version,
                first_present(
                    last_value(text_headers(headers.entries@), "keygen-version"@),
                    last_value(text_headers(headers.entries@), "x-api-version"@),
                    last_value(text_headers(headers.entries@), "api-version"@),
                ),
            ),
            opt_text(
                r.timestamp,
                first_present(
                    last_value(text_headers(headers.entries@), "date"@),
                    last_value(text_headers(headers.entries@), "x-timestamp"@),
                    None,
                ),
            ),
            r.message matches Some(m) && m@ == trim_spec(body@),
    {
        let mut pairs: Vec<(String, String)> = Vec::new();
        let mut i: usize = 0;
        while i < headers.entries.len()
            invariant
                i <= headers.entries@.len(),
                pair_views(pairs@) == text_headers(headers.entries@.take(i as int)),
            decreases headers.entries@.len() - i,
        {
            let ghost before = pairs@;
            assert(headers.entries@.take(i + 1).drop_last() =~= headers.entries@.take(i as int));
            match &headers.entries[i].1 {
                Some(v) => {
                    pairs.push((headers.entries[i].0.clone(), v.clone()));
                    assert(pair_views(pairs@) =~= pair_views(before).push(
                        (headers.entries@[i as int].0@, v@),
                    ));
                },
                None => {},
            }
            i = i + 1;
        }
        assert(headers.entries@.take(i as int) =~= headers.entries@);
        let api_version = match last_named(&pairs, "keygen-version") {
            Some(v) => Some(v.clone()),
            None => match last_named(&pairs, "x-api-version") {
                Some(v) => Some(v.clone()),
                None => opt_string(last_named(&pairs, "api-version")),
            },
        };
        let timestamp = match last_named(&pairs, "date") {
            Some(v) => Some(v.clone()),
            None => opt_string(last_named(&pairs, "x-timestamp")),
        };
        let message = Some(string_of(trim(chars_of(body).as_slice()).as_slice()));
        ServiceInfo { timestamp, api_version, message, headers: pairs }
    }
}

/// Checks whether the observed service contract is at least the required
/// contract.
pub fn supports_api_contract(service_info: &ServiceInfo, required_version: ApiContractVersion) -> (r:
    bool)
    ensures
        r == supports(
            match service_info.api_version {
                Some(v) => Some(v@),
                None => None,
            },
            required_version,
        ),
{
    match &service_info.api_version {
        Some(v) => match ApiContractVersion::resolve_observed(v.as_str()) {
            Ok(observed) => observed.is_at_least(required_version),
            Err(_) => false,
        },
        None => false,
    }
}

/// A service that supports a contract supports every older one.
pub proof fn law_supports_older_contracts(
    api_version: Option<Seq<char>>,
    newer: ApiContractVersion,
    older: ApiContractVersion,
)
    requires
        supports(api_version, newer),
        newer.at_least(older),
    ensures
        supports(api_version, older),
{
}

/// Every service reporting exactly one of the supported contracts' header
/// texts supports that contract, and the oldest one.
pub proof fn law_reported_contract_supported(v: ApiContractVersion)
    ensures
        supports(Some(v.text()), v),
        supports(Some(v.text()), ApiContractVersion::MINIMUM_SUPPORTED),
{
    crate::api_version::law_observed_round_trip(v);
}

} // verus!
