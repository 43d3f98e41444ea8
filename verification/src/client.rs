//! The decisions of the HTTP client: where a request goes, which headers
//! it carries, whether a response's signature must be checked, and what a
//! rate-limited response is reported as. Sending and receiving stay with the
//! caller.

use vstd::prelude::*;

use crate::api_version::ApiContractVersion;
use crate::config::KeygenConfig;
use crate::errors::Error;
use crate::headers::{first_text, pair_views, HeaderList};
use crate::signing::{response_signature_check, signature_outcome, Verifier};
use crate::text::{
    ascii_lower, chars_eq_str, chars_of, decimal, parse_unsigned, parse_unsigned_spec, push_decimal,
    split_chars, split_spec, string_of, to_string,
};

verus! {

/// What a client needs to know to talk to the API.
#[derive(Clone, Debug)]
pub struct ClientOptions {
    pub account: String,
    pub environment: Option<String>,
    pub license_key: Option<String>,
    pub token: Option<String>,
    pub user_agent: Option<String>,
    pub api_url: String,
    pub api_version: ApiContractVersion,
    pub api_prefix: String,
    pub verify_keygen_signature: bool,
    pub public_key: Option<String>,
}

/// The client options a configuration gives: signature checks stay on
/// unless the configuration turns them off.
pub open spec fn options_of(config: KeygenConfig) -> ClientOptions {
    ClientOptions {
        account: config.account,
        environment: config.environment,
        license_key: config.license_key,
        token: config.token,
        user_agent: config.user_agent,
        api_url: config.api_url,
        api_version: config.api_version,
        api_prefix: config.api_prefix,
        verify_keygen_signature: match config.verify_keygen_signature {
            Some(b) => b,
            None => true,
        },
        public_key: config.public_key,
    }
}

impl From<KeygenConfig> for ClientOptions {
    fn from(config: KeygenConfig) -> (r: Self) {
        let verify_keygen_signature = match config.verify_keygen_signature {
            Some(b) => b,
            None => true,
        };
        ClientOptions {
            account: config.account,
            environment: config.environment,
            license_key: config.license_key,
            token: config.token,
            user_agent: config.user_agent,
            api_url: config.api_url,
            api_version: config.api_version,
            api_prefix: config.api_prefix,
            verify_keygen_signature,
            public_key: config.public_key,
        }
    }
}

impl vstd::std_specs::convert::FromSpecImpl<KeygenConfig> for ClientOptions {
    open spec fn obeys_from_spec() -> bool {
        true
    }

    open spec fn from_spec(config: KeygenConfig) -> Self {
        options_of(config)
    }
}

/// The URL path segments of a request to `path`: the API prefix, then (on
/// the hosted service only) the account, then the parts of `path`.
pub open spec fn url_segments(options: ClientOptions, path: Seq<char>) -> Seq<Seq<char>> {
    if options.api_url@ == "https://api.keygen.sh"@ {
        seq![options.api_prefix@, "accounts"@, options.account@] + split_spec(path, '/')
    } else {
        seq![options.api_prefix@] + split_spec(path, '/')
    }
}

/// A one-header list when the value is present.
pub open spec fn optional_header(name: Seq<char>, value: Option<String>) -> Seq<(Seq<char>, Seq<char>)> {
    match value {
        Some(v) => seq![(name, v@)],
        None => Seq::empty(),
    }
}

/// The authorization a request carries: the license key if there is one,
/// else the token.
pub open spec fn authorization(options: ClientOptions) -> Seq<(Seq<char>, Seq<char>)> {
    match options.license_key {
        Some(k) => seq![("authorization"@, "License "@ + k@)],
        None => match options.token {
            Some(t) => seq![("authorization"@, "Bearer "@ + t@)],
            None => Seq::empty(),
        },
    }
}

/// The headers of a request, in the order they are set: the JSON:API
/// media type accepted (and sent, when there are parameters), the user
/// agent, the environment, the contract version (unless left out), and the
/// authorization.
pub open spec fn request_headers_of(options: ClientOptions, has_params: bool, include_version: bool) -> Seq<
    (Seq<char>, Seq<char>),
> {
    seq![("accept"@, "application/vnd.api+json"@)] + (if has_params {
        seq![("content-type"@, "application/vnd.api+json"@)]
    } else {
        Seq::empty()
    }) + optional_header("user-agent"@, options.user_agent) + optional_header(
        "keygen-environment"@,
        options.environment,
    ) + (if include_version {
        seq![("keygen-version"@, options.api_version.text())]
    } else {
        Seq::empty()
    }) + authorization(options)
}

/// The path and query that a response signature covers.
pub open spec fn signed_path(path: Seq<char>, query: Option<Seq<char>>) -> Seq<char> {
    match query {
        Some(q) => path + "?"@ + q,
        None => path,
    }
}

/// The host a response signature covers: the request's host, with its
/// port when the URL names one.
pub open spec fn host_of(host: Option<Seq<char>>, port: Option<u16>) -> Seq<char> {
    match host {
        Some(h) => match port {
            Some(p) => h + ":"@ + decimal(p as nat),
            None => h,
        },
        None => "api.keygen.sh"@,
    }
}

/// The number in a rate-limit header: its value parsed as an unsigned
/// number no larger than `max`, or 0 when it is missing or not one.
pub open spec fn header_number(text: Option<Seq<char>>, max: nat) -> nat {
    match text {
        Some(t) => match parse_unsigned_spec(t, max) {
            Some(v) => v,
            None => 0,
        },
        None => 0,
    }
}

/// The error a rate-limited response with the header list `entries` is
/// reported as.
pub open spec fn rate_limit_error_of(entries: Seq<(String, Option<String>)>, e: Error) -> bool {
    e matches Error::RateLimitExceeded { window, count, limit, remaining, reset, retry_after } && {
        &&& window@ == match first_text(entries, "x-ratelimit-window"@) {
            Some(w) => w,
            None => Seq::empty(),
        }
        &&& count == header_number(first_text(entries, "x-ratelimit-count"@), u32::MAX as nat)
        &&& limit == header_number(first_text(entries, "x-ratelimit-limit"@), u32::MAX as nat)
        &&& remaining == header_number(
            first_text(entries, "x-ratelimit-remaining"@),
            u32::MAX as nat,
        )
        &&& reset == header_number(first_text(entries, "x-ratelimit-reset"@), u64::MAX as nat)
        &&& retry_after == header_number(first_text(entries, "retry-after"@), u64::MAX as nat)
    }
}

pub(crate) fn push_header(headers: &mut Vec<(String, String)>, name: &str, value: String)
    ensures
        pair_views(final(headers)@) == pair_views(old(headers)@).push((name@, value@)),
{
    let ghost before = headers@;
    headers.push((to_string(name), value));
    assert(pair_views(headers@) =~= pair_views(before).push((name@, value@)));
}

pub(crate) fn joined(prefix: &str, rest: &str) -> (r: String)
    ensures
        r@ == prefix@ + rest@,
{
    let mut t = to_string(prefix);
    t.append(rest);
    t
}

fn header_u64(headers: &HeaderList, name: &str, max: u64) -> (r: u64)
    requires
        ascii_lower(name@) == name@,
    ensures
        r == header_number(first_text(headers.entries@, name@), max as nat),
{
    match headers.text(name) {
        Some(v) => match parse_unsigned(chars_of(v.as_str()).as_slice(), max) {
            Some(n) => n,
            None => 0,
        },
        None => 0,
    }
}

impl ClientOptions {
    /// The URL path segments of a request to `path`.
    pub fn url_path_segments(&self, path: &str) -> (r: Vec<String>)
        ensures
            r@.map_values(|s: String| s@) == url_segments(*self, path@),
    {
        let mut segments: Vec<String> = Vec::new();
        segments.push(self.api_prefix.clone());
        if chars_eq_str(chars_of(self.api_url.as_str()).as_slice(), "https://api.keygen.sh") {
            segments.push(to_string("accounts"));
            segments.push(self.account.clone());
            assert(segments@.map_values(|s: String| s@) =~= seq![
                self.api_prefix@,
                "accounts"@,
                self.account@,
            ]);
        } else {
            assert(segments@.map_values(|s: String| s@) =~= seq![self.api_prefix@]);
        }
        let ghost head = segments@.map_values(|s: String| s@);
        let parts = split_chars(chars_of(path).as_slice(), '/');
        let ghost ps = split_spec(path@, '/');
        let mut i: usize = 0;
        while i < parts.len()
            invariant
                i <= parts@.len(),
                parts@.len() == ps.len(),
                forall|k: int| 0 <= k < ps.len() ==> (#[trigger] parts@[k])@ == ps[k],
                segments@.map_values(|s: String| s@) == head + ps.take(i as int),
            decreases parts@.len() - i,
        {
            let ghost before = segments@;
            segments.push(string_of(parts[i].as_slice()));
            assert(segments@.map_values(|s: String| s@) =~= before.map_values(|s: String| s@).push(
                ps[i as int],
            ));
            assert(ps.take(i + 1) =~= ps.take(i as int).push(ps[i as int]));
            i = i + 1;
        }
        assert(ps.take(i as int) =~= ps);
        proof {
            reveal_strlit("accounts");
            lemma_url_segments(segments@, *self, path@, head, ps);
        }
        segments
    }

    /// The headers of a request, in the order they are set; `has_params`
    /// tells whether the request carries parameters, `include_version`
    /// whether it names the contract version.
    pub fn request_headers(&self, has_params: bool, include_version: bool) -> (r: Vec<
        (String, String),
    >)
        ensures
            pair_views(r@) == request_headers_of(*self, has_params, include_version),
    {
        let mut headers: Vec<(String, String)> = Vec::new();
        push_header(&mut headers, "accept", to_string("application/vnd.api+json"));
        if has_params {
            push_header(&mut headers, "content-type", to_string("application/vnd.api+json"));
        }
        let ghost a = pair_views(headers@);
        match &self.user_agent {
            Some(ua) => push_header(&mut headers, "user-agent", ua.clone()),
            None => {},
        }
        assert(pair_views(headers@) =~= a + optional_header("user-agent"@, self.user_agent));
        let ghost b = pair_views(headers@);
        match &self.environment {
            Some(env) => push_header(&mut headers, "keygen-environment", env.clone()),
            None => {},
        }
        assert(pair_views(headers@) =~= b + optional_header(
            "keygen-environment"@,
            self.environment,
        ));
        let ghost c = pair_views(headers@);
        if include_version {
            push_header(&mut headers, "keygen-version", to_string(self.api_version.as_str()));
        }
        let ghost d = pair_views(headers@);
        match &self.license_key {
            Some(key) => push_header(&mut headers, "authorization", joined("License ", key.as_str())),
            None => match &self.token {
                Some(token) => push_header(
                    &mut headers,
                    "authorization",
                    joined("Bearer ", token.as_str()),
                ),
                None => {},
            },
        }
        assert(pair_views(headers@) =~= d + authorization(*self));
        assert(request_headers_of(*self, has_params, include_version) =~= pair_views(headers@));
        headers
    }

    /// Checks the signature of a response when the options ask for it and
    /// name a public key; `path` and `query` are the request's, `host` its
    /// host as [`request_host`] gives it.
    pub fn check_response_signature(
        &self,
        headers: &HeaderList,
        body: &[u8],
        method: &str,
        path: &str,
        query: Option<&str>,
        host: &str,
    ) -> (r: Result<(), Error>)
        ensures
            !self.verify_keygen_signature || self.public_key is None ==> r is Ok,
            self.verify_keygen_signature && self.public_key is Some ==> signature_outcome(
                r,
                response_signature_check(
                    self.public_key.unwrap()@,
                    headers.entries@,
                    body@,
                    method@,
                    signed_path(
                        path@,
                        match query {
                            Some(q) => Some(q@),
                            None => None,
                        },
                    ),
                    host@,
                ),
            ),
    {
        if !self.verify_keygen_signature {
            return Ok(());
        }
        let public_key = match &self.public_key {
            Some(pk) => pk,
            None => return Ok(()),
        };
        let full_path = match query {
            Some(q) => {
                let mut t = joined(path, "?");
                t.append(q);
                t
            },
            None => to_string(path),
        };
        Verifier::new(public_key.clone()).verify_keygen_signature(
            headers,
            body,
            method,
            full_path.as_str(),
            host,
        )
    }
}

proof fn lemma_url_segments(
    segments: Seq<String>,
    options: ClientOptions,
    path: Seq<char>,
    head: Seq<Seq<char>>,
    ps: Seq<Seq<char>>,
)
    requires
        ps == split_spec(path, '/'),
        segments.map_values(|s: String| s@) == head + ps,
        options.api_url@ == "https://api.keygen.sh"@ ==> head == seq![
            options.api_prefix@,
            "accounts"@,
            options.account@,
        ],
        options.api_url@ != "https://api.keygen.sh"@ ==> head == seq![options.api_prefix@],
    ensures
        segments.map_values(|s: String| s@) == url_segments(options, path),
{
}

/// The host a response signature covers.
pub fn request_host(host: Option<&str>, port: Option<u16>) -> (r: String)
    ensures
        r@ == host_of(
            match host {
                Some(h) => Some(h@),
                None => None,
            },
            port,
        ),
{
    match host {
        Some(h) => match port {
            Some(p) => {
                let mut t = joined(h, ":");
                push_decimal(&mut t, p as u64);
                t
            },
            None => to_string(h),
        },
        None => to_string("api.keygen.sh"),
    }
}

/// The error a rate-limited (429) response is reported as: the window,
/// counts and reset time from its `X-RateLimit-*` headers and the wait from
/// `Retry-After`, each 0 (or empty) when missing or unreadable.
pub fn rate_limit_error(headers: &HeaderList) -> (r: Error)
    ensures
        rate_limit_error_of(headers.entries@, r),
{
    proof {
        reveal_strlit("x-ratelimit-window");
        reveal_strlit("x-ratelimit-count");
        reveal_strlit("x-ratelimit-limit");
        reveal_strlit("x-ratelimit-remaining");
        reveal_strlit("x-ratelimit-reset");
        reveal_strlit("retry-after");
        assert(ascii_lower("x-ratelimit-window"@) =~= "x-ratelimit-window"@);
        assert(ascii_lower("x-ratelimit-count"@) =~= "x-ratelimit-count"@);
        assert(ascii_lower("x-ratelimit-limit"@) =~= "x-ratelimit-limit"@);
        assert(ascii_lower("x-ratelimit-remaining"@) =~= "x-ratelimit-remaining"@);
        assert(ascii_lower("x-ratelimit-reset"@) =~= "x-ratelimit-reset"@);
        assert(ascii_lower("retry-after"@) =~= "retry-after"@);
    }
    let window = match headers.text("x-ratelimit-window") {
        Some(w) => w,
        None => String::new(),
    };
    let retry_after = header_u64(headers, "retry-after", u64::MAX);
    let count = header_u64(headers, "x-ratelimit-count", 0xffff_ffff) as u32;
    let limit = header_u64(headers, "x-ratelimit-limit", 0xffff_ffff) as u32;
    let remaining = header_u64(headers, "x-ratelimit-remaining", 0xffff_ffff) as u32;
    let reset = header_u64(headers, "x-ratelimit-reset", u64::MAX);
    Error::RateLimitExceeded { window, count, limit, remaining, reset, retry_after }
}

/// The body of a response that carries no content.
#[derive(Debug, Clone, Copy, Default, PartialEq, Eq, Structural)]
pub struct EmptyResponse;

} // verus!
