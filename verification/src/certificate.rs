//! Signed certificates: the envelope of license and machine files.

use vstd::prelude::*;

use vstd::utf8::encode_utf8;

use crate::crypto::{base64_standard_decode, base64_standard_decoded};
use crate::errors::Error;
use crate::text::{
    all_white_space, chars_of, is_white_space, joined_lines, lemma_joined_lines,
    lemma_trim_framed, remove_char, remove_char_spec, solid_lines, strip_prefix,
    strip_prefix_spec, strip_suffix, strip_suffix_spec, string_of, trim, trim_spec,
};

verus! {

/// A signed certificate: the encoded (or encrypted) dataset, its signature
/// and the algorithm of both.
#[derive(Debug, Clone)]
pub struct Certificate {
    pub enc: String,
    pub sig: String,
    pub alg: String,
}

/// An instant, as whole seconds since the Unix epoch and the nanoseconds
/// past them.
#[derive(Debug, Clone, Copy, PartialEq, Eq, Structural)]
pub struct Timestamp {
    pub secs: i64,
    pub nanos: u32,
}

impl Timestamp {
    /// Whether `self` comes strictly after `other`.
    pub open spec fn after(self, other: Timestamp) -> bool {
        self.secs > other.secs || (self.secs == other.secs && self.nanos > other.nanos)
    }

    /// Whether `self` comes strictly after `other`.
    pub fn is_after(self, other: Timestamp) -> (r: bool)
        ensures
            r == self.after(other),
    {
        self.secs > other.secs || (self.secs == other.secs && self.nanos > other.nanos)
    }
}

/// `Utc::now()`: the current time, read from the system clock. Nothing is
/// stated of the value but that its nanoseconds stay below two seconds (a
/// leap second can take them past one).
#[verifier::external_body]
pub(crate) fn current_time() -> (r: Timestamp)
    ensures
        r.nanos < 2_000_000_000,
{
    let now = chrono::Utc::now();
    Timestamp { secs: now.timestamp(), nanos: now.timestamp_subsec_nanos() }
}

/// The text chrono writes for the UTC time `secs` seconds and `nanos`
/// nanoseconds after the Unix epoch, as RFC 3339 with `Z` and as many
/// fraction digits as the nanoseconds need (the form serde gives a
/// `DateTime<Utc>`); `None` where no `DateTime<Utc>` has those values.
pub uninterp spec fn utc_rfc3339_text(secs: int, nanos: int) -> Option<Seq<char>>;

/// `DateTime::<Utc>::from_timestamp` followed by
/// `to_rfc3339_opts(SecondsFormat::AutoSi, true)`: the RFC 3339 text of a
/// point in time, `None` where chrono has no date-time for it.
#[verifier::external_body]
pub(crate) fn utc_rfc3339(t: Timestamp) -> (r: Option<String>)
    ensures
        match r {
            Some(s) => utc_rfc3339_text(t.secs as int, t.nanos as int) == Some(s@),
            None => utc_rfc3339_text(t.secs as int, t.nanos as int) is None,
        },
{
    chrono::DateTime::<chrono::Utc>::from_timestamp(t.secs, t.nanos)
        .map(|d| d.to_rfc3339_opts(chrono::SecondsFormat::AutoSi, true))
}

/// The instant an RFC 3339 text names, as seconds and nanoseconds since
/// the Unix epoch; `None` where chrono does not accept the text.
pub uninterp spec fn rfc3339_instant(text: Seq<char>) -> Option<(int, int)>;

/// `DateTime::parse_from_rfc3339`, read back as the instant it names
/// (`timestamp` and `timestamp_subsec_nanos`).
#[verifier::external_body]
pub(crate) fn parse_rfc3339(text: &str) -> (r: Option<Timestamp>)
    ensures
        match r {
            Some(t) => rfc3339_instant(text@) == Some((t.secs as int, t.nanos as int)),
            None => rfc3339_instant(text@) is None,
        },
{
    chrono::DateTime::parse_from_rfc3339(text)
        .ok()
        .map(|d| Timestamp { secs: d.timestamp(), nanos: d.timestamp_subsec_nanos() })
}

/// When a certificate was issued, when it expires, and its time to live in
/// seconds (0 for a certificate that never expires).
#[derive(Debug, Clone, Copy)]
pub struct CertificateFileMeta {
    pub issued: Timestamp,
    pub expiry: Timestamp,
    pub ttl: i32,
}

/// Whether a certificate with `meta` has expired at `now`.
pub open spec fn certificate_expired(meta: CertificateFileMeta, now: Timestamp) -> bool {
    meta.ttl != 0 && now.after(meta.expiry)
}

/// Expiry is final: a certificate expired at one instant stays expired at
/// every later one, and one without a time to live never expires.
pub proof fn law_expiry_is_final(meta: CertificateFileMeta, now: Timestamp, later: Timestamp)
    requires
        later.after(now) || later == now,
    ensures
        certificate_expired(meta, now) ==> certificate_expired(meta, later),
        meta.ttl == 0 ==> !certificate_expired(meta, later),
{
}

/// Checks a certificate's validity period at the instant `now`: a
/// certificate with a time to live has expired once `now` is past its
/// expiry.
pub fn validate_certificate_meta_at(meta: &CertificateFileMeta, now: Timestamp) -> (r: Result<
    (),
    Error,
>)
    ensures
        certificate_expired(*meta, now) ==> r matches Err(Error::CertificateFileExpired),
        !certificate_expired(*meta, now) ==> r is Ok,
{
    if meta.ttl != 0 && now.is_after(meta.expiry) {
        Err(Error::CertificateFileExpired)
    } else {
        Ok(())
    }
}

/// Checks a certificate's validity period against the system clock. A
/// certificate without a time to live never expires.
pub fn validate_certificate_meta(meta: &CertificateFileMeta) -> (r: Result<(), Error>)
    ensures
        meta.ttl == 0 ==> r is Ok,
        r is Err ==> r matches Err(Error::CertificateFileExpired),
        exists|now: Timestamp|
            now.nanos < 2_000_000_000 && (#[trigger] certificate_expired(*meta, now) <==> r is Err),
{
    let now = current_time();
    let r = validate_certificate_meta_at(meta, now);
    assert(now.nanos < 2_000_000_000 && (certificate_expired(*meta, now) <==> r is Err));
    r
}

/// The base64 text of an armored file: `content` trimmed, found between
/// the `begin` and `end` lines, trimmed again, with its line breaks removed.
pub open spec fn armored_payload(content: Seq<char>, begin: Seq<char>, end: Seq<char>) -> Option<
    Seq<char>,
> {
    match strip_prefix_spec(trim_spec(content), begin) {
        None => None,
        Some(rest) => match strip_suffix_spec(rest, end) {
            None => None,
            Some(inner) => Some(remove_char_spec(trim_spec(inner), '\n')),
        },
    }
}

/// Why the payload of an armored file could not be read.
#[derive(Debug)]
pub enum ArmorError {
    /// The content is not enclosed in the expected begin and end lines.
    Missing,
    /// The payload is not padded standard base64; the decoder's message.
    Undecodable(String),
}

/// The decoded payload of an armored file.
pub fn armored_bytes(content: &str, begin: &str, end: &str) -> (r: Result<Vec<u8>, ArmorError>)
    ensures
        match armored_payload(content@, begin@, end@) {
            None => r matches Err(ArmorError::Missing),
            Some(p) => match base64_standard_decoded(encode_utf8(p)) {
                None => r matches Err(ArmorError::Undecodable(_)),
                Some(b) => r matches Ok(v) && v@ == b,
            },
        },
{
    let text = chars_of(content);
    let trimmed = trim(text.as_slice());
    let b = chars_of(begin);
    let e = chars_of(end);
    let rest = match strip_prefix(trimmed.as_slice(), b.as_slice()) {
        Some(r) => r,
        None => return Err(ArmorError::Missing),
    };
    let inner = match strip_suffix(rest.as_slice(), e.as_slice()) {
        Some(i) => i,
        None => return Err(ArmorError::Missing),
    };
    let inner_trimmed = trim(inner.as_slice());
    let payload = remove_char(inner_trimmed.as_slice(), '\n');
    let payload_text = string_of(payload.as_slice());
    match base64_standard_decode(payload_text.as_str().as_bytes()) {
        Ok(v) => Ok(v),
        Err(m) => Err(ArmorError::Undecodable(m)),
    }
}

/// An armored file whose payload is written over lines, each without white
/// space, between its `begin` and `end` lines (with any white space around
/// the whole): its payload is the lines put together, without the line
/// breaks between them.
pub proof fn lemma_armored_payload_of_lines(
    lead: Seq<char>,
    begin: Seq<char>,
    lines: Seq<Seq<char>>,
    end: Seq<char>,
    tail: Seq<char>,
)
    requires
        begin.len() > 0,
        !is_white_space(begin[0]),
        end.len() > 0,
        !is_white_space(end.last()),
        lines.len() > 0,
        solid_lines(lines),
        all_white_space(lead),
        all_white_space(tail),
    ensures
        armored_payload(
            lead + begin + seq!['\n'] + joined_lines(lines) + seq!['\n'] + end + tail,
            begin,
            end,
        ) == Some(lines.flatten()),
{
    let nl = seq!['\n'];
    let j = joined_lines(lines);
    lemma_joined_lines(lines);
    let framed = begin + nl + j + nl + end;
    assert(framed[0] == begin[0]);
    assert(framed.last() == end.last());
    assert(lead + begin + nl + j + nl + end + tail =~= lead + framed + tail);
    lemma_trim_framed(lead, framed, tail);
    assert(framed.take(begin.len() as int) =~= begin);
    let rest = framed.skip(begin.len() as int);
    assert(rest =~= nl + j + nl + end);
    assert(rest.skip(rest.len() - end.len()) =~= end);
    let inner = rest.take(rest.len() - end.len());
    assert(inner =~= nl + j + nl);
    assert(all_white_space(nl)) by {
        assert(is_white_space(nl[0]));
    }
    lemma_trim_framed(nl, j, nl);
}

} // verus!
