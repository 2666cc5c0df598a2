//! The calls this library makes into other crates and into std, each with the
//! contract that the called code is relied on to meet.
use vstd::prelude::*;
use vstd::utf8::encode_utf8;
use chrono::Datelike;
use rand::Rng;
use reqwest::header::{HeaderMap, HeaderValue, InvalidHeaderValue};
use crate::token::CalendarDate;

verus! {

/// Lowercase hexadecimal digits, as `hex::encode` writes them.
pub open spec fn is_lower_hex(c: char) -> bool {
    ('0' <= c && c <= '9') || ('a' <= c && c <= 'f')
}

/// A letter `A`-`Z`, `a`-`z` or a digit `0`-`9`.
pub open spec fn is_alphanumeric(c: char) -> bool {
    ('A' <= c && c <= 'Z') || ('a' <= c && c <= 'z') || ('0' <= c && c <= '9')
}

/// `c` with an ASCII lowercase letter mapped to its uppercase form.
pub open spec fn upper_char(c: char) -> char {
    if 'a' <= c && c <= 'z' {
        ((c as u32) - 32) as char
    } else {
        c
    }
}

pub open spec fn ascii_upper(s: Seq<char>) -> Seq<char> {
    s.map_values(|c: char| upper_char(c))
}

/// A character whose UTF-8 bytes may all stand in an HTTP header value:
/// visible ASCII, space, tab, or any character outside ASCII.
pub open spec fn is_header_char(c: char) -> bool {
    ((c as u32) >= 32 && (c as u32) != 127) || c == '\t'
}

pub open spec fn is_header_text(s: Seq<char>) -> bool {
    forall|i: int| 0 <= i < s.len() ==> is_header_char(#[trigger] s[i])
}

/// The header-name text of a standard or custom name written in lowercase
/// ASCII letters.
pub open spec fn is_lower_name(s: Seq<char>) -> bool {
    &&& 0 < s.len() <= 64
    &&& forall|i: int| 0 <= i < s.len() ==> 'a' <= #[trigger] s[i] && s[i] <= 'z'
}

pub open spec fn no_headers() -> Map<Seq<char>, Seq<u8>> {
    Map::empty()
}

/// The lowercase hexadecimal SHA-256 digest of the UTF-8 bytes of `s`.
pub uninterp spec fn sha256_hex_of(s: Seq<char>) -> Seq<char>;

/// The entries of a header map: each lowercase header name with the bytes of its value.
pub uninterp spec fn header_entries(m: HeaderMap) -> Map<Seq<char>, Seq<u8>>;

/// The bytes that a header value holds.
pub uninterp spec fn header_value_bytes(v: HeaderValue) -> Seq<u8>;

#[verifier::external_type_specification]
#[verifier::external_body]
#[verifier::reject_recursive_types(T)]
pub struct ExHeaderMap<T>(reqwest::header::HeaderMap<T>);

#[verifier::external_type_specification]
#[verifier::external_body]
pub struct ExHeaderValue(reqwest::header::HeaderValue);

#[verifier::external_type_specification]
#[verifier::external_body]
pub struct ExInvalidHeaderValue(reqwest::header::InvalidHeaderValue);

/// Relies on sha256::digest: hex::encode of the 32-byte SHA-256 digest of the
/// string's UTF-8 bytes, in lowercase.
#[verifier::external_body]
pub(crate) fn sha256_hex(s: &str) -> (r: String)
    ensures
        r@ == sha256_hex_of(s@),
        r@.len() == 64,
        forall|i: int| 0 <= i < 64 ==> is_lower_hex(#[trigger] r@[i]),
{
    sha256::digest(s)
}

/// Relies on str::to_ascii_uppercase: ASCII `a`-`z` become `A`-`Z`, every other
/// character is kept.
#[verifier::external_body]
pub(crate) fn to_ascii_uppercase(s: &str) -> (r: String)
    ensures
        r@ == ascii_upper(s@),
{
    s.to_ascii_uppercase()
}

/// Relies on rand's Alphanumeric distribution drawn from the thread-local
/// generator: each character is one of `A`-`Z`, `a`-`z`, `0`-`9`.
#[verifier::external_body]
pub(crate) fn random_alphanumeric(len: usize) -> (r: String)
    ensures
        r@.len() == len,
        forall|i: int| 0 <= i < len ==> is_alphanumeric(#[trigger] r@[i]),
{
    rand::thread_rng().sample_iter(&rand::distributions::Alphanumeric).take(len).map(char::from).collect()
}

/// Relies on chrono::Utc::now and Datelike: the month is 1 to 12 and the day
/// of the month 1 to 31.
#[verifier::external_body]
pub(crate) fn current_utc_date() -> (r: CalendarDate)
    ensures
        r.wf(),
{
    let today = chrono::Utc::now().date_naive();
    CalendarDate { year: today.year(), month: today.month(), day: today.day() }
}

/// Relies on http's HeaderMap::new: the map starts empty.
#[verifier::external_body]
pub(crate) fn new_header_map() -> (r: HeaderMap)
    ensures
        header_entries(r) == no_headers(),
{
    HeaderMap::new()
}

/// Relies on http's HeaderValue::from_str: it accepts a string exactly when
/// every byte is a tab or at least 32 and not 127, and then holds its bytes.
#[verifier::external_body]
pub(crate) fn parse_header_value(s: &str) -> (r: Result<HeaderValue, InvalidHeaderValue>)
    ensures
        r is Ok <==> is_header_text(s@),
        r is Ok ==> header_value_bytes(r->Ok_0) == encode_utf8(s@),
{
    HeaderValue::from_str(s)
}

/// Relies on http's HeaderMap::insert with a static name: the name is
/// lowercased (a no-op here) and its value replaced. It panics only when the
/// map would outgrow its index table of 32768 slots, kept three quarters full
/// at most; a map of fewer than 1024 names is far from that.
#[verifier::external_body]
pub(crate) fn insert_header(m: &mut HeaderMap, name: &'static str, v: HeaderValue)
    requires
        is_lower_name(name@),
        header_entries(*old(m)).dom().finite(),
        header_entries(*old(m)).dom().len() < 1024,
    ensures
        header_entries(*final(m)) == header_entries(*old(m)).insert(name@, header_value_bytes(v)),
{
    m.insert(name, v);
}

} // verus!
