//! Request tokens and request signatures.
use vstd::prelude::*;
use crate::outside::{ascii_upper, is_lower_hex, sha256_hex, sha256_hex_of, to_ascii_uppercase};
use crate::text::{padded_decimal, push_padded_decimal};

verus! {

/// A calendar day: year, month 1 to 12, day of the month 1 to 31.
pub struct CalendarDate {
    pub year: i32,
    pub month: u32,
    pub day: u32,
}

impl CalendarDate {
    pub open spec fn wf(&self) -> bool {
        1 <= self.month <= 12 && 1 <= self.day <= 31
    }
}

} // verus!

verus! {

/// The date stamp of a request token: four digits of the year, then two of
/// the day of the month, then two of the month.
pub open spec fn date_stamp_of(d: CalendarDate) -> Seq<char> {
    padded_decimal(d.year as nat, 4) + padded_decimal(d.day as nat, 2) + padded_decimal(
        d.month as nat,
        2,
    )
}

/// Years that four digits can render.
pub open spec fn year_in_range(d: CalendarDate) -> bool {
    0 <= d.year <= 9999
}

/// A request token: the date stamp followed by the random characters.
pub open spec fn request_token_of(d: CalendarDate, random: Seq<char>) -> Seq<char> {
    date_stamp_of(d) + random
}

/// A request signature: the uppercased SHA-256 hex digest of the path, the
/// request token and the private key, joined without separators.
pub open spec fn request_signature_of(
    path: Seq<char>,
    token: Seq<char>,
    privatekey: Seq<char>,
) -> Seq<char> {
    ascii_upper(sha256_hex_of(path + token + privatekey))
}

pub open spec fn is_upper_hex(c: char) -> bool {
    ('0' <= c && c <= '9') || ('A' <= c && c <= 'F')
}

/// The date stamp of `d`, eight digits.
pub fn date_stamp(d: &CalendarDate) -> (r: String)
    requires
        year_in_range(*d),
    ensures
        r@ == date_stamp_of(*d),
{
    let mut out = String::new();
    push_padded_decimal(&mut out, d.year as u32, 4);
    push_padded_decimal(&mut out, d.day, 2);
    push_padded_decimal(&mut out, d.month, 2);
    proof {
        assert(out@ =~= date_stamp_of(*d));
    }
    out
}

/// The request token made of the date stamp of `d` and the characters of `random`.
pub fn request_token(d: &CalendarDate, random: &str) -> (r: String)
    requires
        year_in_range(*d),
    ensures
        r@ == request_token_of(*d, random@),
{
    let mut out = date_stamp(d);
    out.append(random);
    out
}

/// The signature of a request to `path` carrying `token`, keyed by `privatekey`.
pub fn request_signature(path: &str, token: &str, privatekey: &str) -> (r: String)
    ensures
        r@ == request_signature_of(path@, token@, privatekey@),
        r@.len() == 64,
        forall|i: int| 0 <= i < 64 ==> is_upper_hex(#[trigger] r@[i]),
{
    let mut message = String::new();
    message.append(path);
    message.append(token);
    message.append(privatekey);
    let digest = sha256_hex(message.as_str());
    let r = to_ascii_uppercase(digest.as_str());
    proof {
        assert(message@ =~= path@ + token@ + privatekey@);
        assert forall|i: int| 0 <= i < 64 implies is_upper_hex(#[trigger] r@[i]) by {
            assert(is_lower_hex(digest@[i]));
        }
    }
    r
}

} // verus!
