//! The products endpoint: its query URL and the request that fetches it.
use vstd::prelude::*;
use vstd::string::StringExecFns;
use reqwest::header::HeaderMap;
use crate::client::TwelveClient;
use crate::headers::{headermap, is_signed_header_set, HeaderError};
use crate::outside::{header_entries, is_header_text};
use crate::text::{signed_decimal, signed_decimal_string};

verus! {

/// A product that is added along with another one, and how many of it.
#[derive(Debug, Clone, Copy, PartialEq, Eq, Structural, Default)]
pub struct AutomaticSupplement {
    pub product_id: i64,
    pub count: i64,
}

pub open spec fn bool_text(b: bool) -> Seq<char> {
    if b {
        "true"@
    } else {
        "false"@
    }
}

/// The endpoint path that requests for products are signed with.
pub open spec fn products_path() -> Seq<char> {
    "/api/v1/Products"@
}

/// The URL that lists products, with the sub-client filter and the
/// deleted-lines switch in its query when they are given.
pub open spec fn products_url_of(deletedlines: Option<bool>, subclientid: Option<i32>) -> Seq<
    char,
> {
    let base = "https://clientapi.twelve.eu/api/v1/Products"@;
    match (deletedlines, subclientid) {
        (Some(d), Some(s)) => base + "?filterSubClientId="@ + signed_decimal(s as int)
            + "&includeDeletedLines="@ + bool_text(d),
        (Some(d), None) => base + "?includeDeletedLines="@ + bool_text(d),
        (None, Some(s)) => base + "?filterSubClientId="@ + signed_decimal(s as int),
        (None, None) => base,
    }
}

fn bool_str(b: bool) -> (r: &'static str)
    ensures
        r@ == bool_text(b),
{
    if b {
        "true"
    } else {
        "false"
    }
}

/// The URL that lists products; `deletedlines` asks for deleted products as
/// well, `subclientid` keeps those of one sub-client.
pub fn products_url(deletedlines: Option<bool>, subclientid: Option<i32>) -> (r: String)
    ensures
        r@ == products_url_of(deletedlines, subclientid),
{
    let mut url = String::from_str("https://clientapi.twelve.eu/api/v1/Products");
    match (deletedlines, subclientid) {
        (Some(d), Some(s)) => {
            url.append("?filterSubClientId=");
            url.append(signed_decimal_string(s).as_str());
            url.append("&includeDeletedLines=");
            url.append(bool_str(d));
        },
        (Some(d), None) => {
            url.append("?includeDeletedLines=");
            url.append(bool_str(d));
        },
        (None, Some(s)) => {
            url.append("?filterSubClientId=");
            url.append(signed_decimal_string(s).as_str());
        },
        (None, None) => {},
    }
    url
}

/// The URL and the authentication headers of a request that lists products.
pub fn products_request(
    client: TwelveClient,
    deletedlines: Option<bool>,
    subclientid: Option<i32>,
) -> (r: Result<(String, HeaderMap), HeaderError>)
    ensures
        r is Ok ==> r->Ok_0.0@ == products_url_of(deletedlines, subclientid)
            && is_signed_header_set(header_entries(r->Ok_0.1), products_path(), client),
        is_header_text(client.publickey@) ==> (r is Ok || r->Err_0 == HeaderError::YearOutOfRange),
        !is_header_text(client.publickey@) ==> r is Err,
        r is Err && r->Err_0 == HeaderError::InvalidHeaderValue ==> !is_header_text(
            client.publickey@,
        ),
{
    let url = products_url(deletedlines, subclientid);
    match headermap(String::from_str("/api/v1/Products"), client) {
        Ok(headers) => Ok((url, headers)),
        Err(e) => Err(e),
    }
}

} // verus!
