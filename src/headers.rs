//! The authentication headers that every request to the Twelve API carries.
use vstd::prelude::*;
use vstd::string::StringExecFns;
use vstd::utf8::encode_utf8;
use reqwest::header::HeaderMap;
use crate::client::TwelveClient;
use crate::outside::{
    current_utc_date, header_entries, insert_header, is_alphanumeric, is_header_char,
    is_header_text, new_header_map, parse_header_value, random_alphanumeric,
};
use crate::text::{
    decimal, is_digit, lemma_decimal_digits, lemma_padded_decimal_digits, padded_decimal,
    signed_decimal, signed_decimal_string,
};
use crate::token::{
    date_stamp_of, is_upper_hex, request_signature, request_signature_of, request_token,
    request_token_of, year_in_range, CalendarDate,
};

verus! {

/// Why a header set could not be built.
#[derive(Debug, PartialEq, Eq, Structural, Clone, Copy)]
pub enum HeaderError {
    /// A value holds a byte that an HTTP header value may not hold.
    InvalidHeaderValue,
    /// The current year has no four-digit rendering for the request token.
    YearOutOfRange,
}

/// Number of random characters in a request token.
pub const RANDOM_LEN: usize = 30;

/// The header set of a request to `path` by `client` that carries `token`,
/// each lowercase header name with the bytes of its value.
pub open spec fn expected_headers(
    path: Seq<char>,
    client: TwelveClient,
    token: Seq<char>,
) -> Map<Seq<char>, Seq<u8>> {
    Map::empty().insert("accept"@, encode_utf8("text/plain"@)).insert(
        "publicapikey"@,
        encode_utf8(client.publickey@),
    ).insert("requesttoken"@, encode_utf8(token)).insert(
        "requestsignature"@,
        encode_utf8(request_signature_of(path, token, client.privatekey@)),
    ).insert("clientid"@, encode_utf8(signed_decimal(client.clientid as int)))
}

proof fn lemma_header_text_concat(a: Seq<char>, b: Seq<char>)
    ensures
        is_header_text(a + b) <==> is_header_text(a) && is_header_text(b),
{
    if is_header_text(a) && is_header_text(b) {
        assert forall|i: int| 0 <= i < (a + b).len() implies is_header_char(#[trigger] (a + b)[i]) by {
            if i >= a.len() {
                assert((a + b)[i] == b[i - a.len()]);
            }
        }
    }
    if is_header_text(a + b) {
        assert forall|i: int| 0 <= i < a.len() implies is_header_char(#[trigger] a[i]) by {
            assert((a + b)[i] == a[i]);
        }
        assert forall|i: int| 0 <= i < b.len() implies is_header_char(#[trigger] b[i]) by {
            assert((a + b)[i + a.len()] == b[i]);
        }
    }
}

proof fn lemma_date_stamp_header_text(d: CalendarDate)
    ensures
        is_header_text(date_stamp_of(d)),
        date_stamp_of(d).len() == 8,
        forall|i: int| 0 <= i < 8 ==> #[trigger] is_digit(date_stamp_of(d)[i]),
{
    let y = padded_decimal(d.year as nat, 4);
    let dd = padded_decimal(d.day as nat, 2);
    let m = padded_decimal(d.month as nat, 2);
    lemma_padded_decimal_digits(d.year as nat, 4);
    lemma_padded_decimal_digits(d.day as nat, 2);
    lemma_padded_decimal_digits(d.month as nat, 2);
    assert forall|i: int| 0 <= i < 8 implies #[trigger] is_digit(date_stamp_of(d)[i]) by {
        if i < 4 {
            assert(date_stamp_of(d)[i] == y[i]);
        } else if i < 6 {
            assert(date_stamp_of(d)[i] == dd[i - 4]);
        } else {
            assert(date_stamp_of(d)[i] == m[i - 6]);
        }
    }
}

proof fn lemma_signed_decimal_header_text(i: int)
    ensures
        is_header_text(signed_decimal(i)),
{
    if i < 0 {
        lemma_decimal_digits((-i) as nat);
        lemma_header_text_concat(seq!['-'], decimal((-i) as nat));
    } else {
        lemma_decimal_digits(i as nat);
    }
}

/// Sixty-four uppercase hexadecimal digits.
pub open spec fn is_signature_text(s: Seq<char>) -> bool {
    s.len() == 64 && forall|i: int| 0 <= i < 64 ==> is_upper_hex(#[trigger] s[i])
}

/// Characters that are all letters or digits.
pub open spec fn is_alphanumeric_text(s: Seq<char>) -> bool {
    forall|i: int| 0 <= i < s.len() ==> is_alphanumeric(#[trigger] s[i])
}

/// `h` is the header set of a request to `path` by `client` whose token is a
/// date stamp and `RANDOM_LEN` letters or digits, and whose signature is
/// sixty-four uppercase hexadecimal digits.
pub open spec fn is_signed_header_set(
    h: Map<Seq<char>, Seq<u8>>,
    path: Seq<char>,
    client: TwelveClient,
) -> bool {
    exists|d: CalendarDate, random: Seq<char>|
        {
            &&& year_in_range(d)
            &&& random.len() == RANDOM_LEN
            &&& is_alphanumeric_text(random)
            &&& is_signature_text(
                request_signature_of(path, request_token_of(d, random), client.privatekey@),
            )
            &&& h == #[trigger] expected_headers(path, client, request_token_of(d, random))
        }
}

/// Builds the header set of a request to `path` by `client`, with the date
/// stamp of `date` and the characters of `random` in its request token.
/// Nothing is returned but a complete header set or an error.
pub fn build_headers(path: &str, client: &TwelveClient, date: &CalendarDate, random: &str) -> (r:
    Result<HeaderMap, HeaderError>)
    ensures
        !year_in_range(*date) ==> r == Err::<HeaderMap, HeaderError>(HeaderError::YearOutOfRange),
        year_in_range(*date) ==> (r is Ok <==> is_header_text(client.publickey@) && is_header_text(
            random@,
        )),
        year_in_range(*date) && r is Err ==> r->Err_0 == HeaderError::InvalidHeaderValue,
        r is Ok ==> header_entries(r->Ok_0) == expected_headers(
            path@,
            *client,
            request_token_of(*date, random@),
        ),
        r is Ok ==> is_signature_text(
            request_signature_of(path@, request_token_of(*date, random@), client.privatekey@),
        ),
{
    if date.year < 0 || date.year > 9999 {
        return Err(HeaderError::YearOutOfRange);
    }
    let token = request_token(date, random);
    let signature = request_signature(path, token.as_str(), client.privatekey.as_str());
    let clientid = signed_decimal_string(client.clientid);
    proof {
        reveal_strlit("text/plain");
        reveal_strlit("accept");
        reveal_strlit("publicapikey");
        reveal_strlit("requesttoken");
        reveal_strlit("requestsignature");
        reveal_strlit("clientid");
        lemma_date_stamp_header_text(*date);
        lemma_header_text_concat(date_stamp_of(*date), random@);
        assert forall|i: int| 0 <= i < signature@.len() implies is_header_char(
            #[trigger] signature@[i],
        ) by {
            assert(is_upper_hex(signature@[i]));
        }
        lemma_signed_decimal_header_text(client.clientid as int);
    }
    let mut headers = new_header_map();
    let accept = match parse_header_value("text/plain") {
        Ok(v) => v,
        Err(_) => return Err(HeaderError::InvalidHeaderValue),
    };
    insert_header(&mut headers, "accept", accept);
    let publickey = match parse_header_value(client.publickey.as_str()) {
        Ok(v) => v,
        Err(_) => return Err(HeaderError::InvalidHeaderValue),
    };
    insert_header(&mut headers, "publicapikey", publickey);
    let requesttoken = match parse_header_value(token.as_str()) {
        Ok(v) => v,
        Err(_) => return Err(HeaderError::InvalidHeaderValue),
    };
    insert_header(&mut headers, "requesttoken", requesttoken);
    let requestsignature = match parse_header_value(signature.as_str()) {
        Ok(v) => v,
        Err(_) => return Err(HeaderError::InvalidHeaderValue),
    };
    insert_header(&mut headers, "requestsignature", requestsignature);
    let clientid_value = match parse_header_value(clientid.as_str()) {
        Ok(v) => v,
        Err(_) => return Err(HeaderError::InvalidHeaderValue),
    };
    insert_header(&mut headers, "clientid", clientid_value);
    proof {
        assert(header_entries(headers) =~= expected_headers(path@, *client, token@));
    }
    Ok(headers)
}


/// Create a headermap: the authentication headers of a request to `path` by
/// `client`, dated today (UTC) and with a fresh random request token.
/// It fails rather than return a partial set: with `InvalidHeaderValue` when the
/// public key cannot stand in a header value, with `YearOutOfRange` when the
/// current year has no four-digit rendering.
pub fn headermap(path: String, client: TwelveClient) -> (r: Result<HeaderMap, HeaderError>)
    ensures
        r is Ok ==> is_signed_header_set(header_entries(r->Ok_0), path@, client),
        is_header_text(client.publickey@) ==> (r is Ok || r->Err_0 == HeaderError::YearOutOfRange),
        !is_header_text(client.publickey@) ==> r is Err,
        r is Err && r->Err_0 == HeaderError::InvalidHeaderValue ==> !is_header_text(
            client.publickey@,
        ),
{
    let date = current_utc_date();
    let random = random_alphanumeric(RANDOM_LEN);
    let r = build_headers(path.as_str(), &client, &date, random.as_str());
    proof {
        if r is Ok {
            assert(is_alphanumeric_text(random@));
            assert(header_entries(r->Ok_0) == expected_headers(
                path@,
                client,
                request_token_of(date, random@),
            ));
        }
        if year_in_range(date) {
            assert(is_header_text(random@)) by {
                assert forall|i: int| 0 <= i < random@.len() implies is_header_char(
                    #[trigger] random@[i],
                ) by {
                    assert(is_alphanumeric(random@[i]));
                }
            }
        }
    }
    r
}

proof fn lemma_header_names_distinct()
    ensures
        "accept"@ != "publicapikey"@,
        "accept"@ != "requesttoken"@,
        "accept"@ != "requestsignature"@,
        "accept"@ != "clientid"@,
        "publicapikey"@ != "requesttoken"@,
        "publicapikey"@ != "requestsignature"@,
        "publicapikey"@ != "clientid"@,
        "requesttoken"@ != "requestsignature"@,
        "requesttoken"@ != "clientid"@,
        "requestsignature"@ != "clientid"@,
{
    reveal_strlit("accept");
    reveal_strlit("publicapikey");
    reveal_strlit("requesttoken");
    reveal_strlit("requestsignature");
    reveal_strlit("clientid");
    assert("accept"@.len() == 6);
    assert("publicapikey"@.len() == 12);
    assert("requesttoken"@.len() == 12);
    assert("requestsignature"@.len() == 16);
    assert("clientid"@.len() == 8);
    assert("publicapikey"@[0] != "requesttoken"@[0]);
}

/// The five header names, lowercase as a header map keeps them.
pub open spec fn header_names() -> Set<Seq<char>> {
    set!["accept"@, "publicapikey"@, "requesttoken"@, "requestsignature"@, "clientid"@]
}

proof fn lemma_expected_headers(path: Seq<char>, client: TwelveClient, token: Seq<char>)
    ensures
        expected_headers(path, client, token).dom() == header_names(),
        header_names().len() == 5,
        expected_headers(path, client, token)["publicapikey"@] == encode_utf8(client.publickey@),
        expected_headers(path, client, token)["clientid"@] == encode_utf8(
            signed_decimal(client.clientid as int),
        ),
        expected_headers(path, client, token)["requesttoken"@] == encode_utf8(token),
        expected_headers(path, client, token)["requestsignature"@] == encode_utf8(
            request_signature_of(path, token, client.privatekey@),
        ),
{
    assert(expected_headers(path, client, token).dom() =~= header_names());
    lemma_header_names_distinct();
}

/// A request token of a date with a four-digit year and `RANDOM_LEN` random
/// letters or digits is thirty-eight letters or digits, the first eight of
/// them digits.
proof fn lemma_request_token_format(d: CalendarDate, random: Seq<char>)
    requires
        year_in_range(d),
        random.len() == RANDOM_LEN,
        is_alphanumeric_text(random),
    ensures
        request_token_of(d, random).len() == 38,
        is_alphanumeric_text(request_token_of(d, random)),
        forall|i: int| 0 <= i < 8 ==> is_digit(#[trigger] request_token_of(d, random)[i]),
{
    lemma_date_stamp_header_text(d);
    let t = request_token_of(d, random);
    assert forall|i: int| 0 <= i < t.len() implies is_alphanumeric(#[trigger] t[i]) by {
        if i < 8 {
            assert(t[i] == date_stamp_of(d)[i]);
            assert(is_digit(date_stamp_of(d)[i]));
        } else {
            assert(t[i] == random[i - 8]);
        }
    }
    assert forall|i: int| 0 <= i < 8 implies is_digit(#[trigger] t[i]) by {
        assert(t[i] == date_stamp_of(d)[i]);
    }
}

/// A header set built for any request holds exactly five headers: accept,
/// PublicAPIKey, RequestToken, RequestSignature and ClientId, under their
/// lowercase names.
pub proof fn lemma_five_headers(h: Map<Seq<char>, Seq<u8>>, path: Seq<char>, client: TwelveClient)
    requires
        is_signed_header_set(h, path, client),
    ensures
        h.dom() == header_names(),
        h.dom().len() == 5,
{
    let (d, random) = choose|d: CalendarDate, random: Seq<char>|
        {
            &&& year_in_range(d)
            &&& random.len() == RANDOM_LEN
            &&& is_alphanumeric_text(random)
            &&& is_signature_text(
                request_signature_of(path, request_token_of(d, random), client.privatekey@),
            )
            &&& h == #[trigger] expected_headers(path, client, request_token_of(d, random))
        };
    lemma_expected_headers(path, client, request_token_of(d, random));
}

/// The public key and the client id are sent as given: the public key's own
/// characters, unchanged in case, and the client id in decimal.
pub proof fn lemma_credentials_verbatim(
    h: Map<Seq<char>, Seq<u8>>,
    path: Seq<char>,
    client: TwelveClient,
)
    requires
        is_signed_header_set(h, path, client),
    ensures
        h["publicapikey"@] == encode_utf8(client.publickey@),
        h["clientid"@] == encode_utf8(signed_decimal(client.clientid as int)),
{
    let (d, random) = choose|d: CalendarDate, random: Seq<char>|
        {
            &&& year_in_range(d)
            &&& random.len() == RANDOM_LEN
            &&& is_alphanumeric_text(random)
            &&& is_signature_text(
                request_signature_of(path, request_token_of(d, random), client.privatekey@),
            )
            &&& h == #[trigger] expected_headers(path, client, request_token_of(d, random))
        };
    lemma_expected_headers(path, client, request_token_of(d, random));
}

/// The request token is thirty-eight letters or digits, an eight-digit date
/// stamp first; the request signature is the uppercased SHA-256 hex digest
/// of the path, that token and the private key, sixty-four characters of
/// `0`-`9` and `A`-`F`.
pub proof fn lemma_token_and_signature_format(
    h: Map<Seq<char>, Seq<u8>>,
    path: Seq<char>,
    client: TwelveClient,
)
    requires
        is_signed_header_set(h, path, client),
    ensures
        exists|token: Seq<char>|
            {
                &&& token.len() == 38
                &&& is_alphanumeric_text(token)
                &&& forall|i: int| 0 <= i < 8 ==> is_digit(#[trigger] token[i])
                &&& h["requesttoken"@] == encode_utf8(token)
                &&& is_signature_text(request_signature_of(path, token, client.privatekey@))
                &&& h["requestsignature"@] == #[trigger] encode_utf8(
                    request_signature_of(path, token, client.privatekey@),
                )
            },
{
    let (d, random) = choose|d: CalendarDate, random: Seq<char>|
        {
            &&& year_in_range(d)
            &&& random.len() == RANDOM_LEN
            &&& is_alphanumeric_text(random)
            &&& is_signature_text(
                request_signature_of(path, request_token_of(d, random), client.privatekey@),
            )
            &&& h == #[trigger] expected_headers(path, client, request_token_of(d, random))
        };
    let token = request_token_of(d, random);
    lemma_expected_headers(path, client, token);
    lemma_request_token_format(d, random);
}

impl TwelveClient {
    /// The authentication headers of a request to the `/group` endpoint.
    pub fn header(self) -> (r: Result<HeaderMap, HeaderError>)
        ensures
            r is Ok ==> is_signed_header_set(header_entries(r->Ok_0), "/group"@, self),
            is_header_text(self.publickey@) ==> (r is Ok || r->Err_0
                == HeaderError::YearOutOfRange),
            !is_header_text(self.publickey@) ==> r is Err,
            r is Err && r->Err_0 == HeaderError::InvalidHeaderValue ==> !is_header_text(
                self.publickey@,
            ),
    {
        headermap(String::from_str("/group"), self)
    }
}

} // verus!
