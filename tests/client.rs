use twelve_client::headers::build_headers;
use twelve_client::products::{products_request, products_url, AutomaticSupplement};
use twelve_client::text::signed_decimal_string;
use twelve_client::token::{date_stamp, request_signature, request_token, CalendarDate};
use twelve_client::{headermap, HeaderError, TwelveClient};

fn header_text(h: &reqwest::header::HeaderMap, name: &str) -> String {
    h.get(name).unwrap().to_str().unwrap().to_string()
}

#[test]
fn buildingaclientworks() {
    let client = TwelveClient::new("PRIVATEKEY".to_string(), "PUBLICKEY".to_string(), 6404);
    assert_eq!(
        client,
        TwelveClient {
            privatekey: "PRIVATEKEY".to_string(),
            publickey: "PUBLICKEY".to_string(),
            clientid: 6404
        }
    );
}

#[test]
fn headermaptest() {
    let result = headermap(
        "/test".to_string(),
        TwelveClient {
            privatekey: "privatekey".to_string(),
            publickey: "publickey".to_string(),
            clientid: 6404,
        },
    );
    assert_eq!(true, result.is_ok());
}

#[test]
fn header_set_has_exactly_five_headers() {
    let client = TwelveClient::new("privatekey".to_string(), "publickey".to_string(), 6404);
    let h = headermap("/test".to_string(), client).unwrap();
    assert_eq!(h.len(), 5);
    for name in ["accept", "PublicAPIKey", "RequestToken", "RequestSignature", "ClientId"] {
        assert!(h.contains_key(name), "missing {name}");
    }
    assert_eq!(header_text(&h, "accept"), "text/plain");
}

#[test]
fn signature_is_sixty_four_uppercase_hex_digits() {
    let client = TwelveClient::new("privatekey".to_string(), "publickey".to_string(), 6404);
    let h = headermap("/test".to_string(), client).unwrap();
    let sig = header_text(&h, "RequestSignature");
    assert_eq!(sig.len(), 64);
    assert!(sig.chars().all(|c| c.is_ascii_digit() || ('A'..='F').contains(&c)));
}

#[test]
fn token_is_date_stamp_and_thirty_alphanumerics() {
    let client = TwelveClient::new("privatekey".to_string(), "publickey".to_string(), 6404);
    let h = headermap("/test".to_string(), client).unwrap();
    let token = header_text(&h, "RequestToken");
    assert_eq!(token.len(), 38);
    assert!(token.chars().all(|c| c.is_ascii_alphanumeric()));
    assert!(token[..8].chars().all(|c| c.is_ascii_digit()));
    let today = chrono::Utc::now().format("%Y%d%m").to_string();
    assert_eq!(&token[..8], today.as_str());
}

#[test]
fn signature_matches_token_path_and_key() {
    let client = TwelveClient::new("privatekey".to_string(), "publickey".to_string(), 6404);
    let h = headermap("/test".to_string(), client).unwrap();
    let token = header_text(&h, "RequestToken");
    let sig = header_text(&h, "RequestSignature");
    let expected = sha256::digest(format!("/test{token}privatekey")).to_ascii_uppercase();
    assert_eq!(sig, expected);
}

#[test]
fn two_calls_give_different_tokens_and_signatures() {
    let a = headermap(
        "/test".to_string(),
        TwelveClient::new("k".to_string(), "p".to_string(), 1),
    )
    .unwrap();
    let b = headermap(
        "/test".to_string(),
        TwelveClient::new("k".to_string(), "p".to_string(), 1),
    )
    .unwrap();
    assert_ne!(header_text(&a, "RequestToken"), header_text(&b, "RequestToken"));
    assert_ne!(header_text(&a, "RequestSignature"), header_text(&b, "RequestSignature"));
}

#[test]
fn signature_of_fixed_inputs() {
    let sig = request_signature("/test", "ABC", "key");
    assert_eq!(sig, "83F94B5602CE9E6DFF406D14C016B2D7766471F576D54D9BB0DC4FA7FD41C058");
}

#[test]
fn credentials_are_sent_verbatim() {
    let client = TwelveClient::new("privatekey".to_string(), "PubLicKey".to_string(), -6404);
    let h = headermap("/test".to_string(), client).unwrap();
    assert_eq!(header_text(&h, "PublicAPIKey"), "PubLicKey");
    assert_eq!(header_text(&h, "ClientId"), "-6404");
}

#[test]
fn fixed_date_and_random_give_exact_headers() {
    let client = TwelveClient::new("privatekey".to_string(), "publickey".to_string(), 6404);
    let date = CalendarDate { year: 2025, month: 10, day: 18 };
    let h = build_headers("/group", &client, &date, "abcdefghijABCDEFGHIJ0123456789").unwrap();
    assert_eq!(h.len(), 5);
    assert_eq!(header_text(&h, "accept"), "text/plain");
    assert_eq!(header_text(&h, "publicapikey"), "publickey");
    assert_eq!(header_text(&h, "requesttoken"), "20251810abcdefghijABCDEFGHIJ0123456789");
    assert_eq!(
        header_text(&h, "requestsignature"),
        "30A4E953641A6DB7FCE89BAE468F493C08EF38785454E3497957858612F80A85"
    );
    assert_eq!(header_text(&h, "clientid"), "6404");
}

#[test]
fn invalid_public_key_is_rejected() {
    let client = TwelveClient::new("privatekey".to_string(), "bad\nkey".to_string(), 6404);
    assert_eq!(
        headermap("/test".to_string(), client).unwrap_err(),
        HeaderError::InvalidHeaderValue
    );
}

#[test]
fn invalid_random_text_is_rejected() {
    let client = TwelveClient::new("privatekey".to_string(), "publickey".to_string(), 6404);
    let date = CalendarDate { year: 2025, month: 10, day: 18 };
    let r = build_headers("/group", &client, &date, "abc\u{7f}");
    assert_eq!(r.unwrap_err(), HeaderError::InvalidHeaderValue);
}

#[test]
fn non_ascii_public_key_is_accepted() {
    let client = TwelveClient::new("privatekey".to_string(), "clé".to_string(), 6404);
    let date = CalendarDate { year: 2025, month: 10, day: 18 };
    let h = build_headers("/group", &client, &date, "abc").unwrap();
    assert_eq!(h.get("publicapikey").unwrap().as_bytes(), "clé".as_bytes());
}

#[test]
fn year_past_four_digits_is_rejected() {
    let client = TwelveClient::new("privatekey".to_string(), "publickey".to_string(), 6404);
    let date = CalendarDate { year: 10000, month: 1, day: 1 };
    let r = build_headers("/group", &client, &date, "abc");
    assert_eq!(r.unwrap_err(), HeaderError::YearOutOfRange);
    let date = CalendarDate { year: -1, month: 1, day: 1 };
    let r = build_headers("/group", &client, &date, "abc");
    assert_eq!(r.unwrap_err(), HeaderError::YearOutOfRange);
}

#[test]
fn date_stamp_is_year_day_month_zero_padded() {
    assert_eq!(date_stamp(&CalendarDate { year: 2023, month: 8, day: 3 }), "20230308");
    assert_eq!(date_stamp(&CalendarDate { year: 7, month: 12, day: 31 }), "00073112");
    assert_eq!(
        request_token(&CalendarDate { year: 2024, month: 1, day: 2 }, "xyz"),
        "20240201xyz"
    );
}

#[test]
fn decimal_rendering() {
    assert_eq!(signed_decimal_string(0), "0");
    assert_eq!(signed_decimal_string(6404), "6404");
    assert_eq!(signed_decimal_string(-12), "-12");
    assert_eq!(signed_decimal_string(i32::MIN), "-2147483648");
    assert_eq!(signed_decimal_string(i32::MAX), "2147483647");
}

#[test]
fn products_url_query() {
    let base = "https://clientapi.twelve.eu/api/v1/Products";
    assert_eq!(products_url(None, None), base);
    assert_eq!(
        products_url(Some(true), None),
        format!("{base}?includeDeletedLines=true")
    );
    assert_eq!(products_url(None, Some(42)), format!("{base}?filterSubClientId=42"));
    assert_eq!(
        products_url(Some(false), Some(-3)),
        format!("{base}?filterSubClientId=-3&includeDeletedLines=false")
    );
}

#[test]
fn products_request_signs_products_path() {
    let client = TwelveClient::new("privatekey".to_string(), "publickey".to_string(), 6404);
    let (url, h) = products_request(client, Some(true), Some(5)).unwrap();
    assert_eq!(
        url,
        "https://clientapi.twelve.eu/api/v1/Products?filterSubClientId=5&includeDeletedLines=true"
    );
    let token = header_text(&h, "RequestToken");
    let expected =
        sha256::digest(format!("/api/v1/Products{token}privatekey")).to_ascii_uppercase();
    assert_eq!(header_text(&h, "RequestSignature"), expected);
}

#[test]
fn group_header_signs_group_path() {
    let client = TwelveClient::new("privatekey".to_string(), "publickey".to_string(), 6404);
    let h = client.header().unwrap();
    let token = header_text(&h, "RequestToken");
    let expected = sha256::digest(format!("/group{token}privatekey")).to_ascii_uppercase();
    assert_eq!(header_text(&h, "RequestSignature"), expected);
}

#[test]
fn automatic_supplement_default_is_zero() {
    let s = AutomaticSupplement::default();
    assert_eq!(s, AutomaticSupplement { product_id: 0, count: 0 });
}
