use agentropic_bot::api::{mentions_query, mentions_url, url_with_query};
use agentropic_bot::oauth::{i64_to_decimal, u64_to_decimal, Credentials};
use agentropic_bot::params::{key_lt, QueryParams};
use agentropic_bot::percent::percent_encode;

fn credentials() -> Credentials {
    Credentials {
        consumer_key: "xvz1evFS4wEEPTGEFPHBog".to_string(),
        consumer_secret: "kAcSOqF21Fu85e7zjz7ZN2U4ZRhfV3WpwPAoE3Z7kBw".to_string(),
        access_token: "370773112-GmHxMAgYyLbNEtIKZeRNFsMKPR9EyMZeS9weJAEb".to_string(),
        access_token_secret: "LswwdoUaIvS8ltyTt5jkRh4J50vUPVVHtR2YPi5kE".to_string(),
    }
}

fn params(pairs: &[(&str, &str)]) -> QueryParams {
    let mut p = QueryParams::new();
    for (k, v) in pairs {
        p.insert(k.to_string(), v.to_string());
    }
    p
}

#[test]
fn percent_encoding_keeps_unreserved_bytes() {
    let unreserved = "ABCDEFGHIJKLMNOPQRSTUVWXYZabcdefghijklmnopqrstuvwxyz0123456789-._~";
    assert_eq!(percent_encode(unreserved), unreserved);
}

#[test]
fn percent_encoding_escapes_everything_else_in_upper_case() {
    assert_eq!(percent_encode("!*'()"), "%21%2A%27%28%29");
    assert_eq!(percent_encode("a b+c/d=e&f"), "a%20b%2Bc%2Fd%3De%26f");
    assert_eq!(percent_encode("é☃"), "%C3%A9%E2%98%83");
    assert_eq!(percent_encode(""), "");
}

#[test]
fn percent_encoding_round_trips() {
    let text = "Hello Ladies + Gentlemen, a signed OAuth request! é";
    let encoded = percent_encode(text);
    let bytes = encoded.as_bytes();
    let mut decoded = Vec::new();
    let mut i = 0;
    while i < bytes.len() {
        if bytes[i] == b'%' {
            let hex = std::str::from_utf8(&bytes[i + 1..i + 3]).unwrap();
            decoded.push(u8::from_str_radix(hex, 16).unwrap());
            i += 3;
        } else {
            decoded.push(bytes[i]);
            i += 1;
        }
    }
    assert_eq!(String::from_utf8(decoded).unwrap(), text);
}

#[test]
fn parameters_are_sorted_whatever_the_insertion_order() {
    let a = params(&[("b", "2"), ("a", "1"), ("c", "3")]);
    let b = params(&[("c", "3"), ("b", "2"), ("a", "1")]);
    assert_eq!(a.param_string(), "a=1&b=2&c=3");
    assert_eq!(b.param_string(), "a=1&b=2&c=3");
}

#[test]
fn inserting_a_key_again_replaces_its_value() {
    let p = params(&[("k", "old"), ("a", "x"), ("k", "new")]);
    assert_eq!(p.len(), 2);
    assert_eq!(p.param_string(), "a=x&k=new");
    assert_eq!(p.entry(1), ("k", "new"));
}

#[test]
fn parameter_pairs_are_percent_encoded() {
    let p = params(&[("tweet.fields", "author_id,text"), ("q", "a b")]);
    assert_eq!(p.param_string(), "q=a%20b&tweet.fields=author_id%2Ctext");
}

#[test]
fn keys_order_by_bytes() {
    assert!(key_lt("a", "b"));
    assert!(key_lt("a", "ab"));
    assert!(!key_lt("ab", "a"));
    assert!(!key_lt("a", "a"));
    assert!(key_lt("Z", "a"));
    assert!(key_lt("oauth_nonce", "oauth_signature_method"));
}

#[test]
fn decimal_texts() {
    assert_eq!(u64_to_decimal(0), "0");
    assert_eq!(u64_to_decimal(18446744073709551615), "18446744073709551615");
    assert_eq!(i64_to_decimal(1318622958), "1318622958");
    assert_eq!(i64_to_decimal(-42), "-42");
    assert_eq!(i64_to_decimal(i64::MIN), "-9223372036854775808");
}

#[test]
fn header_matches_the_published_oauth_example() {
    let creds = credentials();
    let extra = params(&[
        ("include_entities", "true"),
        ("status", "Hello Ladies + Gentlemen, a signed OAuth request!"),
    ]);
    let header = creds.create_oauth_header(
        "POST",
        "https://api.twitter.com/1.1/statuses/update.json",
        Some(&extra),
        "kYjzVBB8Y0ZFabxSWbWovY3uYSQ2pTgmZeNu2VS4cg",
        1318622958,
    );
    assert_eq!(
        header,
        "OAuth oauth_consumer_key=\"xvz1evFS4wEEPTGEFPHBog\", \
         oauth_nonce=\"kYjzVBB8Y0ZFabxSWbWovY3uYSQ2pTgmZeNu2VS4cg\", \
         oauth_signature=\"hCtSmYh%2BiHYCEqBWrE7C7hYmtUk%3D\", \
         oauth_signature_method=\"HMAC-SHA1\", oauth_timestamp=\"1318622958\", \
         oauth_token=\"370773112-GmHxMAgYyLbNEtIKZeRNFsMKPR9EyMZeS9weJAEb\", oauth_version=\"1.0\""
    );
}

#[test]
fn signing_is_deterministic() {
    let creds = credentials();
    let q = mentions_query(Some("12345"));
    let first = creds.create_oauth_header("GET", "https://api.x.com/2/users/1/mentions", Some(&q), "n0nce", 1700000000);
    let second = creds.create_oauth_header("GET", "https://api.x.com/2/users/1/mentions", Some(&q), "n0nce", 1700000000);
    assert_eq!(first, second);
    let other = creds.create_oauth_header("GET", "https://api.x.com/2/users/1/mentions", Some(&q), "n0nce", 1700000001);
    assert_ne!(first, other);
}

#[test]
fn query_parameters_change_the_signature() {
    let creds = credentials();
    let with = creds.create_oauth_header("GET", "https://api.x.com/2/tweets", Some(&params(&[("a", "1")])), "n", 1);
    let without = creds.create_oauth_header("GET", "https://api.x.com/2/tweets", None, "n", 1);
    assert_ne!(with, without);
}

#[test]
fn fresh_headers_carry_every_field() {
    let creds = credentials();
    let header = creds.authorization_header("POST", "https://api.x.com/2/tweets", None);
    assert!(header.starts_with("OAuth oauth_consumer_key=\"xvz1evFS4wEEPTGEFPHBog\", oauth_nonce=\""));
    assert!(header.contains("oauth_signature_method=\"HMAC-SHA1\""));
    assert!(header.ends_with("oauth_version=\"1.0\""));
}

#[test]
fn mentions_request_url() {
    let q = mentions_query(None);
    assert_eq!(
        url_with_query(&mentions_url("42"), &q),
        "https://api.x.com/2/users/42/mentions?max_results=10&tweet.fields=author_id%2Ctext"
    );
    let q = mentions_query(Some("99"));
    assert_eq!(q.param_string(), "max_results=10&since_id=99&tweet.fields=author_id%2Ctext");
}
