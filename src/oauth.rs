//! OAuth 1.0a request signing with HMAC-SHA1.
//!
//! The signed parameters are the six `oauth_*` parameters and the request's
//! query parameters, never a request body. The header is a function of the
//! credentials, method, URL, query parameters, nonce and timestamp alone.

use vstd::prelude::*;
use vstd::utf8::encode_utf8;
use crate::params::{entries_map, keys_sorted, lemma_sorted_entries_unique, param_string, Entry, QueryParams};
use crate::percent::{percent_encode, percent_encoded};
use crate::text::{owned, push_str_chars, string_of};

verus! {

/// The HMAC-SHA1 of `message` under `key`.
pub uninterp spec fn hmac_sha1_of(key: Seq<u8>, message: Seq<u8>) -> Seq<u8>;

/// The standard base64 text (with padding) of `bytes`.
pub uninterp spec fn base64_of(bytes: Seq<u8>) -> Seq<char>;

/// Relies on hmac's `Hmac<Sha1>`: `new_from_slice` accepts a key of any
/// length (hmac 0.12 returns `Ok` for every key), and `finalize` yields the
/// 20-byte MAC of the message.
#[verifier::external_body]
fn hmac_sha1(key: &[u8], message: &[u8]) -> (r: Vec<u8>)
    ensures
        r@ == hmac_sha1_of(key@, message@),
        r@.len() == 20,
{
    let mut mac = <hmac::Hmac<sha1::Sha1> as hmac::Mac>::new_from_slice(key)
        .expect("HMAC accepts keys of any length");
    hmac::Mac::update(&mut mac, message);
    hmac::Mac::finalize(mac).into_bytes().to_vec()
}

/// Relies on base64's `engine::general_purpose::STANDARD.encode`: the
/// standard alphabet with padding. It panics only when the encoded length
/// overflows `usize`, which the bound on the input rules out.
#[verifier::external_body]
fn base64_encode(bytes: &[u8]) -> (r: String)
    requires
        bytes@.len() <= 0x1000_0000,
    ensures
        r@ == base64_of(bytes@),
{
    base64::Engine::encode(&base64::engine::general_purpose::STANDARD, bytes)
}

/// Relies on rand's `random`: a value drawn from the thread-local
/// generator. Nothing is promised of it.
pub assume_specification<T>[ rand::random::<T> ]() -> (r: T)
    where
        rand::distributions::Standard: rand::distributions::Distribution<T>,
;

/// Decimal digit of a value below 10.
pub open spec fn digit_char(d: nat) -> char {
    ((d + 0x30) as u8) as char
}

/// Decimal text of a natural number, without leading zeros.
pub open spec fn decimal(n: nat) -> Seq<char>
    decreases n,
{
    if n < 10 {
        seq![digit_char(n)]
    } else {
        decimal(n / 10).push(digit_char(n % 10))
    }
}

/// Decimal text of an integer, with a leading `-` when negative.
pub open spec fn int_decimal(i: int) -> Seq<char> {
    if i < 0 {
        seq!['-'] + decimal((-i) as nat)
    } else {
        decimal(i as nat)
    }
}

pub(crate) fn push_decimal(out: &mut Vec<char>, n: u64)
    ensures
        final(out)@ == old(out)@ + decimal(n as nat),
    decreases n,
{
    if n >= 10 {
        push_decimal(out, n / 10);
    }
    out.push(((n % 10) as u8 + 0x30) as char);
    proof {
        if n < 10 {
            assert(final(out)@ =~= old(out)@ + decimal(n as nat));
        } else {
            assert(final(out)@ =~= old(out)@ + decimal(n as nat));
        }
    }
}

/// Decimal text of an unsigned number.
pub fn u64_to_decimal(n: u64) -> (r: String)
    ensures
        r@ == decimal(n as nat),
{
    let mut out: Vec<char> = Vec::new();
    push_decimal(&mut out, n);
    assert(out@ =~= decimal(n as nat));
    string_of(out.as_slice())
}

/// Decimal text of a signed number.
pub fn i64_to_decimal(n: i64) -> (r: String)
    ensures
        r@ == int_decimal(n as int),
{
    let mut out: Vec<char> = Vec::new();
    if n < 0 {
        out.push('-');
        let magnitude: u64 = (-(n + 1)) as u64 + 1;
        push_decimal(&mut out, magnitude);
    } else {
        push_decimal(&mut out, n as u64);
    }
    assert(out@ =~= int_decimal(n as int));
    string_of(out.as_slice())
}

/// The four secrets that authenticate the account.
pub struct Credentials {
    pub consumer_key: String,
    pub consumer_secret: String,
    pub access_token: String,
    pub access_token_secret: String,
}

/// The mapping that optional query parameters hold.
pub open spec fn query_map(extra: Option<&QueryParams>) -> Map<Seq<char>, Seq<char>> {
    match extra {
        Some(e) => e.map(),
        None => Map::empty(),
    }
}

/// The `oauth_*` parameters that every request signs.
pub open spec fn oauth_params(
    consumer_key: Seq<char>,
    nonce: Seq<char>,
    timestamp: Seq<char>,
    token: Seq<char>,
) -> Map<Seq<char>, Seq<char>> {
    map![
        "oauth_consumer_key"@ => consumer_key,
        "oauth_nonce"@ => nonce,
        "oauth_signature_method"@ => "HMAC-SHA1"@,
        "oauth_timestamp"@ => timestamp,
        "oauth_token"@ => token,
        "oauth_version"@ => "1.0"@,
    ]
}

/// The list of a mapping's entries in increasing key order.
pub open spec fn sorted_listing(m: Map<Seq<char>, Seq<char>>) -> Seq<Entry> {
    choose|s: Seq<Entry>| keys_sorted(s) && entries_map(s) == m
}

/// `METHOD&enc(url)&enc(parameter string)`.
pub open spec fn signature_base(method: Seq<char>, url: Seq<char>, params: Seq<char>) -> Seq<char> {
    method + seq!['&'] + percent_encoded(url) + seq!['&'] + percent_encoded(params)
}

/// `enc(consumer secret)&enc(token secret)`.
pub open spec fn signing_key(consumer_secret: Seq<char>, token_secret: Seq<char>) -> Seq<char> {
    percent_encoded(consumer_secret) + seq!['&'] + percent_encoded(token_secret)
}

/// Base64 of the HMAC-SHA1 of the base string under the signing key.
pub open spec fn signature(key: Seq<char>, base: Seq<char>) -> Seq<char> {
    base64_of(hmac_sha1_of(encode_utf8(key), encode_utf8(base)))
}

/// The `Authorization` header value, fields in their fixed order.
pub open spec fn header_text(
    consumer_key: Seq<char>,
    nonce: Seq<char>,
    sig: Seq<char>,
    timestamp: Seq<char>,
    token: Seq<char>,
) -> Seq<char> {
    "OAuth oauth_consumer_key=\""@ + percent_encoded(consumer_key) + "\", oauth_nonce=\""@
        + percent_encoded(nonce) + "\", oauth_signature=\""@ + percent_encoded(sig)
        + "\", oauth_signature_method=\"HMAC-SHA1\", oauth_timestamp=\""@ + timestamp
        + "\", oauth_token=\""@ + percent_encoded(token) + "\", oauth_version=\"1.0\""@
}

impl Credentials {
    /// The signed header for a request, given its query parameters
    /// (`extra`), a nonce and a timestamp in seconds.
    pub open spec fn oauth_header(
        &self,
        method: Seq<char>,
        url: Seq<char>,
        extra: Map<Seq<char>, Seq<char>>,
        nonce: Seq<char>,
        timestamp: int,
    ) -> Seq<char> {
        let ts = int_decimal(timestamp);
        let params = oauth_params(self.consumer_key@, nonce, ts, self.access_token@).union_prefer_right(
            extra,
        );
        let base = signature_base(method, url, param_string(sorted_listing(params)));
        let key = signing_key(self.consumer_secret@, self.access_token_secret@);
        header_text(self.consumer_key@, nonce, signature(key, base), ts, self.access_token@)
    }

    /// The `oauth_*` parameters merged with the query parameters; a query
    /// parameter of the same name takes the place of an `oauth_*` one.
    fn signed_params(&self, extra: Option<&QueryParams>, nonce: &str, timestamp: &str) -> (r:
        QueryParams)
        requires
            extra matches Some(e) ==> e.wf(),
        ensures
            r.wf(),
            r.map() == oauth_params(self.consumer_key@, nonce@, timestamp@, self.access_token@).union_prefer_right(
                query_map(extra),
            ),
    {
        let mut all = QueryParams::new();
        all.insert(owned("oauth_consumer_key"), self.consumer_key.clone());
        all.insert(owned("oauth_nonce"), owned(nonce));
        all.insert(owned("oauth_signature_method"), owned("HMAC-SHA1"));
        all.insert(owned("oauth_timestamp"), owned(timestamp));
        all.insert(owned("oauth_token"), self.access_token.clone());
        all.insert(owned("oauth_version"), owned("1.0"));
        let ghost base = oauth_params(self.consumer_key@, nonce@, timestamp@, self.access_token@);
        assert(all.map() =~= base.union_prefer_right(Map::empty()));
        match extra {
            None => {},
            Some(e) => {
                let mut i: usize = 0;
                while i < e.len()
                    invariant
                        e.wf(),
                        all.wf(),
                        i <= e@.len(),
                        all.map() == base.union_prefer_right(entries_map(e@.take(i as int))),
                    decreases e@.len() - i,
                {
                    let (k, v) = e.entry(i);
                    all.insert(owned(k), owned(v));
                    proof {
                        assert(e@.take(i as int + 1).drop_last() =~= e@.take(i as int));
                        assert(all.map() =~= base.union_prefer_right(
                            entries_map(e@.take(i as int + 1)),
                        ));
                    }
                    i = i + 1;
                }
                assert(e@.take(i as int) =~= e@);
            },
        }
        all
    }

    /// Builds the OAuth 1.0a `Authorization` header for a request.
    ///
    /// `url` carries no query string; the query parameters are passed in
    /// `extra` and are signed with the `oauth_*` parameters.
    pub fn create_oauth_header(
        &self,
        method: &str,
        url: &str,
        extra: Option<&QueryParams>,
        nonce: &str,
        timestamp: i64,
    ) -> (r: String)
        requires
            extra matches Some(e) ==> e.wf(),
        ensures
            r@ == self.oauth_header(
                method@,
                url@,
                query_map(extra),
                nonce@,
                timestamp as int,
            ),
    {
        let ts = i64_to_decimal(timestamp);
        let all = self.signed_params(extra, nonce, ts.as_str());
        let ghost m = all.map();
        proof {
            lemma_sorted_entries_unique(all@, sorted_listing(m));
        }
        let param_text = all.param_string();

        let mut base: Vec<char> = Vec::new();
        push_str_chars(&mut base, method);
        base.push('&');
        push_str_chars(&mut base, percent_encode(url).as_str());
        base.push('&');
        push_str_chars(&mut base, percent_encode(param_text.as_str()).as_str());
        let base_text = string_of(base.as_slice());

        let mut key: Vec<char> = Vec::new();
        push_str_chars(&mut key, percent_encode(self.consumer_secret.as_str()).as_str());
        key.push('&');
        push_str_chars(&mut key, percent_encode(self.access_token_secret.as_str()).as_str());
        let key_text = string_of(key.as_slice());

        let mac = hmac_sha1(key_text.as_str().as_bytes(), base_text.as_str().as_bytes());
        let sig = base64_encode(mac.as_slice());

        let mut out: Vec<char> = Vec::new();
        push_str_chars(&mut out, "OAuth oauth_consumer_key=\"");
        push_str_chars(&mut out, percent_encode(self.consumer_key.as_str()).as_str());
        push_str_chars(&mut out, "\", oauth_nonce=\"");
        push_str_chars(&mut out, percent_encode(nonce).as_str());
        push_str_chars(&mut out, "\", oauth_signature=\"");
        push_str_chars(&mut out, percent_encode(sig.as_str()).as_str());
        push_str_chars(&mut out, "\", oauth_signature_method=\"HMAC-SHA1\", oauth_timestamp=\"");
        push_str_chars(&mut out, ts.as_str());
        push_str_chars(&mut out, "\", oauth_token=\"");
        push_str_chars(&mut out, percent_encode(self.access_token.as_str()).as_str());
        push_str_chars(&mut out, "\", oauth_version=\"1.0\"");
        proof {
            assert(base@ =~= signature_base(method@, url@, param_string(sorted_listing(m))));
            assert(key@ =~= signing_key(self.consumer_secret@, self.access_token_secret@));
            assert(out@ =~= header_text(
                self.consumer_key@,
                nonce@,
                sig@,
                ts@,
                self.access_token@,
            ));
        }
        string_of(out.as_slice())
    }

    /// Signs a request with a fresh random nonce and the current time.
    pub fn authorization_header(&self, method: &str, url: &str, extra: Option<&QueryParams>) -> (r:
        String)
        requires
            extra matches Some(e) ==> e.wf(),
        ensures
            exists|nonce: u64, timestamp: i64|
                r@ == #[trigger] self.oauth_header(
                    method@,
                    url@,
                    query_map(extra),
                    decimal(nonce as nat),
                    timestamp as int,
                ),
    {
        let nonce_value: u64 = rand::random::<u64>();
        let nonce = u64_to_decimal(nonce_value);
        let timestamp = crate::clock::unix_time_now();
        self.create_oauth_header(method, url, extra, nonce.as_str(), timestamp)
    }
}

/// Signing is deterministic: the same credentials, request, nonce and
/// timestamp always give the same header.
pub proof fn lemma_signing_deterministic(
    a: &Credentials,
    b: &Credentials,
    method: Seq<char>,
    url: Seq<char>,
    extra: Map<Seq<char>, Seq<char>>,
    nonce: Seq<char>,
    timestamp: int,
)
    requires
        a.consumer_key@ == b.consumer_key@,
        a.consumer_secret@ == b.consumer_secret@,
        a.access_token@ == b.access_token@,
        a.access_token_secret@ == b.access_token_secret@,
    ensures
        a.oauth_header(method, url, extra, nonce, timestamp) == b.oauth_header(
            method,
            url,
            extra,
            nonce,
            timestamp,
        ),
{
}

} // verus!
