//! Authenticated request signing: the canonical string and the HMAC-SHA256
//! signature over it.

use vstd::prelude::*;
use vstd::string::StringExecFns;
use crate::crypto::{hex_of, hmac_sha256_of, hmac_sha256, hex_encode};
use crate::ClientError;

verus! {

/// The canonical string the venue verifies: the request fields concatenated
/// in exactly this order, with no separators. Reordering would produce a
/// signature the venue silently rejects.
pub open spec fn canonical_message(
    method: Seq<char>,
    timestamp: Seq<char>,
    path: Seq<char>,
    query: Seq<char>,
    body: Seq<char>,
) -> Seq<char> {
    method + timestamp + path + query + body
}

/// The signature transmitted with a request: lowercase hex of the
/// HMAC-SHA256 digest of the canonical string, keyed by the raw secret
/// bytes.
pub open spec fn signature_of(
    secret: Seq<char>,
    method: Seq<char>,
    path: Seq<char>,
    query: Seq<char>,
    body: Seq<char>,
    timestamp: Seq<char>,
) -> Seq<char> {
    hex_of(
        hmac_sha256_of(
            vstd::utf8::encode_utf8(secret),
            vstd::utf8::encode_utf8(canonical_message(method, timestamp, path, query, body)),
        ),
    )
}

/// The signature is a function of the credential and the request fields
/// alone: two calls over identical inputs yield the identical hex string.
pub proof fn lemma_signature_deterministic(
    secret1: Seq<char>,
    method1: Seq<char>,
    path1: Seq<char>,
    query1: Seq<char>,
    body1: Seq<char>,
    timestamp1: Seq<char>,
    secret2: Seq<char>,
    method2: Seq<char>,
    path2: Seq<char>,
    query2: Seq<char>,
    body2: Seq<char>,
    timestamp2: Seq<char>,
)
    requires
        secret1 == secret2,
        method1 == method2,
        path1 == path2,
        query1 == query2,
        body1 == body2,
        timestamp1 == timestamp2,
    ensures
        signature_of(secret1, method1, path1, query1, body1, timestamp1)
            == signature_of(secret2, method2, path2, query2, body2, timestamp2),
{
}

/// A fixed known-good vector for the canonical order: for method `GET`,
/// timestamp `1000000`, path `/v2/wallet/balances` and empty query and
/// body, the canonical string is exactly
/// `GET1000000/v2/wallet/balances` — method first, then timestamp, then
/// path, with no separators.
pub proof fn lemma_canonical_known_vector()
    ensures
        canonical_message("GET"@, "1000000"@, "/v2/wallet/balances"@, ""@, ""@)
            == "GET1000000/v2/wallet/balances"@,
{
    reveal_strlit("GET");
    reveal_strlit("1000000");
    reveal_strlit("/v2/wallet/balances");
    reveal_strlit("");
    reveal_strlit("GET1000000/v2/wallet/balances");
    assert(canonical_message("GET"@, "1000000"@, "/v2/wallet/balances"@, ""@, ""@)
        =~= "GET1000000/v2/wallet/balances"@);
}

/// Builds the canonical string for signing: `method`, `timestamp`, `path`,
/// `query`, `body`, concatenated in that order with no separators.
pub fn build_canonical(
    method: &str,
    timestamp: &str,
    path: &str,
    query: &str,
    body: &str,
) -> (r: String)
    ensures
        r@ == canonical_message(method@, timestamp@, path@, query@, body@),
{
    let mut s = String::new();
    s.append(method);
    s.append(timestamp);
    s.append(path);
    s.append(query);
    s.append(body);
    s
}

/// A REST client for the trading venue: holds the credential and the base
/// URL; the pooled transport that carries the requests lives outside this
/// crate. The raw secret is exclusively owned by the client: no public
/// item reads it back, and no operation emits it in clear form.
pub struct DeltaNativeClient {
    pub api_key: String,
    api_secret: String,
    pub base_url: String,
}

impl DeltaNativeClient {
    /// The raw secret the signatures are keyed by: visible to
    /// specifications only, never readable through a public item.
    pub closed spec fn secret(&self) -> Seq<char> {
        self.api_secret@
    }

    /// The key transmitted in the `api-key` header.
    pub closed spec fn spec_api_key(&self) -> Seq<char> {
        self.api_key@
    }

    /// The base URL every request path is appended to.
    pub closed spec fn spec_base_url(&self) -> Seq<char> {
        self.base_url@
    }

    pub fn api_key_string(&self) -> (r: String)
        ensures
            r@ == self.spec_api_key(),
    {
        self.api_key.clone()
    }

    pub fn base_url_string(&self) -> (r: String)
        ensures
            r@ == self.spec_base_url(),
    {
        self.base_url.clone()
    }

    /// Constructs a client; when no base URL is given, the venue's default
    /// is used.
    pub fn new(api_key: String, api_secret: String, base_url: Option<String>) -> (r: Self)
        ensures
            r.spec_api_key() == api_key@,
            r.secret() == api_secret@,
            base_url matches Some(u) ==> r.spec_base_url() == u@,
            base_url is None ==> r.spec_base_url() == "https://api.india.delta.exchange"@,
    {
        let url = match base_url {
            Some(u) => u,
            None => "https://api.india.delta.exchange".to_owned(),
        };
        DeltaNativeClient { api_key, api_secret, base_url: url }
    }

    /// Signs one request: HMAC-SHA256 over the canonical string
    /// `method ‖ timestamp ‖ path ‖ query ‖ body`, keyed by the raw secret
    /// bytes, hex-encoded in lowercase. Key setup accepts a secret of any
    /// length, so the call always succeeds.
    pub fn sign(
        &self,
        method: &str,
        path: &str,
        query: &str,
        body: &str,
        timestamp: &str,
    ) -> (r: Result<String, ClientError>)
        ensures
            r is Ok,
            r matches Ok(s) ==> s@ == signature_of(
                self.secret(),
                method@,
                path@,
                query@,
                body@,
                timestamp@,
            ) && s@.len() == 64,
    {
        let canonical = build_canonical(method, timestamp, path, query, body);
        let digest = match hmac_sha256(self.api_secret.as_str().as_bytes(), canonical.as_str().as_bytes()) {
            Some(d) => d,
            None => {
                return Err(ClientError::InvalidCredential);
            },
        };
        proof {
            crate::crypto::lemma_hex_of_len(digest@);
        }
        Ok(hex_encode(digest.as_slice()))
    }
}

} // verus!
