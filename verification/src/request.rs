//! Building signed REST requests: timestamp formatting, the fixed venue
//! endpoints, and the fail-fast transport policy the embedding application
//! must apply.

use vstd::prelude::*;
use vstd::string::StringExecFns;
use crate::signing::{DeltaNativeClient, signature_of};
use crate::ClientError;

verus! {

/// The decimal character for one digit.
pub open spec fn dec_digit_char(n: u8) -> char
    recommends
        n < 10,
{
    if n == 0 {
        '0'
    } else if n == 1 {
        '1'
    } else if n == 2 {
        '2'
    } else if n == 3 {
        '3'
    } else if n == 4 {
        '4'
    } else if n == 5 {
        '5'
    } else if n == 6 {
        '6'
    } else if n == 7 {
        '7'
    } else if n == 8 {
        '8'
    } else {
        '9'
    }
}

/// The usual decimal rendering of a natural number: no sign, no leading
/// zeros except for zero itself.
pub open spec fn dec_str_of(n: nat) -> Seq<char>
    decreases n,
{
    if n < 10 {
        seq![dec_digit_char(n as u8)]
    } else {
        dec_str_of(n / 10) + seq![dec_digit_char((n % 10) as u8)]
    }
}

fn dec_digit_str(d: u64) -> (r: &'static str)
    requires
        d < 10,
    ensures
        r@ == seq![dec_digit_char(d as u8)],
{
    proof {
        reveal_strlit("0");
        reveal_strlit("1");
        reveal_strlit("2");
        reveal_strlit("3");
        reveal_strlit("4");
        reveal_strlit("5");
        reveal_strlit("6");
        reveal_strlit("7");
        reveal_strlit("8");
        reveal_strlit("9");
    }
    if d == 0 {
        "0"
    } else if d == 1 {
        "1"
    } else if d == 2 {
        "2"
    } else if d == 3 {
        "3"
    } else if d == 4 {
        "4"
    } else if d == 5 {
        "5"
    } else if d == 6 {
        "6"
    } else if d == 7 {
        "7"
    } else if d == 8 {
        "8"
    } else {
        "9"
    }
}

/// Renders a timestamp (or any unsigned count) in decimal, as the venue
/// expects it in the `timestamp` header and in the canonical string.
pub fn u64_to_dec(n: u64) -> (r: String)
    ensures
        r@ == dec_str_of(n as nat),
    decreases n,
{
    if n < 10 {
        dec_digit_str(n).to_owned()
    } else {
        let prefix = u64_to_dec(n / 10);
        prefix.concat(dec_digit_str(n % 10))
    }
}

/// A request that has been fully built and signed and is ready to be
/// carried by the transport: the URL, the authentication headers, and the
/// body.
#[derive(Debug, PartialEq, Eq)]
pub struct PreparedRequest {
    pub method: HttpMethod,
    pub url: String,
    pub api_key: String,
    pub timestamp: String,
    pub signature: String,
    pub body: String,
}

#[derive(Clone, Copy, Debug, PartialEq, Eq, Structural)]
pub enum HttpMethod {
    Get,
    Post,
}

/// What a correctly signed request for `client` looks like: the URL is the
/// base URL followed by the path, the timestamp is the decimal rendering of
/// the signing time, and the signature covers exactly the canonical string
/// of this method, path, query, body and timestamp.
pub open spec fn is_signed_request(
    req: PreparedRequest,
    client: DeltaNativeClient,
    method: HttpMethod,
    path: Seq<char>,
    query: Seq<char>,
    body: Seq<char>,
    timestamp_secs: nat,
) -> bool {
    &&& req.method == method
    &&& req.url@ == client.spec_base_url() + path
    &&& req.api_key@ == client.spec_api_key()
    &&& req.timestamp@ == dec_str_of(timestamp_secs)
    &&& req.body@ == body
    &&& req.signature@ == signature_of(
        client.secret(),
        method_name_of(method),
        path,
        query,
        body,
        dec_str_of(timestamp_secs),
    )
}

/// The wire name of an HTTP method, as it enters the canonical string.
pub open spec fn method_name_of(m: HttpMethod) -> Seq<char> {
    match m {
        HttpMethod::Get => "GET"@,
        HttpMethod::Post => "POST"@,
    }
}

pub fn method_str(m: HttpMethod) -> (r: &'static str)
    ensures
        r@ == method_name_of(m),
{
    match m {
        HttpMethod::Get => "GET",
        HttpMethod::Post => "POST",
    }
}

impl DeltaNativeClient {
    /// Builds and signs one request against this client's base URL. The
    /// timestamp must be taken immediately before sending: the venue
    /// rejects signatures whose clock skew is beyond its tolerance.
    pub fn signed_request(
        &self,
        method: HttpMethod,
        path: &str,
        query: &str,
        body: String,
        timestamp_secs: u64,
    ) -> (r: Result<PreparedRequest, ClientError>)
        ensures
            r is Ok,
            r matches Ok(req) ==> is_signed_request(
                req,
                *self,
                method,
                path@,
                query@,
                body@,
                timestamp_secs as nat,
            ),
    {
        let ts = u64_to_dec(timestamp_secs);
        let m = method_str(method);
        let signature = match self.sign(m, path, query, body.as_str(), ts.as_str()) {
            Ok(s) => s,
            Err(e) => {
                return Err(e);
            },
        };
        let url = self.base_url_string().concat(path);
        Ok(
            PreparedRequest {
                method,
                url,
                api_key: self.api_key_string(),
                timestamp: ts,
                signature,
                body,
            },
        )
    }

    /// The order-placement request: `POST /v2/orders` with the serialized
    /// payload as the signed body and an empty query.
    pub fn place_order_request(&self, body: String, timestamp_secs: u64) -> (r: Result<
        PreparedRequest,
        ClientError,
    >)
        ensures
            r is Ok,
            r matches Ok(req) ==> is_signed_request(
                req,
                *self,
                HttpMethod::Post,
                "/v2/orders"@,
                ""@,
                body@,
                timestamp_secs as nat,
            ),
    {
        self.signed_request(HttpMethod::Post, "/v2/orders", "", body, timestamp_secs)
    }

    /// The wallet-balance request: `GET /v2/wallet/balances`, signed with
    /// empty query and empty body.
    pub fn wallet_balance_request(&self, timestamp_secs: u64) -> (r: Result<
        PreparedRequest,
        ClientError,
    >)
        ensures
            r is Ok,
            r matches Ok(req) ==> is_signed_request(
                req,
                *self,
                HttpMethod::Get,
                "/v2/wallet/balances"@,
                ""@,
                Seq::<char>::empty(),
                timestamp_secs as nat,
            ),
    {
        self.signed_request(HttpMethod::Get, "/v2/wallet/balances", "", String::new(), timestamp_secs)
    }

    /// The positions request: `GET /v2/positions/margined`, signed with
    /// empty query and empty body.
    pub fn positions_request(&self, timestamp_secs: u64) -> (r: Result<
        PreparedRequest,
        ClientError,
    >)
        ensures
            r is Ok,
            r matches Ok(req) ==> is_signed_request(
                req,
                *self,
                HttpMethod::Get,
                "/v2/positions/margined"@,
                ""@,
                Seq::<char>::empty(),
                timestamp_secs as nat,
            ),
    {
        self.signed_request(HttpMethod::Get, "/v2/positions/margined", "", String::new(), timestamp_secs)
    }
}

/// How the embedding application must configure the pooled HTTP transport:
/// Nagle off for per-packet latency, idle connections kept open
/// indefinitely, a bounded idle pool, and fail-fast connect and request
/// timeouts so a hung remote never hangs the caller beyond a small bound.
pub struct HttpTransportConfig {
    pub tcp_nodelay: bool,
    pub keep_idle_connections: bool,
    pub pool_max_idle_per_host: u64,
    pub connect_timeout_ms: u64,
    pub request_timeout_ms: u64,
}

/// The transport policy for this venue: 2.5-second connect and request
/// timeouts bound every REST call.
pub fn transport_config() -> (c: HttpTransportConfig)
    ensures
        c.tcp_nodelay,
        c.keep_idle_connections,
        c.pool_max_idle_per_host == 10,
        c.connect_timeout_ms == 2500,
        c.request_timeout_ms == 2500,
{
    HttpTransportConfig {
        tcp_nodelay: true,
        keep_idle_connections: true,
        pool_max_idle_per_host: 10,
        connect_timeout_ms: 2500,
        request_timeout_ms: 2500,
    }
}

} // verus!
