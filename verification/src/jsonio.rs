//! The JSON boundary of the REST client: serializing an order payload and
//! decoding a response body.

use vstd::prelude::*;
use crate::ClientError;
use crate::request::{HttpMethod, PreparedRequest, is_signed_request};
use crate::signing::DeltaNativeClient;

verus! {

#[verifier::external_type_specification]
#[verifier::external_body]
pub struct ExJsonValue(serde_json::Value);

/// Whether serde_json accepts `bytes` as one valid JSON document — a
/// property of the bytes alone.
pub uninterp spec fn json_parses(bytes: Seq<u8>) -> bool;

/// The value serde_json parses out of a valid JSON document — a function
/// of the bytes alone.
pub uninterp spec fn json_value_of(bytes: Seq<u8>) -> serde_json::Value;

/// The text serde_json renders a JSON value to — a function of the value
/// alone (object keys are kept in their map's fixed order).
pub uninterp spec fn json_text_of(v: serde_json::Value) -> Seq<char>;

/// Relies on `serde_json::from_slice::<Value>`: it returns `Ok` exactly
/// when the bytes form one valid JSON document, and the parsed value
/// depends on the bytes alone.
#[verifier::external_body]
fn json_from_slice(bytes: &[u8]) -> (r: Option<serde_json::Value>)
    ensures
        r is Some <==> json_parses(bytes@),
        r matches Some(v) ==> v == json_value_of(bytes@),
{
    serde_json::from_slice::<serde_json::Value>(bytes).ok()
}

/// Relies on `serde_json::to_string`: serializing a `Value` never fails
/// (object keys are strings, numbers are finite, and the writer is a
/// vector), and the text depends on the value alone.
#[verifier::external_body]
fn json_to_text(v: &serde_json::Value) -> (r: Option<String>)
    ensures
        r is Some,
        r matches Some(s) ==> s@ == json_text_of(*v),
{
    serde_json::to_string(v).ok()
}

/// Decodes a REST response body: any valid JSON document is returned
/// exactly as parsed — the venue's own error reports pass through
/// verbatim, with no schema validation — and anything else is a
/// `DecodeError`.
pub fn decode_response(bytes: &[u8]) -> (r: Result<serde_json::Value, ClientError>)
    ensures
        r is Ok <==> json_parses(bytes@),
        r matches Ok(v) ==> v == json_value_of(bytes@),
        r matches Err(e) ==> e == ClientError::DecodeError,
{
    match json_from_slice(bytes) {
        Some(v) => Ok(v),
        None => Err(ClientError::DecodeError),
    }
}

impl DeltaNativeClient {
    /// Serializes the order payload and builds the signed order request:
    /// the signed body is exactly the payload's serialization, so the
    /// signature covers exactly the bytes that will be sent. Building
    /// always succeeds — a `Value` always serializes — and nothing here
    /// panics.
    pub fn place_order_request_json(
        &self,
        order: &serde_json::Value,
        timestamp_secs: u64,
    ) -> (r: Result<PreparedRequest, ClientError>)
        ensures
            r is Ok,
            r matches Ok(req) ==> is_signed_request(
                req,
                *self,
                HttpMethod::Post,
                "/v2/orders"@,
                ""@,
                json_text_of(*order),
                timestamp_secs as nat,
            ),
    {
        let body = match json_to_text(order) {
            Some(s) => s,
            None => {
                return Err(ClientError::DecodeError);
            },
        };
        match self.place_order_request(body, timestamp_secs) {
            Ok(req) => Ok(req),
            Err(e) => Err(e),
        }
    }
}

} // verus!
