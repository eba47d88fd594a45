//! The gateway-facing half of the deposit flow.
//!
//! The network call itself is made by the unverified driver around the
//! library; this module owns everything about it that can be decided from
//! plain values: the configuration the call needs, the fresh nonce that tags
//! it, and the parse of the gateway's JSON response body into an
//! acknowledgment. The gateway's protocol requires a top-level `"response"`
//! field in that body; a body without it is a protocol error, distinct from a
//! transport error.

use crate::models::{EulenDeposit, EulenDepositModel};
use vstd::prelude::*;

verus! {

/// What parsing a gateway response body yields: `None` when the body is not a
/// JSON object carrying the expected payload under a top-level `"response"`
/// field, and otherwise the gateway transaction identifier, echoed amount and
/// echoed address found there. The parse is a function of the body text alone.
pub uninterp spec fn parsed_gateway_deposit(body: Seq<char>) -> Option<EulenDepositModel>;

/// Relies on serde_json::from_str and serde_json::Value's `get`, `as_str` and
/// `as_i64` accessors: what they yield depends on the body text alone, so the
/// whole extraction is named by [`parsed_gateway_deposit`].
#[verifier::external_body]
fn parse_gateway_body(body: &str) -> (r: Option<EulenDeposit>)
    ensures
        r is Some <==> parsed_gateway_deposit(body@) is Some,
        r is Some ==> r->Some_0@ == parsed_gateway_deposit(body@)->Some_0,
{
    let root: serde_json::Value = serde_json::from_str(body).ok()?;
    let response = root.get("response")?;
    let bank_tx_id = response.get("bank_tx_id")?.as_str()?.to_string();
    let amount_in_cents = i32::try_from(response.get("amountInCents")?.as_i64()?).ok()?;
    let address = response.get("depixAddress")?.as_str()?.to_string();
    Some(EulenDeposit { bank_tx_id, amount_in_cents, address })
}

/// Relies on uuid::Uuid::new_v4 and its hyphenated form: the value is random,
/// so nothing is stated of it but its length, which the hyphenated UUID format
/// fixes at 36 characters.
#[verifier::external_body]
fn fresh_uuid() -> (r: String)
    ensures
        r@.len() == 36,
{
    uuid::Uuid::new_v4().hyphenated().to_string()
}

/// Why the gateway half of a deposit attempt failed.
#[derive(Debug)]
pub enum GatewayError {
    /// The provider answered, but the body lacked the expected `"response"`
    /// payload: a protocol error, never retried.
    BadResponseFormat,
    /// The provider could not be reached or answered no body; the message is
    /// the transport layer's own description.
    Transport(String),
}

impl GatewayError {
    /// The human-readable message carried to the caller for this failure.
    pub open spec fn message_model(&self) -> Seq<char> {
        match self {
            GatewayError::BadResponseFormat => "Eulen: Bad response format."@,
            GatewayError::Transport(m) => m@,
        }
    }

    /// The human-readable message carried to the caller for this failure.
    pub fn message(&self) -> (r: String)
        ensures
            r@ == self.message_model(),
    {
        match self {
            GatewayError::BadResponseFormat => String::from_str("Eulen: Bad response format."),
            GatewayError::Transport(m) => m.clone(),
        }
    }
}

/// The configuration of the outbound gateway client: where to reach the
/// provider and the bearer token to authenticate with. The driver around the
/// library performs the HTTP call; the library decides everything else.
pub struct EulenApi {
    /// Bearer token presented on every outbound call.
    pub auth_token: String,
    /// Base URL of the provider; the deposit call goes to `{url}/api/deposit`.
    pub url: String,
}

impl EulenApi {
    /// A client configuration for the given token and base URL.
    pub fn new(auth_token: String, url: String) -> (r: Self)
        ensures
            r.auth_token@ == auth_token@,
            r.url@ == url@,
    {
        EulenApi { auth_token, url }
    }

    /// A fresh random nonce for tagging one outbound call (anti-replay
    /// correlation; not validated on return).
    pub fn fresh_nonce() -> (r: String)
        ensures
            r@.len() == 36,
    {
        fresh_uuid()
    }

    /// Parse the provider's response body. Succeeds if and only if the body
    /// carries the expected `"response"` payload; any other shape is the
    /// protocol error, reported distinctly from transport failures.
    pub fn parse_deposit_response(body: &str) -> (r: Result<EulenDeposit, GatewayError>)
        ensures
            r is Ok <==> parsed_gateway_deposit(body@) is Some,
            r is Ok ==> r->Ok_0@ == parsed_gateway_deposit(body@)->Some_0,
            r is Err ==> r->Err_0 == GatewayError::BadResponseFormat,
    {
        match parse_gateway_body(body) {
            Some(deposit) => Ok(deposit),
            None => Err(GatewayError::BadResponseFormat),
        }
    }
}

} // verus!
