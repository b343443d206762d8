//! Attestation of allocation requests.
//!
//! Admission may demand a ticket, which an external attestation service
//! verifies. The transport lives in the surrounding binary; it hands this
//! module the outcome of the exchange — nothing at all when the transport
//! failed (connect, timeout, read), otherwise whether the response had a
//! success status, and the response body — and the verdict here fails
//! closed: any transport, parse, or non-success-status failure counts as
//! invalid.

use vstd::prelude::*;

verus! {

/// What the body of an attestation response denotes: `Some(b)` when the body
/// is a JSON document whose `valid` field is the boolean `b`, `None` for any
/// other body. A function of the body's characters alone.
pub uninterp spec fn valid_field_of(body: Seq<char>) -> Option<bool>;

/// Relies on serde_json — `from_str::<Value>`, `Value::get` with a string
/// key, and `Value::as_bool` — to read the boolean `valid` field out of the
/// body: `Some(b)` when the body parses as JSON and carries the boolean `b`
/// under `valid`, `None` for an unparsable body, a non-object, a missing
/// field or a non-boolean field. The result depends on the body alone, which
/// is what lets it carry the name [`valid_field_of`].
#[verifier::external_body]
fn extract_valid_field(body: &str) -> (r: Option<bool>)
    ensures
        r == valid_field_of(body@),
{
    serde_json::from_str::<serde_json::Value>(body)
        .ok()
        .and_then(|v| v.get("valid").and_then(serde_json::Value::as_bool))
}

/// The boolean `valid` field of an attestation response body, exactly
/// [`valid_field_of`] the body.
pub fn attestation_valid_field(body: &str) -> (r: Option<bool>)
    ensures
        r == valid_field_of(body@),
{
    extract_valid_field(body)
}

/// The verdict from an already-extracted field: valid exactly when the
/// response had a success status and the field is the boolean true.
/// Everything else — no success status, a missing or non-boolean field, a
/// false field — counts as invalid (fail closed).
pub fn attestation_verdict(status_ok: bool, valid_field: Option<bool>) -> (r: bool)
    ensures
        r == (status_ok && valid_field == Some(true)),
{
    status_ok && match valid_field {
        Some(b) => b,
        None => false,
    }
}

/// The verdict straight from the wire: valid exactly when the response had a
/// success status and its body's `valid` field is the boolean true. An
/// unparsable body, a missing or non-boolean field, or a false field is
/// invalid, and nothing is valid without a success status.
pub fn verify_attestation_response(status_ok: bool, body: &str) -> (r: bool)
    ensures
        r == (status_ok && valid_field_of(body@) == Some(true)),
{
    let valid_field = attestation_valid_field(body);
    attestation_verdict(status_ok, valid_field)
}

/// The verdict of a whole attestation exchange. `None` means the transport
/// itself failed — no connection, a timeout, an unreadable response — and is
/// invalid: the decision to fail closed on a failed or timed-out exchange is
/// taken here, not by the transport.
pub fn verify_attestation_exchange(outcome: Option<(bool, String)>) -> (r: bool)
    ensures
        match outcome {
            Some(exchange) => r == (exchange.0 && valid_field_of(exchange.1@) == Some(true)),
            None => r == false,
        },
{
    match outcome {
        Some((status_ok, body)) => verify_attestation_response(status_ok, body.as_str()),
        None => false,
    }
}

} // verus!
