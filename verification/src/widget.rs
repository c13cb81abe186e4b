//! The "create widget" operation.
//!
//! A widget is an arbitrary JSON payload. Creating one assigns it a fresh
//! identifier and measures the byte length of the payload's compact JSON
//! encoding; the response reports both. Serialization is a trusted call
//! into `serde_json`; the measuring step keeps the lenient rule that a
//! failed serialization counts as zero rather than failing the request,
//! though serializing a JSON value in fact always succeeds. The response is
//! additionally delayed by the configured number of milliseconds, decided
//! here and performed by the caller.

use vstd::prelude::*;

use crate::config::{cfg_view, sleep_millis, sleep_millis_spec};
use crate::ident::{is_uuid_v4_str, new_widget_id};

verus! {

#[verifier::external_type_specification]
#[verifier::external_body]
pub struct ExJsonValue(serde_json::Value);

/// The compact JSON encoding of a value: a function of the value alone.
pub uninterp spec fn json_bytes_of(v: serde_json::Value) -> Seq<u8>;

/// Relies on `serde_json::to_vec`: the compact (no extraneous whitespace)
/// JSON encoding of the value, which depends on the value alone. It fails
/// only when a `Serialize` impl decides to fail or a map has non-string
/// keys; `Value`'s maps key by `String` and its `Serialize` impl introduces
/// no failure of its own, so on a `Value` it always succeeds.
#[verifier::external_body]
fn serialize_payload(v: &serde_json::Value) -> (r: Option<Vec<u8>>)
    ensures
        r is Some,
        r matches Some(b) ==> b@ == json_bytes_of(*v),
{
    serde_json::to_vec(v).ok()
}

/// The size a widget reports for its payload: the byte length of the
/// payload's encoding when serialization produced one, and zero when it did
/// not.
pub fn measured_size(bytes: Option<Vec<u8>>) -> (r: usize)
    ensures
        bytes matches Some(b) ==> r == b@.len(),
        bytes is None ==> r == 0,
{
    match bytes {
        Some(b) => b.len(),
        None => 0,
    }
}

/// The byte length of the payload's compact JSON encoding. The zero
/// fallback of `measured_size` (the deliberate lenient masking of a
/// serialization failure) is never taken here, since serializing a JSON
/// value always succeeds.
pub fn payload_size(payload: &serde_json::Value) -> (r: usize)
    ensures
        r as nat == json_bytes_of(*payload).len(),
{
    let bytes = serialize_payload(payload);
    measured_size(bytes)
}

/// What a widget creation reports: the fresh identifier and the measured
/// payload size.
pub struct WidgetCreateResponse {
    pub id: String,
    pub size: usize,
}

/// A well-formed creation response for `payload`: the identifier has the
/// version-4 UUID shape, and the size is the byte length of the payload's
/// compact JSON encoding.
pub open spec fn response_ok(resp: WidgetCreateResponse, payload: serde_json::Value) -> bool {
    &&& is_uuid_v4_str(resp.id@)
    &&& resp.size as nat == json_bytes_of(payload).len()
}

/// Processes one widget creation: generates a fresh identifier, measures
/// the payload, and decides the artificial delay from the configuration
/// value. Returns the response together with the milliseconds the caller
/// must wait before sending it, or `None` when the configured delay is
/// unusable, which the caller must treat as fatal.
pub fn process_widget(payload: &serde_json::Value, sleep_cfg: Option<&str>) -> (r: Option<
    (WidgetCreateResponse, u64),
>)
    ensures
        r is Some <==> sleep_millis_spec(cfg_view(sleep_cfg)) is Some,
        r matches Some(p) ==> response_ok(p.0, *payload) && Some(p.1) == sleep_millis_spec(
            cfg_view(sleep_cfg),
        ),
{
    let id = new_widget_id();
    let bytes = serialize_payload(payload);
    let size = measured_size(bytes);
    match sleep_millis(sleep_cfg) {
        Some(ms) => Some((WidgetCreateResponse { id, size }, ms)),
        None => None,
    }
}

} // verus!
