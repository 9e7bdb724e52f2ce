//! The texts of responses: fixed messages, the health and metrics payloads,
//! and the JSON record that carries a stored value.
use vstd::prelude::*;
use crate::text::{decimal, decimal_text};

verus! {

/// The JSON string literal that serde_json writes for `s`: quoted, with the
/// characters that JSON requires escaped.
pub uninterp spec fn json_quoted(s: Seq<char>) -> Seq<char>;

/// Relies on `serde_json::to_string` applied to a `str`: it writes the JSON
/// string literal of its argument into a `Vec`, which cannot fail.
#[verifier::external_body]
fn json_string(s: &str) -> (r: String)
    ensures
        r@ == json_quoted(s@),
{
    serde_json::to_string(s).unwrap_or_default()
}

/// The record `{"value":<q>}` around the JSON string literal `q`.
pub open spec fn value_frame(q: Seq<char>) -> Seq<char> {
    "{\"value\":"@ + q + "}"@
}

/// The body of a found value: the JSON record with one `value` field.
pub open spec fn value_record(v: Seq<char>) -> Seq<char> {
    value_frame(json_quoted(v))
}

/// Wraps the JSON string literal `quoted` in a record with one `value` field.
pub fn frame_value(quoted: &str) -> (r: String)
    ensures
        r@ == value_frame(quoted@),
{
    let mut r = String::from_str("{\"value\":");
    r.append(quoted);
    r.append("}");
    r
}

/// The JSON record `{"value":...}` that holds `v`.
pub fn value_body(v: &str) -> (r: String)
    ensures
        r@ == value_record(v@),
{
    let q = json_string(v);
    frame_value(q.as_str())
}

/// The health payload for an uptime and a key count.
pub open spec fn health_text(uptime: nat, keys: nat) -> Seq<char> {
    "{\"status\":\"ok\",\"service\":\"shard\",\"version\":\"0.1.0\",\"uptime_seconds\":"@
        + decimal(uptime) + ",\"keys\":"@ + decimal(keys) + "}"@
}

/// The health payload: constant status, service and version, then the uptime
/// in seconds and the number of keys.
pub fn health_body(uptime: u64, keys: usize) -> (r: String)
    ensures
        r@ == health_text(uptime as nat, keys as nat),
{
    let mut r = String::from_str(
        "{\"status\":\"ok\",\"service\":\"shard\",\"version\":\"0.1.0\",\"uptime_seconds\":",
    );
    let u = decimal_text(uptime);
    r.append(u.as_str());
    r.append(",\"keys\":");
    let k = decimal_text(keys as u64);
    r.append(k.as_str());
    r.append("}");
    r
}

/// The metrics exposition for an uptime and a key count.
pub open spec fn metrics_text(uptime: nat, keys: nat) -> Seq<char> {
    "shard_uptime_seconds "@ + decimal(uptime) + "\nshard_keys "@ + decimal(keys) + "\n"@
}

/// The metrics exposition: one `name value` line for the uptime in seconds,
/// one for the number of keys.
pub fn metrics_body(uptime: u64, keys: usize) -> (r: String)
    ensures
        r@ == metrics_text(uptime as nat, keys as nat),
{
    let mut r = String::from_str("shard_uptime_seconds ");
    let u = decimal_text(uptime);
    r.append(u.as_str());
    r.append("\nshard_keys ");
    let k = decimal_text(keys as u64);
    r.append(k.as_str());
    r.append("\n");
    r
}

} // verus!
