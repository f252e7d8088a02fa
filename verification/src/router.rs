//! Decoding of inbound frames: a text frame is parsed as JSON, and one event
//! is picked to forward — the first element of an envelope's `messages` list,
//! or the payload itself when it is no such envelope.

use vstd::prelude::*;

verus! {

#[verifier::external_type_specification]
#[verifier::external_body]
pub struct ExValue(serde_json::Value);

/// The text is well-formed JSON, as serde_json parses it.
pub uninterp spec fn json_parses(s: Seq<char>) -> bool;

/// Relies on serde_json::from_str: returns the parsed value exactly when the
/// text is well-formed JSON.
#[verifier::external_body]
fn parse_json(text: &str) -> (r: Option<serde_json::Value>)
    ensures
        r is Some <==> json_parses(text@),
{
    serde_json::from_str::<serde_json::Value>(text).ok()
}

/// Relies on serde_json::Value::get: the value at `key` when `v` is a JSON
/// object holding that key.
#[verifier::external_body]
fn json_get<'a>(v: &'a serde_json::Value, key: &str) -> (r: Option<&'a serde_json::Value>) {
    v.get(key)
}

/// Relies on serde_json::Value::as_array: the elements when `v` is a JSON
/// array.
#[verifier::external_body]
fn json_as_array<'a>(v: &'a serde_json::Value) -> (r: Option<&'a Vec<serde_json::Value>>) {
    v.as_array()
}

/// Relies on serde_json::Value's Clone: the clone equals the original.
#[verifier::external_body]
fn clone_json(v: &serde_json::Value) -> (r: serde_json::Value)
    ensures
        r == *v,
{
    v.clone()
}

/// Copies a list of candidate events out of an envelope.
fn clone_values(vals: &Vec<serde_json::Value>) -> (r: Vec<serde_json::Value>)
    ensures
        r@ == vals@,
{
    let mut out: Vec<serde_json::Value> = Vec::new();
    let mut i: usize = 0;
    while i < vals.len()
        invariant
            i <= vals@.len(),
            out@ =~= vals@.subrange(0, i as int),
        decreases vals@.len() - i,
    {
        out.push(clone_json(&vals[i]));
        i += 1;
    }
    proof {
        assert(out@ =~= vals@);
    }
    out
}

/// The candidate events of an envelope payload: the elements of a list-valued
/// `messages` field, when the payload has one.
fn envelope_candidates(v: &serde_json::Value) -> Option<Vec<serde_json::Value>> {
    match json_get(v, "messages") {
        Some(field) => match json_as_array(field) {
            Some(elements) => Some(clone_values(elements)),
            None => None,
        },
        None => None,
    }
}

/// The one event forwarded for a parsed payload: the first candidate of the
/// envelope's list when there is at least one, else the payload itself — also
/// when the list is present but empty.
pub fn select_event(whole: serde_json::Value, candidates: Option<Vec<serde_json::Value>>) -> (r:
    serde_json::Value)
    ensures
        (match candidates {
            Some(c) => if c@.len() > 0 {
                r == c@[0]
            } else {
                r == whole
            },
            None => r == whole,
        }),
{
    match candidates {
        Some(mut c) => if c.len() > 0 {
            c.remove(0)
        } else {
            whole
        },
        None => whole,
    }
}

/// Decodes one text frame: `None` exactly on text that is not well-formed
/// JSON — such a frame is dropped — and otherwise the one event to forward,
/// picked by `select_event` from the parsed payload.
pub fn decode_frame(text: &str) -> (r: Option<serde_json::Value>)
    ensures
        r is Some <==> json_parses(text@),
{
    match parse_json(text) {
        Some(payload) => {
            let candidates = envelope_candidates(&payload);
            Some(select_event(payload, candidates))
        },
        None => None,
    }
}

} // verus!
