use vstd::prelude::*;

use crate::json::JsonV;
use crate::json::JsonValue;
use crate::text::lex_lt;

verus! {

/// Names the value that serde_json reads out of a JSON text, converted
/// into the crate's own JSON type, or nothing when the text is not
/// well-formed JSON; the outcome depends on the text alone.
pub uninterp spec fn parsed_json(s: Seq<char>) -> Option<JsonV>;

/// Strict key order of adjacent object entries.
pub open spec fn jv_keys_sorted(entries: Seq<(Seq<char>, JsonV)>, i: int) -> bool
    decreases entries.len() - i,
{
    if i < 0 || i + 1 >= entries.len() {
        true
    } else {
        lex_lt(entries[i].0, entries[i + 1].0) && jv_keys_sorted(entries, i + 1)
    }
}

pub open spec fn jv_sorted_seq(elems: Seq<JsonV>, i: int) -> bool
    decreases elems, elems.len() - i,
{
    if i < 0 || i >= elems.len() {
        true
    } else {
        jv_sorted(elems[i]) && jv_sorted_seq(elems, i + 1)
    }
}

pub open spec fn jv_sorted_entries(entries: Seq<(Seq<char>, JsonV)>, i: int) -> bool
    decreases entries, entries.len() - i,
{
    if i < 0 || i >= entries.len() {
        true
    } else {
        jv_sorted(entries[i].1) && jv_sorted_entries(entries, i + 1)
    }
}

/// Every object anywhere in the value keeps its entries strictly sorted
/// by key, as an ordered map hands them out.
pub open spec fn jv_sorted(j: JsonV) -> bool
    decreases j, 0int,
{
    match j {
        JsonV::Arr(elems) => jv_sorted_seq(elems, 0),
        JsonV::Obj(entries) => jv_keys_sorted(entries, 0) && jv_sorted_entries(entries, 0),
        _ => true,
    }
}

/// Relies on serde_json::Value: each variant is carried over one for
/// one; a number keeps its display text; object entries keep the
/// iteration order of serde_json's map. Serves the body of
/// `parse_json` alone.
#[verifier::external_body]
fn value_to_json(v: &serde_json::Value) -> JsonValue {
    match v {
        serde_json::Value::Null => JsonValue::Null,
        serde_json::Value::Bool(b) => JsonValue::Bool(*b),
        serde_json::Value::Number(n) => JsonValue::Num(n.to_string()),
        serde_json::Value::String(s) => JsonValue::Str(s.clone()),
        serde_json::Value::Array(a) => JsonValue::Arr(a.iter().map(value_to_json).collect()),
        serde_json::Value::Object(m) => JsonValue::Obj(
            m.iter().map(|(k, x)| (k.clone(), value_to_json(x))).collect(),
        ),
    }
}

#[verifier::external_type_specification]
#[verifier::external_body]
pub struct ExValue(serde_json::Value);

/// Relies on serde_json::from_str::<serde_json::Value>: parses a JSON
/// text into a generic value, here converted field for field into the
/// crate's own JSON type. serde_json's map is an ordered map, so the
/// entries of every object come out strictly sorted by key.
#[verifier::external_body]
pub fn parse_json(s: &str) -> (r: Option<JsonValue>)
    ensures
        (match r {
            Some(v) => parsed_json(s@) == Some(v.deep_view()) && jv_sorted(v.deep_view()),
            None => parsed_json(s@) is None,
        }),
{
    match serde_json::from_str::<serde_json::Value>(s) {
        Ok(v) => Some(value_to_json(&v)),
        Err(_) => None,
    }
}

} // verus!
