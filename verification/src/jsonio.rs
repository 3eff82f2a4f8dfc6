//! The trusted boundary to the serde_json crate: parsing the caller's
//! rewrite-context JSON into plain values. Verus believes the contracts
//! here; the bodies only call serde_json and convert its values, one arm
//! per JSON kind.

use vstd::prelude::*;
use serde_json::Value;
use crate::context::{CtxV, RawContext, raw_view};

verus! {

#[verifier::external_type_specification]
#[verifier::external_body]
pub struct ExJsonValue(Value);

#[verifier::external_type_specification]
#[verifier::external_body]
#[verifier::reject_recursive_types(K)]
#[verifier::reject_recursive_types(V)]
pub struct ExJsonMap<K, V>(serde_json::Map<K, V>);

/// Relies on `serde_json::from_str` and `Value::is_object`: parses the text
/// and accepts only a top-level JSON object; the error's display text, or a
/// fixed complaint for a non-object, otherwise.
#[verifier::external_body]
fn json_parse_object(raw: &str) -> Result<Value, String> {
    match serde_json::from_str::<Value>(raw) {
        Ok(v) => {
            if v.is_object() {
                Ok(v)
            } else {
                Err(format!("expected a JSON object"))
            }
        },
        Err(e) => Err(format!("{}", e)),
    }
}

/// Relies on `Value::get`: reads an optional field that must hold an array
/// of strings; an absent or null field is no list.
#[verifier::external_body]
fn json_field_string_list(v: &Value, key: &str) -> Result<Option<Vec<String>>, ()> {
    match v.get(key) {
        None => Ok(None),
        Some(Value::Null) => Ok(None),
        Some(Value::Array(items)) => match json_string_items(items) {
            Ok(out) => Ok(Some(out)),
            Err(()) => Err(()),
        },
        Some(_) => Err(()),
    }
}

/// Relies on `serde_json::Value`: each array element must be a string.
#[verifier::external_body]
fn json_string_items(items: &Vec<Value>) -> Result<Vec<String>, ()> {
    let mut out: Vec<String> = Vec::new();
    for item in items.iter() {
        match item {
            Value::String(s) => out.push(s.clone()),
            _ => return Err(()),
        }
    }
    Ok(out)
}

/// Relies on `Value::get`: reads an optional field that must hold an object
/// with string values, as name and text pairs in the object's (sorted) key
/// order; absent or null means no entries.
#[verifier::external_body]
fn json_field_string_pairs(
    v: &Value,
    key: &str,
) -> Result<Vec<(String, String)>, ()> {
    match v.get(key) {
        None => Ok(Vec::new()),
        Some(Value::Null) => Ok(Vec::new()),
        Some(Value::Object(map)) => json_pair_entries(map),
        Some(_) => Err(()),
    }
}

/// Relies on `serde_json::Map` iteration: each member's value must be a
/// string.
#[verifier::external_body]
fn json_pair_entries(map: &serde_json::Map<String, Value>) -> Result<Vec<(String, String)>, ()> {
    let mut out: Vec<(String, String)> = Vec::new();
    for (name, item) in map.iter() {
        match item {
            Value::String(s) => out.push((name.clone(), s.clone())),
            _ => return Err(()),
        }
    }
    Ok(out)
}

/// Relies on `Value::get`: reads an optional field that must hold an array,
/// reducing each element to the literal a placeholder would take.
#[verifier::external_body]
fn json_field_scalar_list(
    v: &Value,
    key: &str,
) -> Result<Vec<Option<String>>, ()> {
    match v.get(key) {
        None => Ok(Vec::new()),
        Some(Value::Null) => Ok(Vec::new()),
        Some(Value::Array(items)) => Ok(json_scalar_items(items)),
        Some(_) => Err(()),
    }
}

/// Relies on `serde_json::Value` and the number and boolean display forms:
/// a string stays itself, a number or boolean becomes its printed text, any
/// other value yields no literal.
#[verifier::external_body]
fn json_scalar_items(items: &Vec<Value>) -> Vec<Option<String>> {
    items.iter().map(|item| match item {
        Value::String(s) => Some(s.clone()),
        Value::Number(n) => Some(format!("{}", n)),
        Value::Bool(b) => Some(format!("{}", b)),
        _ => None,
    }).collect()
}

/// What reading a rewrite-context JSON text yields, before normalisation:
/// the raw field values on success, the failure's message otherwise. The
/// read is a function of the text alone (the object's members come in
/// sorted key order).
pub uninterp spec fn spec_read_context(s: Seq<char>) -> Result<CtxV, Seq<char>>;

/// Relies on the serde_json calls of the helpers above: parses the text,
/// requires a top-level object, and reads the three recognised fields into
/// plain values, leaving unrecognised fields alone.
#[verifier::external_body]
pub(crate) fn read_context(raw: &str) -> (r: Result<RawContext, String>)
    ensures
        r is Ok <==> spec_read_context(raw@) is Ok,
        (r matches Ok(rc) ==> spec_read_context(raw@) matches Ok(cv) && raw_view(&rc) == cv),
        (r matches Err(e) ==> spec_read_context(raw@) matches Err(ev) && e@ == ev),
{
    let v = match json_parse_object(raw) { Ok(v) => v, Err(e) => return Err(e) };
    let table_cache = match json_field_string_list(&v, "tableCache") { Ok(t) => t, Err(()) => return Err(format!("tableCache must be an array of strings")) };
    let views = match json_field_string_pairs(&v, "views") { Ok(t) => t, Err(()) => return Err(format!("views must map names to SQL strings")) };
    let parameters = match json_field_scalar_list(&v, "parameters") { Ok(t) => t, Err(()) => return Err(format!("parameters must be an array")) };
    Ok(RawContext { table_cache, views, parameters })
}

} // verus!
