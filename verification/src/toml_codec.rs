use vstd::prelude::*;

use crate::value::SettingsValue;
use crate::value::ValModel;
use crate::value::depth_at_most;
use crate::value::wf_model;

verus! {

#[verifier::external_type_specification]
#[verifier::external_body]
pub struct ExTomlValue(toml::Value);

/// The text that the TOML serializer produces for (the mirror of) a value.
pub uninterp spec fn toml_text_of(v: ValModel) -> Seq<char>;

/// The value that the TOML parser recovers from a text: `None` on a syntax
/// error or on a scalar the library does not model.
pub uninterp spec fn toml_value_of(s: Seq<char>) -> Option<ValModel>;

/// Mirrors a library value as a generic TOML value, one constructor for one;
/// tables collect into toml's map, which is backed by a `BTreeMap` and so
/// holds its keys sorted and without duplicates.
#[verifier::external_body]
fn to_toml_value(v: &SettingsValue) -> toml::Value {
    match v {
        SettingsValue::Str(s) => toml::Value::String(s.clone()),
        SettingsValue::Int(i) => toml::Value::Integer(*i),
        SettingsValue::Bool(b) => toml::Value::Boolean(*b),
        SettingsValue::Arr(items) => toml::Value::Array(
            items.iter().map(to_toml_value).collect(),
        ),
        SettingsValue::Table(entries) => toml::Value::Table(
            entries.iter().map(|e| (e.0.clone(), to_toml_value(&e.1))).collect(),
        ),
    }
}

/// Mirrors a generic TOML value back as a library value, one constructor for
/// one; floats and datetimes have no counterpart and yield `None`. Tables
/// come back in their map's (sorted) iteration order.
#[verifier::external_body]
fn from_toml_value(v: &toml::Value) -> Option<SettingsValue> {
    match v {
        toml::Value::String(s) => Some(SettingsValue::Str(s.clone())),
        toml::Value::Integer(i) => Some(SettingsValue::Int(*i)),
        toml::Value::Boolean(b) => Some(SettingsValue::Bool(*b)),
        toml::Value::Float(_) => None,
        toml::Value::Datetime(_) => None,
        toml::Value::Array(items) => {
            items.iter().map(from_toml_value).collect::<Option<Vec<_>>>().map(SettingsValue::Arr)
        },
        toml::Value::Table(t) => {
            t.iter().map(|(k, w)| from_toml_value(w).map(|x| (k.clone(), x))).collect::<Option<
                Vec<_>,
            >>().map(SettingsValue::Table)
        },
    }
}

/// Relies on `toml::to_string_pretty`: the text depends on the mirrored value
/// alone. A table always serializes: the writer refuses only non-table
/// roots, string-keyed tables of strings, integers, booleans, arrays and
/// tables have no failure path. When every table of the value lists its keys
/// in strictly increasing order and the value nests at most 66 levels deep,
/// parsing the text back recovers exactly that value: toml's map iterates
/// its keys sorted, the parser rebuilds the same map whatever order the text
/// presents, and both the inline nesting and the dotted header paths of such
/// a document stay well under the parser's recursion limit of 80.
#[verifier::external_body]
pub(crate) fn value_to_text(v: &SettingsValue) -> (r: Option<String>)
    ensures
        v.model() is Table ==> r is Some,
        r matches Some(t) ==> {
            &&& t@ == toml_text_of(v.model())
            &&& wf_model(v.model()) && depth_at_most(v.model(), 66) ==> toml_value_of(t@)
                == Some(v.model())
        },
{
    toml::to_string_pretty(&to_toml_value(v)).ok()
}

/// Relies on `toml::from_str::<toml::Value>`: the parse result depends on the
/// text alone; a syntax error, or a float or datetime scalar, yields `None`.
#[verifier::external_body]
pub(crate) fn text_to_value(s: &str) -> (r: Option<SettingsValue>)
    ensures
        r matches Some(v) ==> toml_value_of(s@) == Some(v.model()),
        r is None ==> toml_value_of(s@) is None,
{
    match toml::from_str::<toml::Value>(s) {
        Ok(v) => from_toml_value(&v),
        Err(_) => None,
    }
}

} // verus!
