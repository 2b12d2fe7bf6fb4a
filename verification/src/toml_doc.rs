//! The crate's own model of a parsed TOML document, and the trusted call
//! into the `toml` crate that produces one from text.

use vstd::prelude::*;

verus! {

/// A TOML value, as this crate reads it. Floats and datetimes carry nothing
/// the configuration schema uses, so both land in `Other`.
pub enum TomlValue {
    Str(String),
    Int(i64),
    Bool(bool),
    Arr(Vec<TomlValue>),
    Table(Vec<(String, TomlValue)>),
    Other,
}

/// The value under `key` in a table's entries: the first binding wins.
pub open spec fn spec_lookup(entries: Seq<(String, TomlValue)>, key: Seq<char>) -> Option<
    TomlValue,
>
    decreases entries.len(),
{
    if entries.len() == 0 {
        None
    } else if entries[0].0@ == key {
        Some(entries[0].1)
    } else {
        spec_lookup(entries.drop_first(), key)
    }
}

proof fn lemma_lookup_skip(entries: Seq<(String, TomlValue)>, key: Seq<char>, i: int)
    requires
        0 <= i <= entries.len(),
        forall|j: int| 0 <= j < i ==> (#[trigger] entries[j].0)@ != key,
    ensures
        spec_lookup(entries, key) == spec_lookup(entries.skip(i), key),
    decreases i,
{
    if i > 0 {
        lemma_lookup_skip(entries, key, i - 1);
        let t = entries.skip(i - 1);
        assert(t[0] == entries[i - 1]);
        assert(t.drop_first() =~= entries.skip(i));
    } else {
        assert(entries.skip(0) =~= entries);
    }
}

/// Finds `key` among a table's entries.
pub fn lookup<'a>(entries: &'a Vec<(String, TomlValue)>, key: &str) -> (r: Option<&'a TomlValue>)
    ensures
        match r {
            Some(v) => spec_lookup(entries@, key@) == Some(*v),
            None => spec_lookup(entries@, key@) is None,
        },
{
    let n = entries.len();
    for i in 0..n
        invariant
            n == entries@.len(),
            forall|j: int| 0 <= j < i ==> (#[trigger] entries@[j].0)@ != key@,
    {
        if crate::text::str_eq(entries[i].0.as_str(), key) {
            proof {
                lemma_lookup_skip(entries@, key@, i as int);
                assert(entries@.skip(i as int)[0] == entries@[i as int]);
            }
            return Some(&entries[i].1);
        }
    }
    proof {
        lemma_lookup_skip(entries@, key@, n as int);
        assert(entries@.skip(n as int) =~= Seq::<(String, TomlValue)>::empty());
    }
    None
}

/// The document a text parses to, when it is well-formed TOML: what
/// `toml::from_str` returns, carried over into this crate's model.
pub uninterp spec fn toml_document(s: Seq<char>) -> Option<TomlValue>;

/// A table with no entries, the document of the empty text.
pub open spec fn spec_is_empty_table(v: TomlValue) -> bool {
    v matches TomlValue::Table(es) && es@.len() == 0
}

#[verifier::external_type_specification]
#[verifier::external_body]
pub struct ExTomlValue(toml::Value);

/// Relies on the shape of `toml::Value`: each variant is carried across,
/// one arm each, fields moved as they stand; floats and datetimes hold
/// nothing the schema reads.
#[verifier::external_body]
fn from_toml_value(v: toml::Value) -> TomlValue {
    match v {
        toml::Value::String(s) => TomlValue::Str(s),
        toml::Value::Integer(i) => TomlValue::Int(i),
        toml::Value::Float(_) => TomlValue::Other,
        toml::Value::Boolean(b) => TomlValue::Bool(b),
        toml::Value::Datetime(_) => TomlValue::Other,
        toml::Value::Array(a) => TomlValue::Arr(a.into_iter().map(from_toml_value).collect()),
        toml::Value::Table(t) => TomlValue::Table(
            t.into_iter().map(|(k, v)| (k, from_toml_value(v))).collect(),
        ),
    }
}

/// Relies on `toml::from_str::<toml::Value>`: whether a text parses, and
/// what it parses to, depend on the text alone; a TOML document is a table,
/// and the empty text is the empty table.
#[verifier::external_body]
pub(crate) fn parse_toml(text: &str) -> (r: Result<TomlValue, String>)
    ensures
        r matches Ok(v) ==> toml_document(text@) == Some(v),
        r is Err ==> toml_document(text@) is None,
        r matches Ok(v) ==> v is Table,
        r is Err ==> text@.len() != 0,
        r matches Ok(v) ==> (text@.len() == 0 ==> spec_is_empty_table(v)),
{
    match toml::from_str::<toml::Value>(text) {
        Ok(v) => Ok(from_toml_value(v)),
        Err(e) => Err(e.to_string()),
    }
}

} // verus!
