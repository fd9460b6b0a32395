//! A TOML document as the loader reads it: toml's own table and value types,
//! a model of what they hold, and the few calls made into toml.
use vstd::prelude::*;

verus! {

#[verifier::external_type_specification]
#[verifier::external_body]
#[verifier::reject_recursive_types(K)]
#[verifier::reject_recursive_types(V)]
pub struct ExTomlMap<K, V>(toml::map::Map<K, V>);

#[verifier::external_type_specification]
#[verifier::external_body]
pub struct ExTomlValue(toml::Value);

#[verifier::external_type_specification]
#[verifier::external_body]
pub struct ExTomlDeError(toml::de::Error);

/// What a TOML value holds, as far as the options schema reads it.
pub enum TomlValue {
    Integer(i64),
    /// A float, as its IEEE-754 binary64 bit pattern.
    Float(u64),
    Text(Seq<char>),
    Table(Map<Seq<char>, TomlValue>),
    /// A boolean, a datetime or an array.
    Other,
}

/// The entries of a toml table: each key with the model of its value.
pub uninterp spec fn table_model(t: toml::Table) -> Map<Seq<char>, TomlValue>;

/// The model of a toml value: `String` as `Text`, `Integer` as is, `Float` by
/// `f64::to_bits`, `Table` by its entries, anything else as `Other`.
pub uninterp spec fn value_model(v: toml::Value) -> TomlValue;

/// The entries of the top-level table that toml parses from a text, or `None`
/// where the text is no valid TOML.
pub uninterp spec fn parsed_document(text: Seq<char>) -> Option<Map<Seq<char>, TomlValue>>;

/// Relies on `toml::from_str` into a `toml::Table`: it succeeds exactly on
/// valid TOML, and what it gives depends on the text alone.
#[verifier::external_body]
pub(crate) fn parse_table(text: &str) -> (r: Result<toml::Table, toml::de::Error>)
    ensures
        match r {
            Ok(t) => parsed_document(text@) == Some(table_model(t)),
            Err(_) => parsed_document(text@) is None,
        },
{
    toml::from_str::<toml::Table>(text)
}

/// Relies on `toml::map::Map::get`: the value stored under `key`, if any.
#[verifier::external_body]
pub(crate) fn table_get<'a>(t: &'a toml::Table, key: &str) -> (r: Option<&'a toml::Value>)
    ensures
        match r {
            Some(v) => table_model(*t).contains_key(key@) && value_model(*v)
                == table_model(*t)[key@],
            None => !table_model(*t).contains_key(key@),
        },
{
    t.get(key)
}

/// Relies on `toml::Value::as_table`: the table that a `Table` value holds.
#[verifier::external_body]
pub(crate) fn value_as_table(v: &toml::Value) -> (r: Option<&toml::Table>)
    ensures
        match r {
            Some(t) => value_model(*v) == TomlValue::Table(table_model(*t)),
            None => !(value_model(*v) is Table),
        },
{
    v.as_table()
}

/// Relies on `toml::Value::as_integer`: the integer that an `Integer` value holds.
#[verifier::external_body]
pub(crate) fn value_as_integer(v: &toml::Value) -> (r: Option<i64>)
    ensures
        match r {
            Some(i) => value_model(*v) == TomlValue::Integer(i),
            None => !(value_model(*v) is Integer),
        },
{
    v.as_integer()
}

/// Relies on `toml::Value::as_str`: the text that a `String` value holds.
#[verifier::external_body]
pub(crate) fn value_as_str(v: &toml::Value) -> (r: Option<&str>)
    ensures
        match r {
            Some(s) => value_model(*v) == TomlValue::Text(s@),
            None => !(value_model(*v) is Text),
        },
{
    v.as_str()
}

/// Relies on `toml::Value::as_float`: the float that a `Float` value holds,
/// given by its bit pattern.
#[verifier::external_body]
pub(crate) fn value_as_float_bits(v: &toml::Value) -> (r: Option<u64>)
    ensures
        match r {
            Some(b) => value_model(*v) == TomlValue::Float(b),
            None => !(value_model(*v) is Float),
        },
{
    v.as_float().map(|x| x.to_bits())
}

} // verus!
