//! Access to a parsed TOML document, and typed reads of its fields with the
//! defaults that a missing key takes.

use vstd::prelude::*;

use crate::error::{same_outcome, ConfigError, ConfigErrorView};

verus! {

#[verifier::external_type_specification]
#[verifier::external_body]
pub struct ExTomlValue(toml::Value);

#[verifier::external_type_specification]
#[verifier::external_body]
#[verifier::reject_recursive_types(K)]
#[verifier::reject_recursive_types(V)]
pub struct ExTomlMap<K, V>(toml::map::Map<K, V>);

#[verifier::external_type_specification]
#[verifier::external_body]
pub struct ExTomlError(toml::de::Error);

/// A TOML value as plain data.
pub enum TomlView {
    Text(Seq<char>),
    Integer(int),
    Boolean(bool),
    Array(Seq<TomlView>),
    Table(Map<Seq<char>, TomlView>),
    /// A float or a date-time: no setting takes one.
    Other,
}

/// What a TOML value holds.
pub uninterp spec fn value_view(v: toml::Value) -> TomlView;

/// What a TOML table holds, key by key.
pub uninterp spec fn table_view(t: toml::Table) -> Map<Seq<char>, TomlView>;

/// The table that a TOML document denotes, when the text is one.
pub uninterp spec fn toml_parse(text: Seq<char>) -> Option<Map<Seq<char>, TomlView>>;

/// One TOML value, told apart by kind.
pub enum Item {
    Text(String),
    Integer(i64),
    Boolean(bool),
    Array(Vec<toml::Value>),
    Table(toml::Table),
    /// A float or a date-time: no setting takes one.
    Other,
}

/// What an item holds.
pub open spec fn item_view(it: Item) -> TomlView {
    match it {
        Item::Text(s) => TomlView::Text(s@),
        Item::Integer(i) => TomlView::Integer(i as int),
        Item::Boolean(b) => TomlView::Boolean(b),
        Item::Array(a) => TomlView::Array(a@.map_values(|v: toml::Value| value_view(v))),
        Item::Table(t) => TomlView::Table(table_view(t)),
        Item::Other => TomlView::Other,
    }
}

/// Relies on `toml::from_str` reading a whole document into a table; the
/// outcome depends on the text alone.
#[verifier::external_body]
pub(crate) fn parse_document(s: &str) -> (r: Result<toml::Table, toml::de::Error>)
    ensures
        r is Ok <==> toml_parse(s@) is Some,
        r matches Ok(t) ==> toml_parse(s@) == Some(table_view(t)),
{
    toml::from_str::<toml::Table>(s)
}

/// Relies on `toml::de::Error`'s `Display` for a description of the failure.
#[verifier::external_body]
pub(crate) fn describe(e: &toml::de::Error) -> String {
    e.to_string()
}

/// Relies on `toml::map::Map::get`: the value under `key`, if any (cloned).
#[verifier::external_body]
pub(crate) fn lookup(t: &toml::Table, key: &str) -> (r: Option<toml::Value>)
    ensures
        r is Some <==> table_view(*t).contains_key(key@),
        r matches Some(v) ==> value_view(v) == table_view(*t)[key@],
{
    t.get(key).cloned()
}

/// Tells the variants of `toml::Value` apart, moving each payload.
#[verifier::external_body]
pub(crate) fn classify(v: toml::Value) -> (r: Item)
    ensures
        item_view(r) == value_view(v),
{
    match v {
        toml::Value::String(s) => Item::Text(s),
        toml::Value::Integer(i) => Item::Integer(i),
        toml::Value::Boolean(b) => Item::Boolean(b),
        toml::Value::Array(a) => Item::Array(a),
        toml::Value::Table(t) => Item::Table(t),
        toml::Value::Float(_) => Item::Other,
        toml::Value::Datetime(_) => Item::Other,
    }
}

/// The value under `key`, told apart by kind.
pub(crate) fn field(t: &toml::Table, key: &str) -> (r: Option<Item>)
    ensures
        r is Some <==> table_view(*t).contains_key(key@),
        r matches Some(it) ==> item_view(it) == table_view(*t)[key@],
{
    match lookup(t, key) {
        Some(v) => Some(classify(v)),
        None => None,
    }
}

/// The view of an optional text.
pub open spec fn opt_text(o: Option<String>) -> Option<Seq<char>> {
    match o {
        Some(s) => Some(s@),
        None => None,
    }
}

/// A text setting: its value, `default` when the key is absent, or an error.
pub open spec fn text_field(t: Map<Seq<char>, TomlView>, key: Seq<char>, default: Option<Seq<char>>) -> Result<
    Seq<char>,
    ConfigErrorView,
> {
    if t.contains_key(key) {
        match t[key] {
            TomlView::Text(s) => Ok(s),
            _ => Err(ConfigErrorView::WrongType(key)),
        }
    } else {
        match default {
            Some(d) => Ok(d),
            None => Err(ConfigErrorView::MissingField(key)),
        }
    }
}

/// An optional text setting.
pub open spec fn optional_text_field(t: Map<Seq<char>, TomlView>, key: Seq<char>) -> Result<
    Option<Seq<char>>,
    ConfigErrorView,
> {
    if t.contains_key(key) {
        match t[key] {
            TomlView::Text(s) => Ok(Some(s)),
            _ => Err(ConfigErrorView::WrongType(key)),
        }
    } else {
        Ok(None)
    }
}

/// A boolean setting, `default` when the key is absent.
pub open spec fn bool_field(t: Map<Seq<char>, TomlView>, key: Seq<char>, default: bool) -> Result<
    bool,
    ConfigErrorView,
> {
    if t.contains_key(key) {
        match t[key] {
            TomlView::Boolean(b) => Ok(b),
            _ => Err(ConfigErrorView::WrongType(key)),
        }
    } else {
        Ok(default)
    }
}

/// An integer setting within `lo..=hi`, `default` when the key is absent.
pub open spec fn int_field(t: Map<Seq<char>, TomlView>, key: Seq<char>, default: int, lo: int, hi: int) -> Result<
    int,
    ConfigErrorView,
> {
    if t.contains_key(key) {
        match t[key] {
            TomlView::Integer(i) => if lo <= i && i <= hi {
                Ok(i)
            } else {
                Err(ConfigErrorView::WrongType(key))
            },
            _ => Err(ConfigErrorView::WrongType(key)),
        }
    } else {
        Ok(default)
    }
}

/// An integer outcome, seen as one of a narrower type.
pub open spec fn int_outcome<T: View<V = T>>(r: Result<T, ConfigError>, s: Result<int, ConfigErrorView>, as_int: spec_fn(T) -> int) -> bool {
    match s {
        Ok(v) => r matches Ok(x) && as_int(x) == v,
        Err(e) => r matches Err(x) && x@ == e,
    }
}

/// Reads a text setting.
pub fn text_at(t: &toml::Table, key: &str, default: Option<String>) -> (r: Result<String, ConfigError>)
    ensures
        same_outcome(r, text_field(table_view(*t), key@, opt_text(default))),
{
    match field(t, key) {
        None => match default {
            Some(d) => Ok(d),
            None => Err(ConfigError::MissingField(String::from_str(key))),
        },
        Some(Item::Text(s)) => Ok(s),
        Some(_) => Err(ConfigError::WrongType(String::from_str(key))),
    }
}

/// Reads an optional text setting.
pub fn optional_text_at(t: &toml::Table, key: &str) -> (r: Result<Option<String>, ConfigError>)
    ensures
        match optional_text_field(table_view(*t), key@) {
            Ok(v) => r matches Ok(x) && opt_text(x) == v,
            Err(e) => r matches Err(x) && x@ == e,
        },
{
    match field(t, key) {
        None => Ok(None),
        Some(Item::Text(s)) => Ok(Some(s)),
        Some(_) => Err(ConfigError::WrongType(String::from_str(key))),
    }
}

/// Reads a boolean setting.
pub fn bool_at(t: &toml::Table, key: &str, default: bool) -> (r: Result<bool, ConfigError>)
    ensures
        same_outcome(r, bool_field(table_view(*t), key@, default)),
{
    match field(t, key) {
        None => Ok(default),
        Some(Item::Boolean(b)) => Ok(b),
        Some(_) => Err(ConfigError::WrongType(String::from_str(key))),
    }
}

/// Reads a count setting; negative values are refused.
pub fn usize_at(t: &toml::Table, key: &str, default: usize) -> (r: Result<usize, ConfigError>)
    ensures
        int_outcome(r, int_field(table_view(*t), key@, default as int, 0, usize::MAX as int), |x: usize| x as int),
{
    match field(t, key) {
        None => Ok(default),
        Some(Item::Integer(i)) => {
            if 0 <= i && i as u64 <= usize::MAX as u64 {
                Ok(i as usize)
            } else {
                Err(ConfigError::WrongType(String::from_str(key)))
            }
        },
        Some(_) => Err(ConfigError::WrongType(String::from_str(key))),
    }
}

/// Reads a 32-bit signed setting.
pub fn i32_at(t: &toml::Table, key: &str, default: i32) -> (r: Result<i32, ConfigError>)
    ensures
        int_outcome(r, int_field(table_view(*t), key@, default as int, i32::MIN as int, i32::MAX as int), |x: i32| x as int),
{
    match field(t, key) {
        None => Ok(default),
        Some(Item::Integer(i)) => {
            if i32::MIN as i64 <= i && i <= i32::MAX as i64 {
                Ok(i as i32)
            } else {
                Err(ConfigError::WrongType(String::from_str(key)))
            }
        },
        Some(_) => Err(ConfigError::WrongType(String::from_str(key))),
    }
}

/// Reads a non-negative 64-bit setting.
pub fn u64_at(t: &toml::Table, key: &str, default: u64) -> (r: Result<u64, ConfigError>)
    ensures
        int_outcome(r, int_field(table_view(*t), key@, default as int, 0, u64::MAX as int), |x: u64| x as int),
{
    match field(t, key) {
        None => Ok(default),
        Some(Item::Integer(i)) => {
            if 0 <= i {
                Ok(i as u64)
            } else {
                Err(ConfigError::WrongType(String::from_str(key)))
            }
        },
        Some(_) => Err(ConfigError::WrongType(String::from_str(key))),
    }
}

} // verus!
