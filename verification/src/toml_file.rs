//! TOML documents as the configuration file uses them: a top-level table of
//! values and sections (tables of values). The `toml` crate parses and
//! prints the text; looking values up by key and type is done here.

use vstd::prelude::*;
use crate::text::text_eq;

verus! {

/// A value in a TOML table: text, an integer, a boolean, or anything else
/// (a float, a date, an array, or a table inside a section).
#[derive(Debug, Clone, PartialEq, Eq)]
pub enum TomlScalar {
    Text(String),
    Integer(i64),
    Boolean(bool),
    Other,
}

/// An entry of a document's top-level table: a key with a value, or a key
/// with a section, whose fields are keys with values.
#[derive(Debug, Clone, PartialEq, Eq)]
pub enum TomlEntry {
    Value(String, TomlScalar),
    Section(String, Vec<(String, TomlScalar)>),
}

/// A value written to a TOML table.
#[derive(Debug, Clone, PartialEq, Eq)]
pub enum TomlField {
    Text(String),
    Integer(i64),
    Boolean(bool),
}

/// An entry written to a document's top-level table.
#[derive(Debug, Clone, PartialEq, Eq)]
pub enum TomlWriteEntry {
    Value(String, TomlField),
    Section(String, Vec<(String, TomlField)>),
}

/// The abstract value of a TOML value.
pub enum TomlScalarModel {
    Text(Seq<char>),
    Integer(i64),
    Boolean(bool),
    Other,
}

/// The abstract value of a top-level entry.
pub enum TomlEntryModel {
    Value(Seq<char>, TomlScalarModel),
    Section(Seq<char>, Seq<(Seq<char>, TomlScalarModel)>),
}

pub open spec fn scalar_model(value: TomlScalar) -> TomlScalarModel {
    match value {
        TomlScalar::Text(text) => TomlScalarModel::Text(text@),
        TomlScalar::Integer(number) => TomlScalarModel::Integer(number),
        TomlScalar::Boolean(flag) => TomlScalarModel::Boolean(flag),
        TomlScalar::Other => TomlScalarModel::Other,
    }
}

pub open spec fn fields_model(fields: Seq<(String, TomlScalar)>) -> Seq<(Seq<char>, TomlScalarModel)> {
    fields.map_values(|field: (String, TomlScalar)| (field.0@, scalar_model(field.1)))
}

pub open spec fn entry_model(entry: TomlEntry) -> TomlEntryModel {
    match entry {
        TomlEntry::Value(key, value) => TomlEntryModel::Value(key@, scalar_model(value)),
        TomlEntry::Section(key, fields) => TomlEntryModel::Section(key@, fields_model(fields@)),
    }
}

pub open spec fn entries_model(entries: Seq<TomlEntry>) -> Seq<TomlEntryModel> {
    entries.map_values(|entry: TomlEntry| entry_model(entry))
}

pub open spec fn document_model(document: Option<Vec<TomlEntry>>) -> Option<Seq<TomlEntryModel>> {
    match document {
        Some(entries) => Some(entries_model(entries@)),
        None => None,
    }
}

pub open spec fn field_model(value: TomlField) -> TomlScalarModel {
    match value {
        TomlField::Text(text) => TomlScalarModel::Text(text@),
        TomlField::Integer(number) => TomlScalarModel::Integer(number),
        TomlField::Boolean(flag) => TomlScalarModel::Boolean(flag),
    }
}

pub open spec fn write_entry_model(entry: TomlWriteEntry) -> TomlEntryModel {
    match entry {
        TomlWriteEntry::Value(key, value) => TomlEntryModel::Value(key@, field_model(value)),
        TomlWriteEntry::Section(key, fields) => TomlEntryModel::Section(
            key@,
            fields@.map_values(|field: (String, TomlField)| (field.0@, field_model(field.1))),
        ),
    }
}

pub open spec fn write_entries_model(entries: Seq<TomlWriteEntry>) -> Seq<TomlEntryModel> {
    entries.map_values(|entry: TomlWriteEntry| write_entry_model(entry))
}

/// What the `toml` crate reads from `text` as a table: its entries (in the
/// crate's key order), or nothing when `text` is not a TOML document.
pub uninterp spec fn toml_document(text: Seq<char>) -> Option<Seq<TomlEntryModel>>;

/// What `toml::to_string_pretty` prints for the table of `entries`, or
/// nothing when it reports an error.
pub uninterp spec fn toml_pretty(entries: Seq<TomlEntryModel>) -> Option<Seq<char>>;

/// Parses `text` with `toml`'s `str::parse::<toml::Table>`; each value
/// becomes the variant of its kind, a table at the top level a section.
/// The contract only names the result: what the parser accepts and yields
/// is the `toml` crate's grammar.
#[verifier::external_body]
pub fn parse_toml_document(text: &str) -> (document: Option<Vec<TomlEntry>>)
    ensures
        document_model(document) == toml_document(text@),
{
    let scalar = |value: &toml::Value| match value {
        toml::Value::String(text) => TomlScalar::Text(text.clone()),
        toml::Value::Integer(number) => TomlScalar::Integer(*number),
        toml::Value::Boolean(flag) => TomlScalar::Boolean(*flag),
        _ => TomlScalar::Other,
    };
    let table = text.parse::<toml::Table>().ok()?;
    Some(table.iter().map(|(key, value)| match value {
        toml::Value::Table(section) => TomlEntry::Section(key.clone(), section.iter().map(|(key, value)| (key.clone(), scalar(value))).collect()),
        _ => TomlEntry::Value(key.clone(), scalar(value)),
    }).collect())
}

/// Prints the table of `entries` with `toml::to_string_pretty`; an error
/// of the printer gives `None`. The contract only names the text.
#[verifier::external_body]
pub fn toml_pretty_text(entries: &Vec<TomlWriteEntry>) -> (text: Option<String>)
    ensures
        match text {
            Some(t) => toml_pretty(write_entries_model(entries@)) == Some(t@),
            None => toml_pretty(write_entries_model(entries@)) is None,
        },
{
    let scalar = |value: &TomlField| match value {
        TomlField::Text(text) => toml::Value::String(text.clone()),
        TomlField::Integer(number) => toml::Value::Integer(*number),
        TomlField::Boolean(flag) => toml::Value::Boolean(*flag),
    };
    let table: toml::Table = entries.iter().map(|entry| match entry {
        TomlWriteEntry::Value(key, value) => (key.clone(), scalar(value)),
        TomlWriteEntry::Section(key, fields) => (key.clone(), toml::Value::Table(fields.iter().map(|(key, value)| (key.clone(), scalar(value))).collect())),
    }).collect();
    toml::to_string_pretty(&table).ok()
}

// ---------------------------------------------------------------------------
// Looking values up
// ---------------------------------------------------------------------------

pub open spec fn entry_key(entry: TomlEntryModel) -> Seq<char> {
    match entry {
        TomlEntryModel::Value(key, _) => key,
        TomlEntryModel::Section(key, _) => key,
    }
}

/// The first entry under `key`, searching from `from`.
pub open spec fn entry_under(entries: Seq<TomlEntryModel>, key: Seq<char>, from: int) -> Option<TomlEntryModel>
    decreases entries.len() - from,
{
    if from < 0 || from >= entries.len() {
        None
    } else if entry_key(entries[from]) == key {
        Some(entries[from])
    } else {
        entry_under(entries, key, from + 1)
    }
}

/// The value under `key`, when the entry there is a value.
pub open spec fn value_under(entries: Seq<TomlEntryModel>, key: Seq<char>) -> Option<TomlScalarModel> {
    match entry_under(entries, key, 0) {
        Some(TomlEntryModel::Value(_, value)) => Some(value),
        _ => None,
    }
}

/// The section under `key`, when the entry there is a section.
pub open spec fn section_under(entries: Seq<TomlEntryModel>, key: Seq<char>) -> Option<Seq<(Seq<char>, TomlScalarModel)>> {
    match entry_under(entries, key, 0) {
        Some(TomlEntryModel::Section(_, fields)) => Some(fields),
        _ => None,
    }
}

/// The first field under `key`, searching from `from`.
pub open spec fn field_under(fields: Seq<(Seq<char>, TomlScalarModel)>, key: Seq<char>, from: int) -> Option<TomlScalarModel>
    decreases fields.len() - from,
{
    if from < 0 || from >= fields.len() {
        None
    } else if fields[from].0 == key {
        Some(fields[from].1)
    } else {
        field_under(fields, key, from + 1)
    }
}

pub open spec fn as_text(value: Option<TomlScalarModel>) -> Option<Seq<char>> {
    match value {
        Some(TomlScalarModel::Text(text)) => Some(text),
        _ => None,
    }
}

pub open spec fn as_integer(value: Option<TomlScalarModel>) -> Option<i64> {
    match value {
        Some(TomlScalarModel::Integer(number)) => Some(number),
        _ => None,
    }
}

pub open spec fn as_boolean(value: Option<TomlScalarModel>) -> Option<bool> {
    match value {
        Some(TomlScalarModel::Boolean(flag)) => Some(flag),
        _ => None,
    }
}

/// The entry of `entries` under `key`.
pub fn find_toml_entry<'a>(entries: &'a Vec<TomlEntry>, key: &str) -> (found: Option<&'a TomlEntry>)
    ensures
        match found {
            Some(entry) => entry_under(entries_model(entries@), key@, 0) == Some(entry_model(*entry)),
            None => entry_under(entries_model(entries@), key@, 0) is None,
        },
{
    let ghost model = entries_model(entries@);
    let mut i: usize = 0;
    while i < entries.len()
        invariant
            i <= entries@.len(),
            model == entries_model(entries@),
            entry_under(model, key@, 0) == entry_under(model, key@, i as int),
        decreases entries@.len() - i,
    {
        let entry_key_text = match &entries[i] {
            TomlEntry::Value(k, _) => k,
            TomlEntry::Section(k, _) => k,
        };
        assert(model[i as int] == entry_model(entries@[i as int]));
        if text_eq(entry_key_text.as_str(), key) {
            return Some(&entries[i]);
        }
        i = i + 1;
    }
    None
}

/// The value of `fields` under `key`.
pub fn find_toml_field<'a>(fields: &'a Vec<(String, TomlScalar)>, key: &str) -> (found: Option<&'a TomlScalar>)
    ensures
        match found {
            Some(value) => field_under(fields_model(fields@), key@, 0) == Some(scalar_model(*value)),
            None => field_under(fields_model(fields@), key@, 0) is None,
        },
{
    let ghost model = fields_model(fields@);
    let mut i: usize = 0;
    while i < fields.len()
        invariant
            i <= fields@.len(),
            model == fields_model(fields@),
            field_under(model, key@, 0) == field_under(model, key@, i as int),
        decreases fields@.len() - i,
    {
        assert(model[i as int] == (fields@[i as int].0@, scalar_model(fields@[i as int].1)));
        if text_eq(fields[i].0.as_str(), key) {
            return Some(&fields[i].1);
        }
        i = i + 1;
    }
    None
}

} // verus!
