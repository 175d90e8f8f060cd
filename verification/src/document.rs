//! Reading single entries out of TOML documents.
use vstd::prelude::*;

verus! {

broadcast use vstd::string::group_string_axioms;

/// What stands at a place in a TOML document.
#[derive(Debug)]
pub enum TomlEntry {
    /// Nothing.
    Absent,
    /// A string.
    Str(String),
    /// A table.
    Table,
    /// A value of another kind (a number, an array, ...).
    Other,
}

/// The content of a [`TomlEntry`].
pub enum TomlEntryV {
    Absent,
    Str(Seq<char>),
    Table,
    Other,
}

impl View for TomlEntry {
    type V = TomlEntryV;

    open spec fn view(&self) -> TomlEntryV {
        match self {
            TomlEntry::Absent => TomlEntryV::Absent,
            TomlEntry::Str(s) => TomlEntryV::Str(s@),
            TomlEntry::Table => TomlEntryV::Table,
            TomlEntry::Other => TomlEntryV::Other,
        }
    }
}

/// What the `toml` crate finds in the document `text` at the top-level
/// entry `table`, or, when `key` is given, at the entry `key` of the
/// table `table`: `Err` with the parser's message when `text` is not a
/// TOML document.
pub uninterp spec fn toml_entry(text: Seq<char>, table: Seq<char>, key: Option<Seq<char>>) -> Result<
    TomlEntryV,
    Seq<char>,
>;

/// The view of a lookup result.
pub open spec fn lookup_view(r: Result<TomlEntry, String>) -> Result<TomlEntryV, Seq<char>> {
    match r {
        Ok(e) => Ok(e@),
        Err(m) => Err(m@),
    }
}

/// The view of an optional key.
pub open spec fn key_view(key: Option<&str>) -> Option<Seq<char>> {
    match key {
        Some(k) => Some(k@),
        None => None,
    }
}

/// Parses `text` with `toml::from_str::<toml::Value>` and takes the entry
/// `table` (then `key` within it) with `Value::get`, telling a string
/// (`Value::String`) and a table (`Value::Table`) from other values; a parse error is rendered with
/// its `Display`. The contract says only that the outcome is the one the
/// crate computes from these arguments; what a TOML document means is not
/// restated here.
#[verifier::external_body]
pub(crate) fn lookup(text: &str, table: &str, key: Option<&str>) -> (r: Result<TomlEntry, String>)
    ensures
        lookup_view(r) == toml_entry(text@, table@, key_view(key)),
{
    let doc = match toml::from_str::<toml::Value>(text) {
        Ok(doc) => doc,
        Err(e) => return Err(e.to_string()),
    };
    let found = match key {
        None => doc.get(table),
        Some(k) => doc.get(table).and_then(|t| t.get(k)),
    };
    Ok(match found {
        None => TomlEntry::Absent,
        Some(toml::Value::String(s)) => TomlEntry::Str(s.clone()),
        Some(toml::Value::Table(_)) => TomlEntry::Table,
        Some(_) => TomlEntry::Other,
    })
}

} // verus!
