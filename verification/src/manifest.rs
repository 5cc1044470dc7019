//! The manifest: a TOML document of nested tables, `name -> tag -> { path }`.
//!
//! The document is kept as the `toml` crate parsed it. It is read permissively:
//! nothing about its shape is checked when it is loaded, only when a request
//! walks it.

use vstd::prelude::*;
use vstd::utf8::*;

verus! {

/// `toml::map::Map`, the table type of the `toml` crate, taken as opaque.
#[verifier::external_type_specification]
#[verifier::external_body]
#[verifier::reject_recursive_types(K)]
#[verifier::reject_recursive_types(V)]
pub struct ExTomlMap<K, V>(toml::map::Map<K, V>);

/// `toml::Value`, any value of a TOML document, taken as opaque.
#[verifier::external_type_specification]
#[verifier::external_body]
pub struct ExTomlValue(toml::Value);

/// The key/value pairs that a TOML table holds.
pub uninterp spec fn table_entries(table: toml::Table) -> Map<Seq<char>, toml::Value>;

/// The table inside a TOML value, if the value is a table.
pub uninterp spec fn value_table(value: toml::Value) -> Option<toml::Table>;

/// The text inside a TOML value, if the value is a string.
pub uninterp spec fn value_text(value: toml::Value) -> Option<Seq<char>>;

/// The table that a text parses to as a TOML document, if it is one.
pub uninterp spec fn parsed_document(text: Seq<char>) -> Option<toml::Table>;

/// Trusted: `toml::map::Map::get`. Claims that it returns the value stored
/// under `key`, and `None` exactly when the table has no such key.
#[verifier::external_body]
pub(crate) fn table_get<'a>(table: &'a toml::Table, key: &str) -> (found: Option<&'a toml::Value>)
    ensures
        match found {
            Some(value) => table_entries(*table).contains_key(key@) && *value == table_entries(
                *table,
            )[key@],
            None => !table_entries(*table).contains_key(key@),
        },
{
    table.get(key)
}

/// Trusted: `toml::Value::as_table`. Claims that it returns the inner table
/// of a table value and `None` for every other kind of value.
#[verifier::external_body]
pub(crate) fn value_as_table<'a>(value: &'a toml::Value) -> (inner: Option<&'a toml::Table>)
    ensures
        match inner {
            Some(table) => value_table(*value) == Some(*table),
            None => value_table(*value) is None,
        },
{
    value.as_table()
}

/// Trusted: `toml::Value::as_str`. Claims that it returns the inner text of a
/// string value and `None` for every other kind of value.
#[verifier::external_body]
pub(crate) fn value_as_str<'a>(value: &'a toml::Value) -> (inner: Option<&'a str>)
    ensures
        match inner {
            Some(text) => value_text(*value) == Some(text@),
            None => value_text(*value) is None,
        },
{
    value.as_str()
}

/// Trusted: `str::parse::<toml::Table>`, that is `toml::Table`'s `FromStr`.
/// Claims only that the outcome is a function of the text; the parse error
/// is dropped.
#[verifier::external_body]
pub(crate) fn parse_document(text: &str) -> (document: Option<toml::Table>)
    ensures
        document == parsed_document(text@),
{
    match text.parse::<toml::Table>() {
        Ok(table) => Some(table),
        Err(_) => None,
    }
}

/// Trusted: `String::from_utf8`. Claims that it succeeds exactly on valid
/// UTF-8 and then yields the decoded text.
#[verifier::external_body]
pub(crate) fn decode_text(bytes: Vec<u8>) -> (text: Option<String>)
    ensures
        match text {
            Some(t) => valid_utf8(bytes@) && t@ == decode_utf8(bytes@),
            None => !valid_utf8(bytes@),
        },
{
    match String::from_utf8(bytes) {
        Ok(text) => Some(text),
        Err(_) => None,
    }
}

/// The table stored under `key`, if there is an entry and it is a table.
pub open spec fn table_at(table: toml::Table, key: Seq<char>) -> Option<toml::Table> {
    if table_entries(table).contains_key(key) {
        value_table(table_entries(table)[key])
    } else {
        None
    }
}

/// The text stored under `key`, if there is an entry and it is a string.
pub open spec fn text_at(table: toml::Table, key: Seq<char>) -> Option<Seq<char>> {
    if table_entries(table).contains_key(key) {
        value_text(table_entries(table)[key])
    } else {
        None
    }
}

/// The object path that a document gives for `(name, tag)`: the `path` string
/// of the table under `tag` of the table under `name`. Any missing step, or a
/// step of the wrong kind, gives `None`.
pub open spec fn document_path(document: toml::Table, name: Seq<char>, tag: Seq<char>) -> Option<
    Seq<char>,
> {
    match table_at(document, name) {
        Some(package) => match table_at(package, tag) {
            Some(release) => text_at(release, "path"@),
            None => None,
        },
        None => None,
    }
}

/// Why a manifest could not be loaded. Each of these is fatal to startup.
#[derive(Debug, Clone, Copy, PartialEq, Eq, Structural)]
pub enum ManifestError {
    /// The store has no manifest object.
    ManifestMissing,
    /// The object's bytes are not UTF-8 text.
    ManifestUnreadable,
    /// The text is not a TOML document.
    ManifestMalformed,
}

/// The loaded lookup table. Immutable once built.
pub struct Manifest {
    document: toml::Table,
}

impl Manifest {
    /// The parsed document behind this manifest.
    pub closed spec fn document(&self) -> toml::Table {
        self.document
    }

    /// The object path recorded for `(name, tag)`, if the manifest resolves it.
    pub open spec fn path_of(&self, name: Seq<char>, tag: Seq<char>) -> Option<Seq<char>> {
        document_path(self.document(), name, tag)
    }

    /// Parses manifest text. Succeeds exactly when the text is a TOML
    /// document; the entries themselves are not inspected.
    pub fn parse(text: &str) -> (loaded: Result<Manifest, ManifestError>)
        ensures
            match loaded {
                Ok(manifest) => parsed_document(text@) == Some(manifest.document()),
                Err(e) => parsed_document(text@) is None && e == ManifestError::ManifestMalformed,
            },
    {
        match parse_document(text) {
            Some(document) => Ok(Manifest { document }),
            None => Err(ManifestError::ManifestMalformed),
        }
    }

    /// Builds the manifest from what the store returned for the manifest
    /// object: `None` when the object does not exist, its bytes otherwise.
    pub fn load(fetched: Option<Vec<u8>>) -> (loaded: Result<Manifest, ManifestError>)
        ensures
            match loaded {
                Ok(manifest) => load_outcome(fetched) == Ok::<toml::Table, ManifestError>(
                    manifest.document(),
                ),
                Err(e) => load_outcome(fetched) == Err::<toml::Table, ManifestError>(e),
            },
    {
        match fetched {
            None => Err(ManifestError::ManifestMissing),
            Some(bytes) => match decode_text(bytes) {
                None => Err(ManifestError::ManifestUnreadable),
                Some(text) => Manifest::parse(text.as_str()),
            },
        }
    }

    /// The parsed document, for the code that walks it.
    pub(crate) fn root(&self) -> (document: &toml::Table)
        ensures
            *document == self.document(),
    {
        &self.document
    }
}

/// What loading decides for each thing the store can return: missing object,
/// undecodable bytes, unparsable text, or the parsed document.
pub open spec fn load_outcome(fetched: Option<Vec<u8>>) -> Result<toml::Table, ManifestError> {
    match fetched {
        None => Err(ManifestError::ManifestMissing),
        Some(bytes) => if !valid_utf8(bytes@) {
            Err(ManifestError::ManifestUnreadable)
        } else {
            match parsed_document(decode_utf8(bytes@)) {
                Some(document) => Ok(document),
                None => Err(ManifestError::ManifestMalformed),
            }
        },
    }
}

} // verus!
