//! Resolution of a request's `(name, tag)` to an object reference.

use vstd::prelude::*;
use crate::manifest::{
    document_path, table_at, table_entries, table_get, text_at, value_as_str, value_as_table,
    value_table, value_text, Manifest,
};

verus! {

/// The table under `key` of `table`, when that entry exists and is a table.
fn subtable<'a>(table: &'a toml::Table, key: &str) -> (inner: Option<&'a toml::Table>)
    ensures
        match inner {
            Some(t) => table_at(*table, key@) == Some(*t),
            None => table_at(*table, key@) is None,
        },
{
    match table_get(table, key) {
        Some(value) => value_as_table(value),
        None => None,
    }
}

/// Resolves `(name, tag)` to the object reference the manifest records for
/// it: the `path` string of the entry under `tag` of the entry under `name`.
///
/// `None` is the single not-found outcome. An unknown name, an unknown tag,
/// an entry that is not a table and a `path` that is missing or not a string
/// are not told apart.
pub fn resolve(manifest: &Manifest, name: &str, tag: &str) -> (reference: Option<String>)
    ensures
        match reference {
            Some(path) => manifest.path_of(name@, tag@) == Some(path@),
            None => manifest.path_of(name@, tag@) is None,
        },
{
    let package = match subtable(manifest.root(), name) {
        Some(package) => package,
        None => {
            return None;
        },
    };
    let release = match subtable(package, tag) {
        Some(release) => release,
        None => {
            return None;
        },
    };
    match table_get(release, "path") {
        Some(value) => match value_as_str(value) {
            Some(text) => Some(text.to_owned()),
            None => None,
        },
        None => None,
    }
}

/// Every way of not resolving gives the one not-found outcome, and there is
/// no other way to get it: the name is unknown or its entry is not a table,
/// the tag is unknown under that name or its entry is not a table, or the
/// entry's `path` is missing or not a string.
pub proof fn lemma_not_found_cases(manifest: Manifest, name: Seq<char>, tag: Seq<char>)
    ensures
        manifest.path_of(name, tag) is None <==> {
            let document = manifest.document();
            ||| table_at(document, name) is None
            ||| table_at(table_at(document, name).unwrap(), tag) is None
            ||| text_at(table_at(table_at(document, name).unwrap(), tag).unwrap(), "path"@) is None
        },
        !table_entries(manifest.document()).contains_key(name) ==> manifest.path_of(name, tag)
            is None,
        table_entries(manifest.document()).contains_key(name) && value_table(
            table_entries(manifest.document())[name],
        ) is None ==> manifest.path_of(name, tag) is None,
{
}

/// A pair resolves exactly when the walk finds a table, a table and a
/// string, and then it resolves to that string.
pub proof fn lemma_found_case(
    manifest: Manifest,
    name: Seq<char>,
    tag: Seq<char>,
    package: toml::Table,
    release: toml::Table,
    path: Seq<char>,
)
    requires
        table_at(manifest.document(), name) == Some(package),
        table_at(package, tag) == Some(release),
        table_entries(release).contains_key("path"@),
        value_text(table_entries(release)["path"@]) == Some(path),
    ensures
        manifest.path_of(name, tag) == Some(path),
        document_path(manifest.document(), name, tag) == Some(path),
{
}

} // verus!
