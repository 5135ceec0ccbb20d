//! The manifest version writer: parse a package manifest, replace the version
//! entry of its top-level `package` table, and render the document back to
//! text. Parsing, the entry update and rendering are done by the `toml_edit`
//! crate, a format-preserving TOML editor; each call into it stands behind a
//! trusted wrapper whose contract states what the crate documents. The editor
//! preserves comments, unrelated keys and whitespace, but it normalizes two
//! things on every document — it ends the output with a newline and renders
//! dotted keys in table order — so the contracts speak of the normalized
//! text, never of an exact byte round trip.

use vstd::prelude::*;

verus! {

#[verifier::external_type_specification]
#[verifier::external_body]
pub struct ExDocumentMut(toml_edit::DocumentMut);

#[verifier::external_type_specification]
#[verifier::external_body]
pub struct ExTomlError(toml_edit::TomlError);

/// Whether a text is a well-formed TOML document.
pub uninterp spec fn toml_parses(s: Seq<char>) -> bool;

/// What a parsed document holds: the text it renders to.
pub uninterp spec fn doc_text(d: toml_edit::DocumentMut) -> Seq<char>;

/// The normalized form of a TOML text: what a freshly parsed document renders
/// back to. `toml_edit` keeps every comment, every unrelated key and all
/// whitespace, but ends the output with a newline and renders dotted keys in
/// table order (its two documented limitations), so the normalized text can
/// differ from the input in exactly those ways.
pub uninterp spec fn canon(s: Seq<char>) -> Seq<char>;

/// Whether a TOML text has a top-level table of the given name holding an
/// entry of the given key.
pub uninterp spec fn has_table_entry(s: Seq<char>, table: Seq<char>, key: Seq<char>) -> bool;

/// The text after the keyed entry of the named top-level table is replaced by
/// the given string as a default-formatted value. A function of the old text,
/// the two names and the value alone.
pub uninterp spec fn set_entry_text(
    s: Seq<char>,
    table: Seq<char>,
    key: Seq<char>,
    value: Seq<char>,
) -> Seq<char>;

/// Relies on `toml_edit::DocumentMut::from_str`: parsing succeeds exactly on
/// well-formed TOML, the parsed document renders back to the input in the
/// crate's normalized form, and normalization keeps the document's content —
/// in particular, which tables hold which entries.
#[verifier::external_body]
fn parse_document(s: &str) -> (r: Result<toml_edit::DocumentMut, toml_edit::TomlError>)
    ensures
        r is Ok <==> toml_parses(s@),
        r matches Ok(d) ==> doc_text(d) == canon(s@),
        r matches Ok(d) ==> forall|table: Seq<char>, key: Seq<char>|
            #[trigger] has_table_entry(doc_text(d), table, key) == has_table_entry(s@, table, key),
{
    s.parse::<toml_edit::DocumentMut>()
}

/// Relies on `toml_edit`'s `Display` for `DocumentMut`: rendering gives the
/// document's text.
#[verifier::external_body]
fn render_document(d: &toml_edit::DocumentMut) -> (r: String)
    ensures
        r@ == doc_text(*d),
{
    d.to_string()
}

/// Relies on `toml_edit`'s `Table::get_mut`, `Item::as_table_mut` and
/// `value`: when the named top-level table has an entry under the given key,
/// that entry is replaced by the given string as a default-formatted value
/// and nothing else changes; otherwise the document is untouched. The edited
/// document renders to well-formed, already-normalized TOML that still has
/// the entry, and replacing the entry again with the same value writes the
/// same default-formatted item, so the text changes no further.
#[verifier::external_body]
fn doc_set_table_entry(
    doc: &mut toml_edit::DocumentMut,
    table_key: &str,
    entry_key: &str,
    value: &str,
) -> (r: bool)
    ensures
        r == has_table_entry(doc_text(*old(doc)), table_key@, entry_key@),
        !r ==> doc_text(*final(doc)) == doc_text(*old(doc)),
        r ==> doc_text(*final(doc)) == set_entry_text(
            doc_text(*old(doc)),
            table_key@,
            entry_key@,
            value@,
        ),
        r ==> toml_parses(doc_text(*final(doc))),
        r ==> canon(doc_text(*final(doc))) == doc_text(*final(doc)),
        r ==> has_table_entry(doc_text(*final(doc)), table_key@, entry_key@),
        r ==> set_entry_text(doc_text(*final(doc)), table_key@, entry_key@, value@) == doc_text(
            *final(doc),
        ),
{
    match doc.get_mut(table_key) {
        Some(item) => match item.as_table_mut() {
            Some(table) => match table.get_mut(entry_key) {
                Some(entry) => {
                    *entry = toml_edit::value(value);
                    true
                },
                None => false,
            },
            None => false,
        },
        None => false,
    }
}

/// Why a manifest text cannot be versioned: it is not well-formed TOML, or
/// its `package` table has no `version` entry to replace.
#[derive(Clone, Copy, PartialEq, Eq, Structural, Debug)]
pub enum ManifestError {
    Unparsable,
    MissingVersion,
}

/// The new manifest text: `text` in its normalized form with the `version`
/// entry of its `package` table set to `version`, everything else preserved.
/// Succeeds exactly on a well-formed manifest that has such an entry, and is
/// idempotent: the output is normalized, and applying the same update to it
/// changes nothing.
pub fn set_manifest_version(text: &str, version: &str) -> (r: Result<String, ManifestError>)
    ensures
        r is Ok <==> toml_parses(text@) && has_table_entry(text@, "package"@, "version"@),
        r matches Ok(out) ==> out@ == set_entry_text(
            canon(text@),
            "package"@,
            "version"@,
            version@,
        ),
        r matches Ok(out) ==> toml_parses(out@) && has_table_entry(out@, "package"@, "version"@),
        r matches Ok(out) ==> canon(out@) == out@,
        r matches Ok(out) ==> set_entry_text(out@, "package"@, "version"@, version@) == out@,
        r matches Err(e) ==> ((e == ManifestError::Unparsable) <==> !toml_parses(text@)),
        r matches Err(e) ==> ((e == ManifestError::MissingVersion) <==> (toml_parses(text@)
            && !has_table_entry(text@, "package"@, "version"@))),
{
    let mut doc = match parse_document(text) {
        Ok(d) => d,
        Err(_) => {
            return Err(ManifestError::Unparsable);
        },
    };
    let replaced = doc_set_table_entry(&mut doc, "package", "version", version);
    if !replaced {
        return Err(ManifestError::MissingVersion);
    }
    Ok(render_document(&doc))
}

} // verus!
