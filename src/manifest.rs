use vstd::prelude::*;

use crate::error::ValidateError;

verus! {

/// The package metadata that validation looks at.
#[derive(Debug, Clone)]
pub struct PackageInfo {
    pub name: String,
    pub version: String,
    pub edition: String,
    pub license: Option<String>,
    pub description: Option<String>,
    pub repository: Option<String>,
}

/// The optional metadata fields whose absence is reported.
#[derive(Debug, Clone, Copy, PartialEq, Eq, Structural)]
pub enum MetadataField {
    License,
    Repository,
    Description,
}

pub open spec fn opt_text(o: Option<String>) -> Option<Seq<char>> {
    match o {
        Some(s) => Some(s@),
        None => None,
    }
}

/// What `toml` finds under `key` in the `[package]` table of a manifest:
/// `None` where the text is not TOML or has no such table, `Some(None)` where
/// the key is absent or not a string.
pub uninterp spec fn package_field(text: Seq<char>, key: Seq<char>) -> Option<Option<Seq<char>>>;

/// The string under `key` in the package table, if there is one.
pub open spec fn field_text(text: Seq<char>, key: Seq<char>) -> Option<Seq<char>> {
    match package_field(text, key) {
        Some(Some(s)) => Some(s),
        _ => None,
    }
}

/// Relies on `toml::from_str`, `Value::as_table` and `Value::as_str`: reads
/// one string entry of the `[package]` table.
#[verifier::external_body]
fn package_entry(text: &str, key: &str) -> (r: Option<Option<String>>)
    ensures
        match r {
            Some(o) => package_field(text@, key@) == Some(opt_text(o)),
            None => package_field(text@, key@) is None,
        },
{
    let doc: toml::Table = toml::from_str(text).ok()?;
    let package = doc.get("package")?.as_table()?;
    Some(package.get(key).and_then(toml::Value::as_str).map(String::from))
}

/// The string under `key` in the package table, with an absent table read as
/// an absent entry.
fn optional_entry(text: &str, key: &str) -> (r: Option<String>)
    ensures
        opt_text(r) == field_text(text@, key@),
{
    match package_entry(text, key) {
        Some(o) => o,
        None => None,
    }
}

/// What reading a manifest yields: an error where the package table is
/// missing or lacks a required field, the package's fields otherwise.
pub open spec fn manifest_outcome_ok(text: Seq<char>, p: PackageInfo) -> bool {
    &&& Some(p.name@) == field_text(text, "name"@)
    &&& Some(p.version@) == field_text(text, "version"@)
    &&& Some(p.edition@) == field_text(text, "edition"@)
    &&& opt_text(p.license) == field_text(text, "license"@)
    &&& opt_text(p.description) == field_text(text, "description"@)
    &&& opt_text(p.repository) == field_text(text, "repository"@)
}

pub open spec fn has_required_fields(text: Seq<char>) -> bool {
    &&& field_text(text, "name"@) is Some
    &&& field_text(text, "version"@) is Some
    &&& field_text(text, "edition"@) is Some
}

/// Reads the package metadata out of a manifest's text.
pub fn read_manifest(text: &str) -> (r: Result<PackageInfo, ValidateError>)
    ensures
        package_field(text@, "name"@) is None ==> r == Err::<PackageInfo, ValidateError>(
            ValidateError::MissingPackage,
        ),
        package_field(text@, "name"@) is Some && !has_required_fields(text@) ==> r == Err::<
            PackageInfo,
            ValidateError,
        >(ValidateError::MissingField),
        has_required_fields(text@) ==> (r matches Ok(p) && manifest_outcome_ok(text@, p)),
{
    let name = match package_entry(text, "name") {
        None => return Err(ValidateError::MissingPackage),
        Some(o) => o,
    };
    let version = optional_entry(text, "version");
    let edition = optional_entry(text, "edition");
    match (name, version, edition) {
        (Some(name), Some(version), Some(edition)) => {
            let license = optional_entry(text, "license");
            let description = optional_entry(text, "description");
            let repository = optional_entry(text, "repository");
            Ok(PackageInfo { name, version, edition, license, description, repository })
        },
        _ => Err(ValidateError::MissingField),
    }
}

/// The optional fields that `p` lacks, in report order: license, repository,
/// description.
pub open spec fn missing_of(p: PackageInfo) -> Seq<MetadataField> {
    (if p.license is None { seq![MetadataField::License] } else { Seq::empty() })
        + (if p.repository is None { seq![MetadataField::Repository] } else { Seq::empty() })
        + (if p.description is None { seq![MetadataField::Description] } else { Seq::empty() })
}

/// Lists the optional metadata fields the package lacks.
pub fn missing_fields(p: &PackageInfo) -> (r: Vec<MetadataField>)
    ensures
        r@ == missing_of(*p),
{
    let mut r: Vec<MetadataField> = Vec::new();
    if p.license.is_none() {
        r.push(MetadataField::License);
    }
    if p.repository.is_none() {
        r.push(MetadataField::Repository);
    }
    if p.description.is_none() {
        r.push(MetadataField::Description);
    }
    assert(r@ =~= missing_of(*p));
    r
}

/// The edition that needs no warning.
pub open spec fn current_edition() -> Seq<char> {
    "2021"@
}

/// Whether the package's edition is the expected baseline.
pub fn edition_is_current(edition: &str) -> (r: bool)
    ensures
        r == (edition@ == current_edition()),
{
    let expected = String::from_str("2021");
    let given = String::from_str(edition);
    given == expected
}

/// The manifest text with `version` in the package table set to the given
/// text and every other part kept, as `toml_edit` writes it; `None` where the
/// text is not TOML or has no package table.
pub uninterp spec fn manifest_with_version(text: Seq<char>, version: Seq<char>) -> Option<Seq<char>>;

/// Relies on `toml_edit`: parses a `DocumentMut`, sets `package.version` with
/// `Item::get_mut` and prints the document back.
#[verifier::external_body]
fn set_package_version(text: &str, version: &str) -> (r: Option<String>)
    ensures
        opt_text(r) == manifest_with_version(text@, version@),
{
    let mut doc: toml_edit::DocumentMut = text.parse().ok()?;
    let package = doc.get_mut("package")?;
    *package.get_mut("version")? = toml_edit::value(version);
    Some(doc.to_string())
}

/// Rewrites the manifest's version, keeping the rest of the text.
pub fn update_version(text: &str, new_version: &str) -> (r: Result<String, ValidateError>)
    ensures
        match manifest_with_version(text@, new_version@) {
            Some(t) => r matches Ok(s) && s@ == t,
            None => r == Err::<String, ValidateError>(ValidateError::MissingPackage),
        },
{
    match set_package_version(text, new_version) {
        Some(s) => Ok(s),
        None => Err(ValidateError::MissingPackage),
    }
}

} // verus!
