//! The nightly build's version and commit, read out of the build manifest.

use vstd::prelude::*;
use crate::fetch::Fetched;
use crate::toml_doc::{parse_toml, toml_child, toml_text, toml_text_tree, toml_tree};
use crate::tree::{text_of, text_view, under, Tree};

verus! {

/// What a build manifest says of the build: its version and the commit it was
/// made from.
#[derive(Clone, Debug, PartialEq, Eq)]
pub struct BuildManifest {
    pub version: String,
    pub commit_hash: String,
}

/// A `BuildManifest` as a pair of character sequences.
pub struct ManifestView {
    pub version: Seq<char>,
    pub commit_hash: Seq<char>,
}

impl View for BuildManifest {
    type V = ManifestView;

    open spec fn view(&self) -> ManifestView {
        ManifestView { version: self.version@, commit_hash: self.commit_hash@ }
    }
}

/// The two fields that a manifest must have, both under `pkg.rust`.
#[derive(Clone, Copy, Debug, PartialEq, Eq, Structural)]
pub enum ManifestField {
    Version,
    GitCommitHash,
}

impl ManifestField {
    /// The key of the field in the manifest's `pkg.rust` table.
    pub open spec fn key(self) -> Seq<char> {
        match self {
            ManifestField::Version => "version"@,
            ManifestField::GitCommitHash => "git_commit_hash"@,
        }
    }

    /// The key of the field in the manifest's `pkg.rust` table.
    pub fn name(&self) -> (r: &'static str)
        ensures
            r@ == self.key(),
    {
        match self {
            ManifestField::Version => "version",
            ManifestField::GitCommitHash => "git_commit_hash",
        }
    }
}

/// Why a manifest body could not be read.
#[derive(Clone, Copy, Debug, PartialEq, Eq, Structural)]
pub enum ParseError {
    /// The body is not a TOML document.
    Malformed,
    /// The document has no string at the place of this field.
    MissingField(ManifestField),
}

/// Why the nightly build could not be resolved.
#[derive(Clone, Copy, Debug, PartialEq, Eq, Structural)]
pub enum ResolveError {
    /// The manifest could not be fetched.
    Fetch,
    /// The manifest was fetched and could not be read.
    Parse(ParseError),
}

/// The string at `pkg.rust.<field>` of a document, if there is one.
pub open spec fn manifest_text(doc: Tree, field: ManifestField) -> Option<Seq<char>> {
    text_of(under(under(doc.child("pkg"@), "rust"@), field.key()))
}

/// The manifest made of the two strings found, or the first field that was
/// not found: the version comes first.
pub open spec fn assembled(version: Option<Seq<char>>, commit_hash: Option<Seq<char>>) -> Result<
    ManifestView,
    ParseError,
> {
    match (version, commit_hash) {
        (None, _) => Err(ParseError::MissingField(ManifestField::Version)),
        (Some(_), None) => Err(ParseError::MissingField(ManifestField::GitCommitHash)),
        (Some(v), Some(h)) => Ok(ManifestView { version: v, commit_hash: h }),
    }
}

/// What a parsed document says of the build.
pub open spec fn manifest_of(doc: Tree) -> Result<ManifestView, ParseError> {
    assembled(
        manifest_text(doc, ManifestField::Version),
        manifest_text(doc, ManifestField::GitCommitHash),
    )
}

/// What a manifest body says of the build.
pub open spec fn manifest_of_text(body: Seq<char>) -> Result<ManifestView, ParseError> {
    match toml_text_tree(body) {
        Some(doc) => manifest_of(doc),
        None => Err(ParseError::Malformed),
    }
}

/// What the outcome of fetching the manifest says of the build.
pub open spec fn resolved(fetched: Fetched) -> Result<ManifestView, ResolveError> {
    match fetched {
        Fetched::Body(body) => match manifest_of_text(body@) {
            Ok(manifest) => Ok(manifest),
            Err(e) => Err(ResolveError::Parse(e)),
        },
        _ => Err(ResolveError::Fetch),
    }
}

/// A result with its manifest taken by its view.
pub open spec fn viewed<E>(r: Result<BuildManifest, E>) -> Result<ManifestView, E> {
    match r {
        Ok(manifest) => Ok(manifest@),
        Err(e) => Err(e),
    }
}

/// Puts a manifest together from the two strings looked up, and names the
/// first one that is missing.
pub fn assemble(version: Option<String>, commit_hash: Option<String>) -> (r: Result<
    BuildManifest,
    ParseError,
>)
    ensures
        viewed(r) == assembled(text_view(version), text_view(commit_hash)),
{
    match version {
        None => Err(ParseError::MissingField(ManifestField::Version)),
        Some(version) => match commit_hash {
            None => Err(ParseError::MissingField(ManifestField::GitCommitHash)),
            Some(commit_hash) => Ok(BuildManifest { version, commit_hash }),
        },
    }
}

/// Looks up the string at `pkg.rust.<field>` of a parsed manifest.
pub fn manifest_field(doc: &toml::Value, field: ManifestField) -> (r: Option<String>)
    ensures
        text_view(r) == manifest_text(toml_tree(*doc), field),
{
    let pkg = match toml_child(doc, "pkg") {
        Some(pkg) => pkg,
        None => { return None; },
    };
    let rust = match toml_child(pkg, "rust") {
        Some(rust) => rust,
        None => { return None; },
    };
    let entry = match toml_child(rust, field.name()) {
        Some(entry) => entry,
        None => { return None; },
    };
    match toml_text(entry) {
        Some(s) => Some(s.to_owned()),
        None => None,
    }
}

/// Reads the build's version and commit out of a parsed manifest.
pub fn manifest_from_document(doc: &toml::Value) -> (r: Result<BuildManifest, ParseError>)
    ensures
        viewed(r) == manifest_of(toml_tree(*doc)),
{
    let version = manifest_field(doc, ManifestField::Version);
    let commit_hash = manifest_field(doc, ManifestField::GitCommitHash);
    assemble(version, commit_hash)
}

/// Reads the build's version and commit out of a manifest body.
pub fn parse_manifest(body: &str) -> (r: Result<BuildManifest, ParseError>)
    ensures
        viewed(r) == manifest_of_text(body@),
{
    match parse_toml(body) {
        Ok(doc) => manifest_from_document(&doc),
        Err(_) => Err(ParseError::Malformed),
    }
}

/// Resolves the nightly build from the outcome of fetching its manifest: a
/// fetch that failed is a `Fetch` error, a body that cannot be read a `Parse`
/// error, and a body with both fields gives them as they stand.
pub fn resolve(fetched: &Fetched) -> (r: Result<BuildManifest, ResolveError>)
    ensures
        viewed(r) == resolved(*fetched),
{
    match fetched {
        Fetched::Body(body) => match parse_manifest(body.as_str()) {
            Ok(manifest) => Ok(manifest),
            Err(e) => Err(ResolveError::Parse(e)),
        },
        _ => Err(ResolveError::Fetch),
    }
}

/// A manifest that has a string at both fields gives exactly those two
/// strings, whatever else it holds.
pub proof fn lemma_fields_returned_unchanged(doc: Tree, version: Seq<char>, commit_hash: Seq<char>)
    requires
        manifest_text(doc, ManifestField::Version) == Some(version),
        manifest_text(doc, ManifestField::GitCommitHash) == Some(commit_hash),
    ensures
        manifest_of(doc) == Ok::<ManifestView, ParseError>(ManifestView { version, commit_hash }),
        forall|body: String|
            toml_text_tree(body@) == Some(doc) ==> #[trigger] resolved(Fetched::Body(body)) == Ok::<
                ManifestView,
                ResolveError,
            >(ManifestView { version, commit_hash }),
{
}

/// A manifest that lacks a field is rejected with a `MissingField` error
/// that names a field it lacks: the version where that is missing, else the
/// commit.
pub proof fn lemma_missing_field_named(doc: Tree)
    requires
        manifest_text(doc, ManifestField::Version) is None || manifest_text(
            doc,
            ManifestField::GitCommitHash,
        ) is None,
    ensures
        manifest_of(doc) matches Err(ParseError::MissingField(field)) && manifest_text(doc, field)
            is None && (manifest_text(doc, ManifestField::Version) is None ==> field
            == ManifestField::Version),
        forall|body: String|
            toml_text_tree(body@) == Some(doc) ==> (#[trigger] resolved(Fetched::Body(body))
                matches Err(ResolveError::Parse(ParseError::MissingField(field)))
                && manifest_text(doc, field) is None && (manifest_text(
                doc,
                ManifestField::Version,
            ) is None ==> field == ManifestField::Version)),
{
}

} // verus!
