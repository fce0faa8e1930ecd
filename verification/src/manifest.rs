//! The manifest: what a package says about its plugin.
//!
//! A manifest is a TOML document with a `metadata` table:
//!
//! ```text
//! [metadata]
//! name = "<non-empty, no whitespace>"
//! version = "<string>"
//! objfile = "<relative path>"
//! description = "<optional string>"
//! ```
//!
//! The name identifies the plugin everywhere else, so a manifest whose name
//! is empty or holds whitespace is not an error among others: it is
//! reported as [`ManifestFault::Unidentifiable`], which a host must treat as
//! fatal.

use vstd::prelude::*;
use vstd::string::StrSliceExecFns;
use vstd::string::StringExecFns;
use crate::document::{
    parse_document, parsed_document, table_entries, table_get, value_as_str, value_as_table,
    value_table, value_text,
};
use crate::error::{ErrorView, IoFailure, VPluginError};

verus! {

/// The conventional path of the manifest inside a package.
pub const MANIFEST_PATH: &'static str = "metadata.toml";

/// The description of one plugin, as its manifest gives it.
#[derive(Debug, Clone)]
pub struct PluginMetadata {
    pub description: Option<String>,
    pub version: String,
    pub name: String,
    /// The path of the manifest that this description was read from.
    pub filename: String,
    /// The path of the shared object inside the unpacked package.
    pub objfile: String,
}

/// A [`PluginMetadata`] as a mathematical value.
pub struct MetadataView {
    pub description: Option<Seq<char>>,
    pub version: Seq<char>,
    pub name: Seq<char>,
    pub filename: Seq<char>,
    pub objfile: Seq<char>,
}

impl View for PluginMetadata {
    type V = MetadataView;

    open spec fn view(&self) -> MetadataView {
        MetadataView {
            description: match self.description {
                Some(d) => Some(d@),
                None => None,
            },
            version: self.version@,
            name: self.name@,
            filename: self.filename@,
            objfile: self.objfile@,
        }
    }
}

/// What the host found when it went to read the manifest.
pub enum ManifestSource {
    /// The manifest's text.
    Text(String),
    /// The file could not be opened.
    Unopened(IoFailure),
    /// The file was opened, but its content could not be read as text.
    Unreadable,
}

/// Why a manifest yields no [`PluginMetadata`].
#[derive(Debug, Clone, PartialEq, Eq)]
pub enum ManifestFault {
    /// An ordinary failure, to be returned to the caller.
    Rejected(VPluginError),
    /// The manifest names no plugin: its `name` is empty or holds
    /// whitespace. No later error could say which plugin it is about, so a
    /// host must not go on.
    Unidentifiable,
}

/// One field of a table, as far as a manifest cares.
pub enum Field {
    /// The table has no such key.
    Absent,
    /// The key holds a string.
    Text(Seq<char>),
    /// The key holds a value of another type.
    Other,
}

/// Whether `c` is white space (the Unicode property `White_Space`).
pub open spec fn is_whitespace(c: char) -> bool {
    let u = c as u32;
    ||| 0x09 <= u <= 0x0D
    ||| u == 0x20
    ||| u == 0x85
    ||| u == 0xA0
    ||| u == 0x1680
    ||| 0x2000 <= u <= 0x200A
    ||| u == 0x2028
    ||| u == 0x2029
    ||| u == 0x202F
    ||| u == 0x205F
    ||| u == 0x3000
}

/// Whether some character of `s` is white space.
pub open spec fn has_whitespace(s: Seq<char>) -> bool {
    exists|i: int| 0 <= i < s.len() && is_whitespace(#[trigger] s[i])
}

/// Whether `name` can identify a plugin: it is not empty and holds no white
/// space.
pub open spec fn identifiable(name: Seq<char>) -> bool {
    name.len() > 0 && !has_whitespace(name)
}

/// The field `key` of `table`.
pub open spec fn field_of(table: toml::Table, key: Seq<char>) -> Field {
    if !table_entries(table).contains_key(key) {
        Field::Absent
    } else {
        match value_text(table_entries(table)[key]) {
            Some(text) => Field::Text(text),
            None => Field::Other,
        }
    }
}

/// The `metadata` table of a document, if it has one.
pub open spec fn metadata_table(document: toml::Table) -> Option<toml::Table> {
    if table_entries(document).contains_key("metadata"@) {
        value_table(table_entries(document)["metadata"@])
    } else {
        None
    }
}

/// The description that a `metadata` table gives, or `None` where the table
/// is not a manifest: `name`, `version` and `objfile` must be strings, and
/// `description` a string if it is there at all. Other keys are ignored.
pub open spec fn described_by(table: toml::Table) -> Option<MetadataView> {
    let name = field_of(table, "name"@);
    let version = field_of(table, "version"@);
    let objfile = field_of(table, "objfile"@);
    let description = field_of(table, "description"@);
    if name is Text && version is Text && objfile is Text && !(description is Other) {
        Some(
            MetadataView {
                description: match description {
                    Field::Text(d) => Some(d),
                    _ => None,
                },
                version: version->Text_0,
                name: name->Text_0,
                filename: MANIFEST_PATH@,
                objfile: objfile->Text_0,
            },
        )
    } else {
        None
    }
}

/// The description that a manifest's text gives, or `None` where the text is
/// not a manifest.
pub open spec fn manifest_of(text: Seq<char>) -> Option<MetadataView> {
    match parsed_document(text) {
        None => None,
        Some(document) => match metadata_table(document) {
            None => None,
            Some(table) => described_by(table),
        },
    }
}

/// A [`ManifestFault`] as a mathematical value.
pub enum FaultView {
    Rejected(ErrorView),
    Unidentifiable,
}

impl View for ManifestFault {
    type V = FaultView;

    open spec fn view(&self) -> FaultView {
        match *self {
            ManifestFault::Rejected(e) => FaultView::Rejected(e@),
            ManifestFault::Unidentifiable => FaultView::Unidentifiable,
        }
    }
}

/// What loading a manifest yields, given what the host found at its path.
pub open spec fn loaded_from(source: ManifestSource) -> Result<MetadataView, FaultView> {
    match source {
        ManifestSource::Unopened(failure) => Err(FaultView::Rejected(VPluginError::of_io(failure))),
        ManifestSource::Unreadable => Err(FaultView::Rejected(ErrorView::ParametersError)),
        ManifestSource::Text(text) => match manifest_of(text@) {
            None => Err(FaultView::Rejected(ErrorView::ParametersError)),
            Some(m) => if identifiable(m.name) {
                Ok(m)
            } else {
                Err(FaultView::Unidentifiable)
            },
        },
    }
}

fn char_is_whitespace(c: char) -> (r: bool)
    ensures
        r == is_whitespace(c),
{
    let u: u32 = c as u32;
    (0x09 <= u && u <= 0x0D) || u == 0x20 || u == 0x85 || u == 0xA0 || u == 0x1680 || (0x2000 <= u
        && u <= 0x200A) || u == 0x2028 || u == 0x2029 || u == 0x202F || u == 0x205F || u == 0x3000
}

/// Whether some character of `s` is white space.
pub fn contains_whitespace(s: &str) -> (r: bool)
    ensures
        r == has_whitespace(s@),
{
    let n: usize = s.unicode_len();
    let mut i: usize = 0;
    while i < n
        invariant
            n == s@.len(),
            i <= n,
            forall|j: int| 0 <= j < i ==> !is_whitespace(#[trigger] s@[j]),
        decreases n - i,
    {
        if char_is_whitespace(s.get_char(i)) {
            return true;
        }
        i += 1;
    }
    false
}

/// Whether `name` can identify a plugin.
pub fn is_identifiable(name: &str) -> (r: bool)
    ensures
        r == identifiable(name@),
{
    !name.is_empty() && !contains_whitespace(name)
}

/// A field as the decoder hands it out.
enum Fetched {
    Absent,
    Text(String),
    Other,
}

impl Fetched {
    spec fn field(self) -> Field {
        match self {
            Fetched::Absent => Field::Absent,
            Fetched::Text(text) => Field::Text(text@),
            Fetched::Other => Field::Other,
        }
    }
}

fn fetch(table: &toml::Table, key: &str) -> (r: Fetched)
    ensures
        r.field() == field_of(*table, key@),
{
    match table_get(table, key) {
        None => Fetched::Absent,
        Some(value) => match value_as_str(value) {
            Some(text) => Fetched::Text(text.to_owned()),
            None => Fetched::Other,
        },
    }
}

fn describe(table: &toml::Table) -> (r: Option<PluginMetadata>)
    ensures
        match r {
            Some(m) => described_by(*table) == Some(m@),
            None => described_by(*table) is None,
        },
{
    let name = fetch(table, "name");
    let version = fetch(table, "version");
    let objfile = fetch(table, "objfile");
    let description = fetch(table, "description");
    match (name, version, objfile, description) {
        (Fetched::Text(name), Fetched::Text(version), Fetched::Text(objfile), Fetched::Text(d)) => {
            Some(
                PluginMetadata {
                    description: Some(d),
                    version,
                    name,
                    filename: String::from_str(MANIFEST_PATH),
                    objfile,
                },
            )
        },
        (Fetched::Text(name), Fetched::Text(version), Fetched::Text(objfile), Fetched::Absent) => {
            Some(
                PluginMetadata {
                    description: None,
                    version,
                    name,
                    filename: String::from_str(MANIFEST_PATH),
                    objfile,
                },
            )
        },
        _ => None,
    }
}

impl PluginMetadata {
    /// The description of a plugin that has not been described yet: every
    /// field empty.
    pub fn blank() -> (m: PluginMetadata)
        ensures
            m@ == (MetadataView {
                description: None,
                version: Seq::empty(),
                name: Seq::empty(),
                filename: Seq::empty(),
                objfile: Seq::empty(),
            }),
    {
        PluginMetadata {
            description: None,
            version: String::new(),
            name: String::new(),
            filename: String::new(),
            objfile: String::new(),
        }
    }

    /// Decodes a text as a document, without asking that it be a manifest.
    /// A host that keeps fields of its own in the manifest reads them from
    /// the document. Text that is not well-formed is a parameter error.
    pub fn read_from_str(string: &str) -> (r: Result<toml::Table, VPluginError>)
        ensures
            match r {
                Ok(document) => parsed_document(string@) == Some(document),
                Err(e) => parsed_document(string@) is None && e@ == ErrorView::ParametersError,
            },
    {
        match parse_document(string) {
            Ok(document) => Ok(document),
            Err(_) => Err(VPluginError::ParametersError),
        }
    }

    /// Decodes a manifest's text. Text that is not a manifest is a parameter
    /// error; of a manifest, the fields are returned as they stand, whether
    /// or not the name can identify a plugin.
    pub fn parse(text: &str) -> (r: Result<PluginMetadata, VPluginError>)
        ensures
            match r {
                Ok(m) => manifest_of(text@) == Some(m@),
                Err(e) => manifest_of(text@) is None && e@ == ErrorView::ParametersError,
            },
    {
        let document = match Self::read_from_str(text) {
            Ok(document) => document,
            Err(e) => {
                return Err(e);
            },
        };
        let table = match table_get(&document, "metadata") {
            Some(value) => match value_as_table(value) {
                Some(table) => table,
                None => {
                    return Err(VPluginError::ParametersError);
                },
            },
            None => {
                return Err(VPluginError::ParametersError);
            },
        };
        match describe(table) {
            Some(m) => Ok(m),
            None => Err(VPluginError::ParametersError),
        }
    }

    /// Loads the description of a plugin from what the host found at the
    /// manifest's path.
    ///
    /// A file that could not be opened is rejected as the failure is
    /// classified; content that is not text, or not a manifest, as a
    /// parameter error. A manifest whose name cannot identify a plugin is
    /// [`ManifestFault::Unidentifiable`]. Any other manifest is loaded.
    pub fn load(source: ManifestSource) -> (r: Result<PluginMetadata, ManifestFault>)
        ensures
            match r {
                Ok(m) => loaded_from(source) == Ok::<MetadataView, FaultView>(m@) && identifiable(
                    m@.name,
                ),
                Err(fault) => loaded_from(source) == Err::<MetadataView, FaultView>(fault@),
            },
    {
        match source {
            ManifestSource::Unopened(failure) => Err(
                ManifestFault::Rejected(VPluginError::from_io(failure)),
            ),
            ManifestSource::Unreadable => Err(
                ManifestFault::Rejected(VPluginError::ParametersError),
            ),
            ManifestSource::Text(text) => match Self::parse(text.as_str()) {
                Err(e) => Err(ManifestFault::Rejected(e)),
                Ok(m) => if is_identifiable(m.name.as_str()) {
                    Ok(m)
                } else {
                    Err(ManifestFault::Unidentifiable)
                },
            },
        }
    }

    /// Whether the version is as it should be: not empty, and without white
    /// space. A manifest with an irregular version still loads; a host may
    /// warn about it.
    pub fn has_regular_version(&self) -> (r: bool)
        ensures
            r == (self@.version.len() > 0 && !has_whitespace(self@.version)),
    {
        !self.version.as_str().is_empty() && !contains_whitespace(self.version.as_str())
    }
}

} // verus!
