//! Plugin metadata, its builder, and the reading of a plugin manifest.

use vstd::prelude::*;
use crate::text::text_eq;

verus! {

/// What a plugin says of itself. The id is its address on the bus and its
/// key in the registry.
#[derive(Debug, PartialEq, Eq)]
pub struct LYServerPluginMetadata {
    pub id: String,
    pub name: String,
    pub description: String,
    pub version: String,
    pub author: String,
    pub wasm_entry_point: Option<String>,
}

/// The mathematical value of plugin metadata.
pub struct MetadataModel {
    pub id: Seq<char>,
    pub name: Seq<char>,
    pub description: Seq<char>,
    pub version: Seq<char>,
    pub author: Seq<char>,
    pub wasm_entry_point: Option<Seq<char>>,
}

impl MetadataModel {
    /// Metadata with every text empty and no entry point.
    pub open spec fn empty() -> MetadataModel {
        MetadataModel {
            id: Seq::empty(),
            name: Seq::empty(),
            description: Seq::empty(),
            version: Seq::empty(),
            author: Seq::empty(),
            wasm_entry_point: None,
        }
    }
}

impl View for LYServerPluginMetadata {
    type V = MetadataModel;

    open spec fn view(&self) -> MetadataModel {
        MetadataModel {
            id: self.id@,
            name: self.name@,
            description: self.description@,
            version: self.version@,
            author: self.author@,
            wasm_entry_point: match self.wasm_entry_point {
                Some(s) => Some(s@),
                None => None,
            },
        }
    }
}

impl Clone for LYServerPluginMetadata {
    fn clone(&self) -> (r: Self)
        ensures
            r@ == self@,
    {
        LYServerPluginMetadata {
            id: self.id.clone(),
            name: self.name.clone(),
            description: self.description.clone(),
            version: self.version.clone(),
            author: self.author.clone(),
            wasm_entry_point: match &self.wasm_entry_point {
                Some(s) => Some(s.clone()),
                None => None,
            },
        }
    }
}

impl Default for LYServerPluginMetadata {
    fn default() -> (r: Self)
        ensures
            r@ == MetadataModel::empty(),
    {
        LYServerPluginMetadata {
            id: String::new(),
            name: String::new(),
            description: String::new(),
            version: String::new(),
            author: String::new(),
            wasm_entry_point: None,
        }
    }
}

impl LYServerPluginMetadata {
    /// A builder that starts from empty metadata.
    pub fn builder() -> (r: LYServerPluginMetadataBuilder)
        ensures
            r@ == MetadataModel::empty(),
    {
        LYServerPluginMetadataBuilder::default()
    }
}

/// Builds plugin metadata field by field.
pub struct LYServerPluginMetadataBuilder {
    metadata: LYServerPluginMetadata,
}

impl View for LYServerPluginMetadataBuilder {
    type V = MetadataModel;

    closed spec fn view(&self) -> MetadataModel {
        self.metadata@
    }
}

impl Default for LYServerPluginMetadataBuilder {
    fn default() -> (r: Self)
        ensures
            r@ == MetadataModel::empty(),
    {
        LYServerPluginMetadataBuilder { metadata: LYServerPluginMetadata::default() }
    }
}

impl LYServerPluginMetadataBuilder {
    /// Sets the id.
    pub fn id(self, id: &str) -> (r: Self)
        ensures
            r@ == (MetadataModel { id: id@, ..self@ }),
    {
        let mut metadata = self.metadata;
        metadata.id = id.to_owned();
        LYServerPluginMetadataBuilder { metadata }
    }

    /// Sets the name.
    pub fn name(self, name: &str) -> (r: Self)
        ensures
            r@ == (MetadataModel { name: name@, ..self@ }),
    {
        let mut metadata = self.metadata;
        metadata.name = name.to_owned();
        LYServerPluginMetadataBuilder { metadata }
    }

    /// Sets the description.
    pub fn description(self, description: &str) -> (r: Self)
        ensures
            r@ == (MetadataModel { description: description@, ..self@ }),
    {
        let mut metadata = self.metadata;
        metadata.description = description.to_owned();
        LYServerPluginMetadataBuilder { metadata }
    }

    /// Sets the version.
    pub fn version(self, version: &str) -> (r: Self)
        ensures
            r@ == (MetadataModel { version: version@, ..self@ }),
    {
        let mut metadata = self.metadata;
        metadata.version = version.to_owned();
        LYServerPluginMetadataBuilder { metadata }
    }

    /// Sets the author.
    pub fn author(self, author: &str) -> (r: Self)
        ensures
            r@ == (MetadataModel { author: author@, ..self@ }),
    {
        let mut metadata = self.metadata;
        metadata.author = author.to_owned();
        LYServerPluginMetadataBuilder { metadata }
    }

    /// Sets the entry point of the WebAssembly module.
    pub fn wasm_entry_point(self, entry_point: &str) -> (r: Self)
        ensures
            r@ == (MetadataModel { wasm_entry_point: Some(entry_point@), ..self@ }),
    {
        let mut metadata = self.metadata;
        metadata.wasm_entry_point = Some(entry_point.to_owned());
        LYServerPluginMetadataBuilder { metadata }
    }

    /// The metadata that was built.
    pub fn build(self) -> (r: LYServerPluginMetadata)
        ensures
            r@ == self@,
    {
        self.metadata
    }
}

/// A top-level value of a manifest. Only a text is kept; of every other
/// value the manifest's reader needs no more than its kind.
#[derive(Debug, PartialEq, Eq)]
pub enum LYServerManifestValue {
    Text(String),
    Integer,
    Float,
    Boolean,
    Datetime,
    Array,
    Table,
}

/// The text of a manifest value, if it is one.
pub open spec fn manifest_text(value: LYServerManifestValue) -> Option<Seq<char>> {
    match value {
        LYServerManifestValue::Text(s) => Some(s@),
        _ => None,
    }
}

/// The top-level keys of a manifest, each with the text of its value if the
/// value is a text.
pub type ManifestEntries = Seq<(Seq<char>, Option<Seq<char>>)>;

/// Entries as mathematical values.
pub open spec fn entries_model(entries: Seq<(String, LYServerManifestValue)>) -> ManifestEntries {
    Seq::new(entries.len(), |i: int| (entries[i].0@, manifest_text(entries[i].1)))
}

/// The top-level table of a TOML document as the `toml` parser reads it, or
/// nothing where the text is no TOML document.
pub uninterp spec fn toml_document(text: Seq<char>) -> Option<ManifestEntries>;

/// Makes `toml::de::Error`, the error of the `toml` parser, known as a type.
/// Nothing is said of what it holds.
#[verifier::external_type_specification]
#[verifier::external_body]
pub struct ExTomlError(toml::de::Error);

/// Parses the text with `str::parse::<toml::Table>` and copies the table's
/// entries, in the table's order. The outcome depends on the text alone: the
/// entries of the top-level table, or the parser's error.
#[verifier::external_body]
pub(crate) fn parse_document(text: &str) -> (r: Result<
    Vec<(String, LYServerManifestValue)>,
    toml::de::Error,
>)
    ensures
        match r {
            Ok(entries) => toml_document(text@) == Some(entries_model(entries@)),
            Err(_) => toml_document(text@).is_none(),
        },
{
    let table = text.parse::<toml::Table>()?;
    Ok(table.into_iter().map(|(key, value)| (key, match value {
        toml::Value::String(s) => LYServerManifestValue::Text(s),
        toml::Value::Integer(_) => LYServerManifestValue::Integer,
        toml::Value::Float(_) => LYServerManifestValue::Float,
        toml::Value::Boolean(_) => LYServerManifestValue::Boolean,
        toml::Value::Datetime(_) => LYServerManifestValue::Datetime,
        toml::Value::Array(_) => LYServerManifestValue::Array,
        toml::Value::Table(_) => LYServerManifestValue::Table,
    })).collect())
}

/// The fields of a manifest.
#[derive(Clone, Copy, Debug, PartialEq, Eq, Structural)]
pub enum LYServerManifestField {
    Id,
    Name,
    Description,
    Version,
    Author,
    WasmEntryPoint,
}

impl LYServerManifestField {
    /// The key of the field in a manifest.
    pub open spec fn key(self) -> Seq<char> {
        match self {
            LYServerManifestField::Id => "id"@,
            LYServerManifestField::Name => "name"@,
            LYServerManifestField::Description => "description"@,
            LYServerManifestField::Version => "version"@,
            LYServerManifestField::Author => "author"@,
            LYServerManifestField::WasmEntryPoint => "wasm_entry_point"@,
        }
    }

    /// The key of the field in a manifest.
    pub fn key_text(self) -> (r: &'static str)
        ensures
            r@ == self.key(),
    {
        match self {
            LYServerManifestField::Id => "id",
            LYServerManifestField::Name => "name",
            LYServerManifestField::Description => "description",
            LYServerManifestField::Version => "version",
            LYServerManifestField::Author => "author",
            LYServerManifestField::WasmEntryPoint => "wasm_entry_point",
        }
    }
}

/// Why a manifest gives no metadata.
#[derive(Clone, Copy, Debug, PartialEq, Eq, Structural)]
pub enum LYServerManifestError {
    /// The text is no TOML document.
    Syntax,
    /// A field that has to be there is missing.
    Missing(LYServerManifestField),
    /// A field is there and is no text.
    NotText(LYServerManifestField),
}

/// Whether some entry has the key.
pub open spec fn has_entry(entries: ManifestEntries, key: Seq<char>) -> bool {
    exists|i: int| 0 <= i < entries.len() && (#[trigger] entries[i]).0 == key
}

/// The first entry with the key.
pub open spec fn first_entry(entries: ManifestEntries, key: Seq<char>) -> int {
    choose|i: int|
        0 <= i < entries.len() && (#[trigger] entries[i]).0 == key && forall|j: int|
            0 <= j < i ==> (#[trigger] entries[j]).0 != key
}

/// What a field is in a manifest: missing, a text, or something else.
pub open spec fn field_of(entries: ManifestEntries, field: LYServerManifestField) -> Result<
    Option<Seq<char>>,
    LYServerManifestError,
> {
    if !has_entry(entries, field.key()) {
        Ok(None)
    } else {
        match entries[first_entry(entries, field.key())].1 {
            Some(text) => Ok(Some(text)),
            None => Err(LYServerManifestError::NotText(field)),
        }
    }
}

/// What a field that has to be there is in a manifest.
pub open spec fn required_field(entries: ManifestEntries, field: LYServerManifestField) -> Result<
    Seq<char>,
    LYServerManifestError,
> {
    match field_of(entries, field) {
        Ok(Some(text)) => Ok(text),
        Ok(None) => Err(LYServerManifestError::Missing(field)),
        Err(e) => Err(e),
    }
}

/// What a field that may be missing is in a manifest: the empty text where
/// it is missing.
pub open spec fn optional_field(entries: ManifestEntries, field: LYServerManifestField) -> Result<
    Seq<char>,
    LYServerManifestError,
> {
    match field_of(entries, field) {
        Ok(Some(text)) => Ok(text),
        Ok(None) => Ok(Seq::empty()),
        Err(e) => Err(e),
    }
}

/// The metadata that a manifest's entries give. The id has to be there;
/// name, description, version and author are empty where they are missing;
/// the entry point may be missing; every field that is there has to be a
/// text; every other key is ignored. The first field that fails, in this
/// order, decides the error.
pub open spec fn metadata_of(entries: ManifestEntries) -> Result<
    MetadataModel,
    LYServerManifestError,
> {
    let id = required_field(entries, LYServerManifestField::Id);
    let name = optional_field(entries, LYServerManifestField::Name);
    let description = optional_field(entries, LYServerManifestField::Description);
    let version = optional_field(entries, LYServerManifestField::Version);
    let author = optional_field(entries, LYServerManifestField::Author);
    let entry_point = field_of(entries, LYServerManifestField::WasmEntryPoint);
    if id is Err {
        Err(id->Err_0)
    } else if name is Err {
        Err(name->Err_0)
    } else if description is Err {
        Err(description->Err_0)
    } else if version is Err {
        Err(version->Err_0)
    } else if author is Err {
        Err(author->Err_0)
    } else if entry_point is Err {
        Err(entry_point->Err_0)
    } else {
        Ok(
            MetadataModel {
                id: id->Ok_0,
                name: name->Ok_0,
                description: description->Ok_0,
                version: version->Ok_0,
                author: author->Ok_0,
                wasm_entry_point: entry_point->Ok_0,
            },
        )
    }
}

/// The metadata that a manifest text gives.
pub open spec fn manifest_metadata(text: Seq<char>) -> Result<MetadataModel, LYServerManifestError> {
    match toml_document(text) {
        Some(entries) => metadata_of(entries),
        None => Err(LYServerManifestError::Syntax),
    }
}

/// Reads one field from a manifest's entries.
fn read_field(entries: &Vec<(String, LYServerManifestValue)>, field: LYServerManifestField) -> (r:
    Result<Option<String>, LYServerManifestError>)
    ensures
        match r {
            Ok(Some(text)) => field_of(entries_model(entries@), field) == Ok::<
                Option<Seq<char>>,
                LYServerManifestError,
            >(Some(text@)),
            Ok(None) => field_of(entries_model(entries@), field) == Ok::<
                Option<Seq<char>>,
                LYServerManifestError,
            >(None),
            Err(e) => field_of(entries_model(entries@), field) == Err::<
                Option<Seq<char>>,
                LYServerManifestError,
            >(e),
        },
{
    let ghost model = entries_model(entries@);
    let key = field.key_text();
    let n: usize = entries.len();
    let mut i: usize = 0;
    while i < n
        invariant
            n == entries@.len(),
            i <= n,
            model == entries_model(entries@),
            key@ == field.key(),
            forall|j: int| 0 <= j < i ==> (#[trigger] model[j]).0 != key@,
        decreases n - i,
    {
        if text_eq(entries[i].0.as_str(), key) {
            proof {
                assert(model[i as int].0 == key@);
                assert(has_entry(model, key@));
                let f = first_entry(model, key@);
                assert(f == i) by {
                    if f < i {
                        assert(model[f].0 != key@);
                    }
                }
            }
            return match &entries[i].1 {
                LYServerManifestValue::Text(s) => Ok(Some(s.clone())),
                _ => Err(LYServerManifestError::NotText(field)),
            };
        }
        i = i + 1;
    }
    Ok(None)
}

/// Reads one field that has to be there.
fn read_required(entries: &Vec<(String, LYServerManifestValue)>, field: LYServerManifestField) -> (r:
    Result<String, LYServerManifestError>)
    ensures
        match r {
            Ok(text) => required_field(entries_model(entries@), field) == Ok::<
                Seq<char>,
                LYServerManifestError,
            >(text@),
            Err(e) => required_field(entries_model(entries@), field) == Err::<
                Seq<char>,
                LYServerManifestError,
            >(e),
        },
{
    match read_field(entries, field) {
        Ok(Some(text)) => Ok(text),
        Ok(None) => Err(LYServerManifestError::Missing(field)),
        Err(e) => Err(e),
    }
}

/// Reads one field that may be missing.
fn read_optional(entries: &Vec<(String, LYServerManifestValue)>, field: LYServerManifestField) -> (r:
    Result<String, LYServerManifestError>)
    ensures
        match r {
            Ok(text) => optional_field(entries_model(entries@), field) == Ok::<
                Seq<char>,
                LYServerManifestError,
            >(text@),
            Err(e) => optional_field(entries_model(entries@), field) == Err::<
                Seq<char>,
                LYServerManifestError,
            >(e),
        },
{
    match read_field(entries, field) {
        Ok(Some(text)) => Ok(text),
        Ok(None) => Ok(String::new()),
        Err(e) => Err(e),
    }
}

impl LYServerPluginMetadata {
    /// The metadata that the entries of a manifest give.
    pub fn from_entries(entries: &Vec<(String, LYServerManifestValue)>) -> (r: Result<
        Self,
        LYServerManifestError,
    >)
        ensures
            match r {
                Ok(metadata) => metadata_of(entries_model(entries@)) == Ok::<
                    MetadataModel,
                    LYServerManifestError,
                >(metadata@),
                Err(e) => metadata_of(entries_model(entries@)) == Err::<
                    MetadataModel,
                    LYServerManifestError,
                >(e),
            },
    {
        let id = match read_required(entries, LYServerManifestField::Id) {
            Ok(text) => text,
            Err(e) => {
                return Err(e);
            },
        };
        let name = match read_optional(entries, LYServerManifestField::Name) {
            Ok(text) => text,
            Err(e) => {
                return Err(e);
            },
        };
        let description = match read_optional(entries, LYServerManifestField::Description) {
            Ok(text) => text,
            Err(e) => {
                return Err(e);
            },
        };
        let version = match read_optional(entries, LYServerManifestField::Version) {
            Ok(text) => text,
            Err(e) => {
                return Err(e);
            },
        };
        let author = match read_optional(entries, LYServerManifestField::Author) {
            Ok(text) => text,
            Err(e) => {
                return Err(e);
            },
        };
        let wasm_entry_point = match read_field(entries, LYServerManifestField::WasmEntryPoint) {
            Ok(found) => found,
            Err(e) => {
                return Err(e);
            },
        };
        Ok(LYServerPluginMetadata { id, name, description, version, author, wasm_entry_point })
    }

    /// The metadata that a manifest text gives.
    pub fn from_manifest(text: &str) -> (r: Result<Self, LYServerManifestError>)
        ensures
            match r {
                Ok(metadata) => manifest_metadata(text@) == Ok::<
                    MetadataModel,
                    LYServerManifestError,
                >(metadata@),
                Err(e) => manifest_metadata(text@) == Err::<MetadataModel, LYServerManifestError>(e),
            },
    {
        match parse_document(text) {
            Ok(entries) => Self::from_entries(&entries),
            Err(_) => Err(LYServerManifestError::Syntax),
        }
    }
}

} // verus!
