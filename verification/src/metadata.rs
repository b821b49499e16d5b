//! Dictionary distribution metadata.
//!
//! Pure, stateless functions computing canonical download URLs and
//! descriptive metadata for the three distributable dictionary size
//! variants. Nothing here performs I/O: URL construction is purely
//! textual, and none of it depends on the tokenizer or on a loaded
//! dictionary.

use vstd::prelude::*;
use vstd::string::StringExecFns;

verus! {

/// Base URL under which the dictionary archives are published.
pub const DICTIONARY_BASE_URL: &'static str = "https://d2ej7fkh96fzlu.cloudfront.net/sudachidict";

/// Size variants of the distributable dictionary artifacts.
#[derive(Clone, Copy, Debug)]
pub enum DictionaryType {
    /// Small dictionary (~50MB) - minimum vocabulary
    Small,
    /// Core dictionary (~70MB) - basic vocabulary (recommended)
    Core,
    /// Full dictionary (~1GB) - complete vocabulary
    Full,
}

impl DictionaryType {
    /// The canonical lower-case token of this size, used both in download
    /// URLs and in archive file names.
    pub open spec fn token(self) -> Seq<char> {
        match self {
            DictionaryType::Small => "small"@,
            DictionaryType::Core => "core"@,
            DictionaryType::Full => "full"@,
        }
    }

    /// The canonical name token of this dictionary size.
    pub fn as_str(&self) -> (r: &'static str)
        ensures
            r@ == self.token(),
    {
        match self {
            DictionaryType::Small => "small",
            DictionaryType::Core => "core",
            DictionaryType::Full => "full",
        }
    }
}

/// Metadata describing one distributable dictionary artifact; a pure
/// function of a [`DictionaryType`] and an optional version string.
#[derive(Clone, Debug)]
pub struct DictionaryInfo {
    /// Dictionary type name
    pub name: String,
    /// Approximate size in MB
    pub size_mb: u32,
    /// Description
    pub description: String,
    /// Download URL
    pub download_url: String,
    /// Filename inside the zip archive (e.g., "system_core.dic")
    pub dic_filename: String,
}

/// The version component of a download URL: the given version string, or
/// the literal "latest" when absent.
pub open spec fn spec_version_token(version: Option<Seq<char>>) -> Seq<char> {
    match version {
        Some(v) => v,
        None => "latest"@,
    }
}

/// The exact download URL for a size and an optional version:
/// `{base}/sudachi-dictionary-{version|"latest"}-{size}.zip`.
pub open spec fn spec_download_url(size: DictionaryType, version: Option<Seq<char>>) -> Seq<char> {
    DICTIONARY_BASE_URL@ + "/sudachi-dictionary-"@ + spec_version_token(version) + "-"@
        + size.token() + ".zip"@
}

/// The approximate artifact size in megabytes for each dictionary size.
pub open spec fn spec_size_mb(size: DictionaryType) -> u32 {
    match size {
        DictionaryType::Small => 50,
        DictionaryType::Core => 70,
        DictionaryType::Full => 1000,
    }
}

/// The fixed description text for each dictionary size.
pub open spec fn spec_description(size: DictionaryType) -> Seq<char> {
    match size {
        DictionaryType::Small => "Minimum vocabulary dictionary"@,
        DictionaryType::Core => "Basic vocabulary dictionary (recommended)"@,
        DictionaryType::Full => "Complete vocabulary dictionary"@,
    }
}

/// The name of the dictionary file inside the downloaded archive:
/// `system_{size}.dic`.
pub open spec fn spec_dic_filename(size: DictionaryType) -> Seq<char> {
    "system_"@ + size.token() + ".dic"@
}

/// What it means for a [`DictionaryInfo`] record to be the artifact
/// metadata for `size` and `version`: every field is pinned down.
pub open spec fn is_info_for(
    info: DictionaryInfo,
    size: DictionaryType,
    version: Option<Seq<char>>,
) -> bool {
    &&& info.name@ == size.token()
    &&& info.size_mb == spec_size_mb(size)
    &&& info.description@ == spec_description(size)
    &&& info.download_url@ == spec_download_url(size, version)
    &&& info.dic_filename@ == spec_dic_filename(size)
}

/// The download URL for a dictionary size and an optional version string
/// (e.g., "20241021"); the version defaults to "latest" when absent.
pub fn get_dictionary_download_url(dict_type: DictionaryType, version: Option<String>) -> (r:
    String)
    ensures
        r@ == spec_download_url(dict_type, version.deep_view()),
{
    let mut url = String::from_str(DICTIONARY_BASE_URL);
    url.append("/sudachi-dictionary-");
    match &version {
        Some(v) => url.append(v.as_str()),
        None => url.append("latest"),
    }
    url.append("-");
    url.append(dict_type.as_str());
    url.append(".zip");
    url
}

/// The full artifact metadata for a dictionary size and an optional
/// version string.
pub fn get_dictionary_info(dict_type: DictionaryType, version: Option<String>) -> (r:
    DictionaryInfo)
    ensures
        is_info_for(r, dict_type, version.deep_view()),
{
    let download_url = get_dictionary_download_url(dict_type, version);
    let description = match dict_type {
        DictionaryType::Small => String::from_str("Minimum vocabulary dictionary"),
        DictionaryType::Core => String::from_str("Basic vocabulary dictionary (recommended)"),
        DictionaryType::Full => String::from_str("Complete vocabulary dictionary"),
    };
    let size_mb: u32 = match dict_type {
        DictionaryType::Small => 50,
        DictionaryType::Core => 70,
        DictionaryType::Full => 1000,
    };
    let mut dic_filename = String::from_str("system_");
    dic_filename.append(dict_type.as_str());
    dic_filename.append(".dic");
    DictionaryInfo {
        name: dict_type.as_str().to_owned(),
        size_mb,
        description,
        download_url,
        dic_filename,
    }
}

/// The metadata of all three artifacts, in the fixed order Small, Core,
/// Full, each entry exactly as [`get_dictionary_info`] reports it.
pub fn get_all_dictionary_info(version: Option<String>) -> (r: Vec<DictionaryInfo>)
    ensures
        r@.len() == 3,
        is_info_for(r@[0], DictionaryType::Small, version.deep_view()),
        is_info_for(r@[1], DictionaryType::Core, version.deep_view()),
        is_info_for(r@[2], DictionaryType::Full, version.deep_view()),
{
    let mut all: Vec<DictionaryInfo> = Vec::new();
    all.push(get_dictionary_info(DictionaryType::Small, clone_version(&version)));
    all.push(get_dictionary_info(DictionaryType::Core, clone_version(&version)));
    all.push(get_dictionary_info(DictionaryType::Full, version));
    all
}

/// The artifact metadata is a pure function of size and version: two
/// records that both satisfy [`is_info_for`] for the same arguments agree
/// on every field.
pub proof fn lemma_artifact_info_determined(
    a: DictionaryInfo,
    b: DictionaryInfo,
    size: DictionaryType,
    version: Option<Seq<char>>,
)
    requires
        is_info_for(a, size, version),
        is_info_for(b, size, version),
    ensures
        a.name@ == b.name@,
        a.size_mb == b.size_mb,
        a.description@ == b.description@,
        a.download_url@ == b.download_url@,
        a.dic_filename@ == b.dic_filename@,
{
}

/// A copy of an optional version string, with the same view.
fn clone_version(version: &Option<String>) -> (r: Option<String>)
    ensures
        r.deep_view() == version.deep_view(),
{
    match version {
        Some(v) => Some(v.clone()),
        None => None,
    }
}

} // verus!
