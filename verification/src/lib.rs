//! Facade over a dictionary-backed Japanese morphological analyzer.
//!
//! The crate resolves analyzer configuration, models the tokenization
//! session that the analyzer library drives over input text at a
//! caller-selected segmentation granularity, and projects the analyzer's
//! raw morphemes into flat, boundary-safe records. It also computes
//! metadata (download URLs, sizes, archive file names) for the
//! distributable dictionary artifacts the analyzer depends on.
//!
//! The lattice-based segmentation itself, the dictionary binary format,
//! and the morpheme lookup belong to the analyzer library, an external
//! collaborator. Everything it hands this crate is modelled here as plain
//! values ([`RawMorpheme`], [`AnalyzerMode`], diagnostic strings), so the
//! decision logic around those values is stated and proved in full.

use vstd::prelude::*;
use vstd::string::StringExecFns;

pub mod config;
pub mod error;
pub mod metadata;
pub mod mode;
pub mod morpheme;
pub mod session;

pub use config::ResolvedConfig;
pub use config::TokenizerConfig;
pub use config::parent_dir;
pub use config::resolve_config;
pub use error::SudachiError;
pub use metadata::DictionaryInfo;
pub use metadata::DictionaryType;
pub use metadata::get_all_dictionary_info;
pub use metadata::get_dictionary_download_url;
pub use metadata::get_dictionary_info;
pub use mode::AnalyzerMode;
pub use mode::TokenizeMode;
pub use mode::from_analyzer_mode;
pub use mode::to_analyzer_mode;
pub use morpheme::MorphemeInfo;
pub use morpheme::RawMorpheme;
pub use morpheme::project_morphemes;
pub use session::TokenizePlan;
pub use session::empty_morphemes;
pub use session::plan_tokenize;
pub use session::tokenize_result;

verus! {

/// The view of the release version string this facade reports for itself.
pub open spec fn spec_version() -> Seq<char> {
    "0.1.0"@
}

/// The facade's own release version (not the analyzer library's).
pub fn get_version() -> (r: String)
    ensures
        r@ == spec_version(),
        r@.len() > 0,
{
    proof {
        reveal_strlit("0.1.0");
    }
    String::from_str("0.1.0")
}

} // verus!
