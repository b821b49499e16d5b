//! The facade's closed error taxonomy.
//!
//! Every failure of configuration resolution, dictionary loading, or
//! tokenization is reported as exactly one of the four kinds below, each
//! carrying the underlying diagnostic text verbatim. No raw, untyped
//! failure crosses the component boundary, and nothing here aborts the
//! caller: all failures are returned.

use vstd::prelude::*;
use vstd::string::StringExecFns;

verus! {

/// One failure of the facade, tagged with its kind and carrying the
/// original diagnostic text in `message`.
#[derive(Debug)]
pub enum SudachiError {
    /// The analyzer library could not open, parse, or map the dictionary
    /// binary or the user dictionary.
    DictionaryLoadError { message: String },
    /// The optional configuration file could not be read or parsed.
    ConfigError { message: String },
    /// Segmentation or result materialization failed during a tokenize
    /// call.
    TokenizeError { message: String },
    /// A caller supplied a structurally invalid argument.
    InvalidArgument { message: String },
}

impl SudachiError {
    /// The diagnostic text carried by this error, whatever its kind.
    pub open spec fn spec_message(self) -> Seq<char> {
        match self {
            SudachiError::DictionaryLoadError { message } => message@,
            SudachiError::ConfigError { message } => message@,
            SudachiError::TokenizeError { message } => message@,
            SudachiError::InvalidArgument { message } => message@,
        }
    }

    /// The fixed prefix that [`SudachiError::describe`] places before the
    /// diagnostic text of each kind.
    pub open spec fn spec_prefix(self) -> Seq<char> {
        match self {
            SudachiError::DictionaryLoadError { .. } => "Failed to load dictionary: "@,
            SudachiError::ConfigError { .. } => "Failed to load config: "@,
            SudachiError::TokenizeError { .. } => "Tokenization failed: "@,
            SudachiError::InvalidArgument { .. } => "Invalid argument: "@,
        }
    }

    /// The diagnostic text carried by this error.
    pub fn message(&self) -> (r: &String)
        ensures
            r@ == self.spec_message(),
    {
        match self {
            SudachiError::DictionaryLoadError { message } => message,
            SudachiError::ConfigError { message } => message,
            SudachiError::TokenizeError { message } => message,
            SudachiError::InvalidArgument { message } => message,
        }
    }

    /// A human-readable form of this error: the kind's fixed prefix
    /// followed by the preserved diagnostic text.
    pub fn describe(&self) -> (r: String)
        ensures
            r@ == self.spec_prefix() + self.spec_message(),
    {
        let mut out = match self {
            SudachiError::DictionaryLoadError { .. } => String::from_str(
                "Failed to load dictionary: ",
            ),
            SudachiError::ConfigError { .. } => String::from_str("Failed to load config: "),
            SudachiError::TokenizeError { .. } => String::from_str("Tokenization failed: "),
            SudachiError::InvalidArgument { .. } => String::from_str("Invalid argument: "),
        };
        out.append(self.message().as_str());
        out
    }
}

} // verus!
