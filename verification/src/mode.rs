//! Segmentation granularity and its mapping onto the analyzer library.
//!
//! The facade exposes exactly three caller-facing modes. Each maps
//! one-to-one onto the analyzer library's own mode enumeration, which is
//! modelled here as a plain value ([`AnalyzerMode`]) at the facade's
//! boundary: an analysis session is always opened at exactly one of these
//! granularities.

use vstd::prelude::*;

verus! {

/// Caller-facing tokenization granularity.
#[derive(Clone, Copy, Debug)]
pub enum TokenizeMode {
    /// Short unit mode - maximum segmentation (equivalent to UniDic short unit)
    A,
    /// Middle unit mode - word-like segmentation
    B,
    /// Long unit mode - minimal segmentation, extracts named entities
    C,
}

/// The analyzer library's internal mode enumeration, at the facade's
/// boundary.
#[derive(Clone, Copy, Debug)]
pub enum AnalyzerMode {
    /// Short unit mode
    A,
    /// Middle unit mode
    B,
    /// Long unit mode
    C,
}

/// The analyzer mode that each caller-facing mode selects.
pub open spec fn spec_analyzer_mode(mode: TokenizeMode) -> AnalyzerMode {
    match mode {
        TokenizeMode::A => AnalyzerMode::A,
        TokenizeMode::B => AnalyzerMode::B,
        TokenizeMode::C => AnalyzerMode::C,
    }
}

/// The caller-facing mode that each analyzer mode corresponds to.
pub open spec fn spec_caller_mode(mode: AnalyzerMode) -> TokenizeMode {
    match mode {
        AnalyzerMode::A => TokenizeMode::A,
        AnalyzerMode::B => TokenizeMode::B,
        AnalyzerMode::C => TokenizeMode::C,
    }
}

/// Maps a caller-facing mode to the analyzer library's mode.
pub fn to_analyzer_mode(mode: TokenizeMode) -> (r: AnalyzerMode)
    ensures
        r == spec_analyzer_mode(mode),
{
    match mode {
        TokenizeMode::A => AnalyzerMode::A,
        TokenizeMode::B => AnalyzerMode::B,
        TokenizeMode::C => AnalyzerMode::C,
    }
}

/// Maps an analyzer mode back to the caller-facing mode that selects it.
pub fn from_analyzer_mode(mode: AnalyzerMode) -> (r: TokenizeMode)
    ensures
        r == spec_caller_mode(mode),
{
    match mode {
        AnalyzerMode::A => TokenizeMode::A,
        AnalyzerMode::B => TokenizeMode::B,
        AnalyzerMode::C => TokenizeMode::C,
    }
}

/// The mode mapping is a bijection: each caller-facing mode selects
/// exactly one analyzer mode, and round-tripping a mode through the
/// mapping and its inverse recovers the original, in both directions.
pub proof fn lemma_mode_mapping_bijective()
    ensures
        forall|m: TokenizeMode| #[trigger] spec_caller_mode(spec_analyzer_mode(m)) == m,
        forall|a: AnalyzerMode| #[trigger] spec_analyzer_mode(spec_caller_mode(a)) == a,
{
    assert forall|m: TokenizeMode| #[trigger] spec_caller_mode(spec_analyzer_mode(m)) == m by {
        match m {
            TokenizeMode::A => {},
            TokenizeMode::B => {},
            TokenizeMode::C => {},
        }
    }
    assert forall|a: AnalyzerMode| #[trigger] spec_analyzer_mode(spec_caller_mode(a)) == a by {
        match a {
            AnalyzerMode::A => {},
            AnalyzerMode::B => {},
            AnalyzerMode::C => {},
        }
    }
}

} // verus!
