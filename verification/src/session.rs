//! The tokenization session, at the facade's side of the analyzer
//! boundary.
//!
//! For every tokenize request the facade constructs a brand-new, isolated
//! analysis session bound to the loaded dictionary and the requested
//! granularity, feeds it the full input text, runs segmentation to
//! completion, and materializes the morpheme list; the session is then
//! discarded, so no state carries over between calls. The decisions on
//! this side of the boundary are stated here: which plan a request gets,
//! and how the session's outcome is turned into the facade's result.

use vstd::prelude::*;

use crate::error::SudachiError;
use crate::mode::AnalyzerMode;
use crate::mode::TokenizeMode;
use crate::mode::spec_analyzer_mode;
use crate::mode::to_analyzer_mode;
use crate::morpheme::MorphemeInfo;
use crate::morpheme::RawMorpheme;
use crate::morpheme::is_projection_seq;
use crate::morpheme::project_morphemes;

verus! {

/// How one tokenize request is to be answered.
#[derive(Clone, Copy, Debug)]
pub enum TokenizePlan {
    /// The input is empty: the answer is the empty morpheme sequence,
    /// and no analysis session is opened.
    Empty,
    /// Open a fresh, isolated session at the given granularity, feed it
    /// the full input unmodified, and run segmentation to completion.
    Analyze(AnalyzerMode),
}

/// The plan for tokenizing `text` at granularity `mode`.
pub open spec fn spec_plan(text: Seq<char>, mode: TokenizeMode) -> TokenizePlan {
    if text.len() == 0 {
        TokenizePlan::Empty
    } else {
        TokenizePlan::Analyze(spec_analyzer_mode(mode))
    }
}

/// Decides one tokenize request before any analyzer work: empty input is
/// answered directly with the empty sequence (never an error); any other
/// input is handed in full to a fresh session at the granularity that
/// `mode` selects.
pub fn plan_tokenize(text: &str, mode: TokenizeMode) -> (p: TokenizePlan)
    ensures
        p == spec_plan(text@, mode),
{
    if text.is_empty() {
        TokenizePlan::Empty
    } else {
        TokenizePlan::Analyze(to_analyzer_mode(mode))
    }
}

/// The answer to a [`TokenizePlan::Empty`] plan: the empty morpheme
/// sequence.
pub fn empty_morphemes() -> (r: Vec<MorphemeInfo>)
    ensures
        r@ == Seq::<MorphemeInfo>::empty(),
{
    Vec::new()
}

/// Completes a tokenize call from the session's outcome: a failure
/// during segmentation or result materialization is wrapped as
/// [`SudachiError::TokenizeError`] with its diagnostic preserved
/// verbatim, and a morpheme list is projected, in order, into boundary
/// records.
pub fn tokenize_result(outcome: Result<Vec<RawMorpheme>, String>) -> (r: Result<
    Vec<MorphemeInfo>,
    SudachiError,
>)
    ensures
        match outcome {
            Ok(raws) => match r {
                Ok(infos) => is_projection_seq(infos@, raws@),
                Err(_) => false,
            },
            Err(message) => r == Err::<Vec<MorphemeInfo>, SudachiError>(
                SudachiError::TokenizeError { message },
            ),
        },
{
    match outcome {
        Ok(raws) => Ok(project_morphemes(&raws)),
        Err(message) => Err(SudachiError::TokenizeError { message }),
    }
}

/// Tokenizing the empty input yields the empty morpheme sequence, for
/// every mode: the plan for empty text never opens a session, and the
/// answer to the empty plan holds no morphemes.
pub proof fn lemma_empty_input_yields_empty(mode: TokenizeMode)
    ensures
        spec_plan(Seq::<char>::empty(), mode) == TokenizePlan::Empty,
{
}

} // verus!
