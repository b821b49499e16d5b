//! Morpheme projection.
//!
//! The analyzer library reports each recognized unit as a raw record; the
//! facade projects that into a flat, boundary-safe record. Projection is
//! a pure structural transform: it preserves order, copies every textual
//! field verbatim, keeps the part-of-speech hierarchy at whatever depth
//! the analyzer reports, and coerces the numeric fields into the
//! boundary's fixed widths with explicit bounds checks rather than silent
//! wrapping.

use vstd::prelude::*;

verus! {

/// One recognized unit exactly as the analyzer library exposes it at the
/// facade's boundary, as plain values.
#[derive(Clone, Debug)]
pub struct RawMorpheme {
    /// Surface form (original text as it appears)
    pub surface: String,
    /// Part-of-speech tags (hierarchical, up to 6 levels)
    pub part_of_speech: Vec<String>,
    /// Dictionary form (lemma)
    pub dictionary_form: String,
    /// Normalized form
    pub normalized_form: String,
    /// Reading form in katakana
    pub reading_form: String,
    /// Whether this is an out-of-vocabulary word
    pub is_oov: bool,
    /// The analyzer's native word identifier
    pub word_id: u32,
    /// Start byte offset in the original text
    pub begin: usize,
    /// End byte offset in the original text
    pub end: usize,
}

/// Information about a single morpheme (token), as handed across the
/// language boundary.
#[derive(Clone, Debug)]
pub struct MorphemeInfo {
    /// Surface form (original text as it appears)
    pub surface: String,
    /// Part-of-speech tags (hierarchical, up to 6 levels)
    pub part_of_speech: Vec<String>,
    /// Dictionary form (lemma)
    pub dictionary_form: String,
    /// Normalized form
    pub normalized_form: String,
    /// Reading form in katakana
    pub reading_form: String,
    /// Whether this is an out-of-vocabulary word
    pub is_oov: bool,
    /// Word ID in dictionary (-1 when it does not fit the boundary width)
    pub word_id: i32,
    /// Start byte offset in original text
    pub begin: u32,
    /// End byte offset in original text
    pub end: u32,
}

/// The signed word identifier reported at the boundary: the analyzer's
/// native identifier when it fits, and -1 (the "unavailable" marker)
/// when it does not.
pub open spec fn spec_word_id(raw_id: u32) -> i32 {
    if raw_id <= i32::MAX as u32 {
        raw_id as i32
    } else {
        -1i32
    }
}

/// A byte offset coerced to the boundary's width, saturating rather than
/// silently wrapping when it does not fit.
pub open spec fn spec_offset(off: usize) -> u32 {
    if off <= u32::MAX as usize {
        off as u32
    } else {
        u32::MAX
    }
}

/// What it means for a boundary record to be the projection of a raw
/// morpheme: every field is pinned down.
pub open spec fn is_projection(info: MorphemeInfo, raw: RawMorpheme) -> bool {
    &&& info.surface@ == raw.surface@
    &&& info.part_of_speech.deep_view() == raw.part_of_speech.deep_view()
    &&& info.dictionary_form@ == raw.dictionary_form@
    &&& info.normalized_form@ == raw.normalized_form@
    &&& info.reading_form@ == raw.reading_form@
    &&& info.is_oov == raw.is_oov
    &&& info.word_id == spec_word_id(raw.word_id)
    &&& info.begin == spec_offset(raw.begin)
    &&& info.end == spec_offset(raw.end)
}

/// A sequence of boundary records is the projection of a sequence of raw
/// morphemes: same length, and element-wise [`is_projection`], in order.
pub open spec fn is_projection_seq(infos: Seq<MorphemeInfo>, raws: Seq<RawMorpheme>) -> bool {
    &&& infos.len() == raws.len()
    &&& forall|i: int| 0 <= i < raws.len() ==> is_projection(#[trigger] infos[i], raws[i])
}

/// A copy of the part-of-speech tag hierarchy, preserving order and
/// arity: no padding, truncation, or reordering.
fn clone_tags(tags: &Vec<String>) -> (r: Vec<String>)
    ensures
        r.deep_view() == tags.deep_view(),
{
    let mut out: Vec<String> = Vec::new();
    let mut i: usize = 0;
    while i < tags.len()
        invariant
            i <= tags.len(),
            out.len() == i,
            forall|j: int| 0 <= j < i ==> out@[j]@ == tags@[j]@,
        decreases tags.len() - i,
    {
        out.push(tags[i].clone());
        i = i + 1;
    }
    proof {
        assert(out.deep_view() =~= tags.deep_view());
    }
    out
}

/// Projects one raw morpheme into its boundary record.
pub fn project_morpheme(raw: &RawMorpheme) -> (r: MorphemeInfo)
    ensures
        is_projection(r, *raw),
{
    let word_id: i32 = if raw.word_id <= i32::MAX as u32 {
        raw.word_id as i32
    } else {
        -1
    };
    let begin: u32 = if raw.begin <= u32::MAX as usize {
        raw.begin as u32
    } else {
        u32::MAX
    };
    let end: u32 = if raw.end <= u32::MAX as usize {
        raw.end as u32
    } else {
        u32::MAX
    };
    MorphemeInfo {
        surface: raw.surface.clone(),
        part_of_speech: clone_tags(&raw.part_of_speech),
        dictionary_form: raw.dictionary_form.clone(),
        normalized_form: raw.normalized_form.clone(),
        reading_form: raw.reading_form.clone(),
        is_oov: raw.is_oov,
        word_id,
        begin,
        end,
    }
}

/// Projects the analyzer's morpheme list, in order, into boundary
/// records. No filtering, deduplication, or re-segmentation happens
/// here.
pub fn project_morphemes(raws: &Vec<RawMorpheme>) -> (r: Vec<MorphemeInfo>)
    ensures
        is_projection_seq(r@, raws@),
{
    let mut out: Vec<MorphemeInfo> = Vec::new();
    let mut i: usize = 0;
    while i < raws.len()
        invariant
            i <= raws.len(),
            out.len() == i,
            forall|j: int| 0 <= j < i ==> is_projection(#[trigger] out@[j], raws@[j]),
        decreases raws.len() - i,
    {
        out.push(project_morpheme(&raws[i]));
        i = i + 1;
    }
    out
}

/// Projection is deterministic: two boundary sequences that each project
/// the same raw morphemes agree on every field of every record. Repeated
/// tokenize calls over one analyzer outcome therefore answer alike; what
/// remains for equal inputs is the analyzer's own determinism.
pub proof fn lemma_projection_determined(
    a: Seq<MorphemeInfo>,
    b: Seq<MorphemeInfo>,
    raws: Seq<RawMorpheme>,
)
    requires
        is_projection_seq(a, raws),
        is_projection_seq(b, raws),
    ensures
        a.len() == b.len(),
        forall|i: int|
            0 <= i < a.len() ==> {
                &&& (#[trigger] a[i]).surface@ == b[i].surface@
                &&& a[i].part_of_speech.deep_view() == b[i].part_of_speech.deep_view()
                &&& a[i].dictionary_form@ == b[i].dictionary_form@
                &&& a[i].normalized_form@ == b[i].normalized_form@
                &&& a[i].reading_form@ == b[i].reading_form@
                &&& a[i].is_oov == b[i].is_oov
                &&& a[i].word_id == b[i].word_id
                &&& a[i].begin == b[i].begin
                &&& a[i].end == b[i].end
            },
{
    assert forall|i: int| 0 <= i < a.len() implies {
        &&& (#[trigger] a[i]).surface@ == b[i].surface@
        &&& a[i].part_of_speech.deep_view() == b[i].part_of_speech.deep_view()
        &&& a[i].dictionary_form@ == b[i].dictionary_form@
        &&& a[i].normalized_form@ == b[i].normalized_form@
        &&& a[i].reading_form@ == b[i].reading_form@
        &&& a[i].is_oov == b[i].is_oov
        &&& a[i].word_id == b[i].word_id
        &&& a[i].begin == b[i].begin
        &&& a[i].end == b[i].end
    } by {
        assert(is_projection(a[i], raws[i]));
        assert(is_projection(b[i], raws[i]));
    }
}

/// Well-formed span structure over raw morphemes: each span is non-empty
/// (`end > begin`), no span exceeds the input length, and the morphemes
/// are ordered by non-decreasing `begin`.
pub open spec fn spans_well_formed(raws: Seq<RawMorpheme>, input_len: nat) -> bool {
    &&& forall|i: int|
        0 <= i < raws.len() ==> (#[trigger] raws[i]).begin < raws[i].end <= input_len
    &&& forall|i: int, j: int|
        0 <= i <= j < raws.len() ==> (#[trigger] raws[i]).begin <= (#[trigger] raws[j]).begin
}

/// Projection preserves span structure: when the analyzer's raw
/// morphemes have well-formed spans over an input whose length fits the
/// boundary's offset width, the projected records keep the same order by
/// non-decreasing `begin`, each `end > begin`, and no span exceeding the
/// input length.
pub proof fn lemma_projection_preserves_spans(
    infos: Seq<MorphemeInfo>,
    raws: Seq<RawMorpheme>,
    input_len: nat,
)
    requires
        is_projection_seq(infos, raws),
        spans_well_formed(raws, input_len),
        input_len <= u32::MAX,
    ensures
        forall|i: int|
            0 <= i < infos.len() ==> (#[trigger] infos[i]).begin < infos[i].end <= input_len,
        forall|i: int, j: int|
            0 <= i <= j < infos.len() ==> (#[trigger] infos[i]).begin <= (#[trigger] infos[j]).begin,
{
    assert forall|i: int|
        0 <= i < infos.len() implies (#[trigger] infos[i]).begin < infos[i].end <= input_len by {
        assert(is_projection(infos[i], raws[i]));
        assert(raws[i].begin < raws[i].end <= input_len);
    }
    assert forall|i: int, j: int|
        0 <= i <= j < infos.len() implies (#[trigger] infos[i]).begin <= (
    #[trigger] infos[j]).begin by {
        assert(is_projection(infos[i], raws[i]));
        assert(is_projection(infos[j], raws[j]));
        assert(raws[i].begin <= raws[j].begin);
    }
}

} // verus!
