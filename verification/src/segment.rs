//! The segmentation source: the engine that cuts a text into classified,
//! normalized segments.

use vstd::prelude::*;
use vstd::utf8::{encode_utf8, is_char_boundary};

verus! {

/// A classified run of the text, as the segmentation engine reports it.
#[derive(Clone, Debug, PartialEq, Eq)]
pub struct Segment {
    /// Whether the engine classified the run as a word.
    pub word: bool,
    /// The engine's normalized form of the run.
    pub lemma: String,
    /// First byte of the run in the text.
    pub byte_start: usize,
    /// One past the last byte of the run in the text.
    pub byte_end: usize,
}

/// What a [`Segment`] is to a contract.
pub ghost struct SegmentView {
    pub word: bool,
    pub lemma: Seq<char>,
    pub byte_start: nat,
    pub byte_end: nat,
}

impl View for Segment {
    type V = SegmentView;

    open spec fn view(&self) -> SegmentView {
        SegmentView {
            word: self.word,
            lemma: self.lemma@,
            byte_start: self.byte_start as nat,
            byte_end: self.byte_end as nat,
        }
    }
}

/// The views of a sequence of segments, in order.
pub open spec fn segment_views(segments: Seq<Segment>) -> Seq<SegmentView> {
    segments.map_values(|segment: Segment| segment@)
}

/// Whether `from..to` is a non-empty range of the bytes of `text` that cuts
/// no character in two.
pub open spec fn is_byte_range_of(text: Seq<char>, from: nat, to: nat) -> bool {
    let bytes = encode_utf8(text);
    &&& from < to <= bytes.len()
    &&& is_char_boundary(bytes, from as int)
    &&& is_char_boundary(bytes, to as int)
}

/// Declares the engine's type to Verus, which sees nothing inside it.
#[verifier::external_type_specification]
#[verifier::external_body]
pub struct ExTokenizer<'tb>(charabia::Tokenizer<'tb>);

/// Whether an engine has the default configuration: no custom dictionary, no
/// custom separators, no stop words, no restriction on the languages.
pub uninterp spec fn built_by_default(tokenizer: charabia::Tokenizer<'static>) -> bool;

/// The segments that the engine, in its default configuration, cuts a text
/// into: every run of the text in order, words and separators alike.
///
/// Script and language detection, dictionaries and lemma normalization are
/// the engine's own; the result depends on the text alone.
pub uninterp spec fn segments_of(text: Seq<char>) -> Seq<SegmentView>;

/// Calls `TokenizerBuilder::default` and `TokenizerBuilder::into_tokenizer`
/// of the crate `charabia`.
///
/// Trusted: a builder on which nothing was set builds an engine with the
/// default configuration.
#[verifier::external_body]
fn default_tokenizer() -> (tokenizer: charabia::Tokenizer<'static>)
    ensures
        built_by_default(tokenizer),
{
    charabia::TokenizerBuilder::default().into_tokenizer()
}

/// Calls `Tokenizer::tokenize` of the crate `charabia` and copies, of each
/// token that its iterator yields, `is_word()`, `lemma()`, `byte_start` and
/// `byte_end` into a [`Segment`].
///
/// Trusted: the iterator ends, and what an engine with the default
/// configuration yields is a function of the text, named `segments_of`.
/// Nothing is claimed of the segments themselves.
#[verifier::external_body]
fn tokenize(tokenizer: &charabia::Tokenizer<'static>, text: &str) -> (segments: Vec<Segment>)
    requires
        built_by_default(*tokenizer),
    ensures
        segment_views(segments@) == segments_of(text@),
{
    tokenizer.tokenize(text).map(|token| Segment {
        word: token.is_word(),
        lemma: token.lemma().to_string(),
        byte_start: token.byte_start,
        byte_end: token.byte_end,
    }).collect()
}

/// The segmentation engine in its default configuration. It is immutable
/// once built, so one engine can serve every stream of a process.
pub struct SegmentationEngine {
    tokenizer: charabia::Tokenizer<'static>,
}

impl SegmentationEngine {
    /// Whether the engine has the default configuration. Every engine has:
    /// this is the type's invariant.
    #[verifier::type_invariant]
    pub closed spec fn has_default_configuration(&self) -> bool {
        built_by_default(self.tokenizer)
    }

    /// Builds the engine, in the default configuration.
    pub fn new() -> (engine: SegmentationEngine)
        ensures
            engine.has_default_configuration(),
    {
        SegmentationEngine { tokenizer: default_tokenizer() }
    }

    /// Cuts `text` into its segments.
    pub fn segments(&self, text: &str) -> (segments: Vec<Segment>)
        ensures
            segment_views(segments@) == segments_of(text@),
    {
        proof {
            use_type_invariant(self);
        }
        tokenize(&self.tokenizer, text)
    }
}

} // verus!
