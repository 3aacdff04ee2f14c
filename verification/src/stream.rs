//! The pull-based token stream, and the adapter that feeds it from the
//! segmentation engine.

use crate::normalize::{nfc, nfc_of};
use crate::segment::{
    is_byte_range_of, segment_views, segments_of, Segment, SegmentView, SegmentationEngine,
};
use crate::token::{Token, TokenView};
use std::sync::Arc;
use vstd::prelude::*;

verus! {

/// A stateful cursor over tokens.
///
/// `upcoming` is the sequence of tokens that the stream has yet to yield and
/// `current` the token that `token` exposes. A stream has no reset: once
/// `upcoming` is empty it stays empty, and `advance` keeps returning `false`.
/// After an `advance` that returned `false` the trait says nothing of the
/// current token; each stream says what it leaves there.
pub trait TokenStream {
    /// The token that `token` and `token_mut` expose.
    spec fn current(&self) -> TokenView;

    /// The tokens that later calls of `advance` will yield, in order.
    spec fn upcoming(&self) -> Seq<TokenView>;

    /// The stream's internal invariant: every constructor establishes it and
    /// every method keeps it.
    spec fn well_formed(&self) -> bool;

    /// Moves to the next token and says whether there was one.
    fn advance(&mut self) -> (available: bool)
        requires
            old(self).well_formed(),
        ensures
            final(self).well_formed(),
            available == (old(self).upcoming().len() > 0),
            available ==> final(self).current() == old(self).upcoming().first(),
            available ==> final(self).upcoming() == old(self).upcoming().drop_first(),
            !available ==> final(self).upcoming() == old(self).upcoming(),
    ;

    /// The current token.
    fn token(&self) -> (token: &Token)
        ensures
            token@ == self.current(),
    ;

    /// The current token, for a later stage to rewrite in place. What is yet
    /// to come does not change with it.
    fn token_mut(&mut self) -> (token: &mut Token)
        requires
            old(self).well_formed(),
        ensures
            final(self).well_formed(),
            token@ == old(self).current(),
            final(self).current() == final(token)@,
            final(self).upcoming() == old(self).upcoming(),
    ;
}

/// The segments among `segments` that are words, in order.
pub open spec fn word_segments(segments: Seq<SegmentView>) -> Seq<SegmentView> {
    segments.filter(|segment: SegmentView| segment.word)
}

/// The token that a word segment becomes at `position`: its lemma in
/// canonical composition, its byte range as it stands, a span of one.
pub open spec fn token_of(segment: SegmentView, position: nat) -> TokenView {
    TokenView {
        offset_from: segment.byte_start,
        offset_to: segment.byte_end,
        position,
        text: nfc_of(segment.lemma),
        position_length: 1,
    }
}

/// The tokens that `segments` give when the first of them gets the position
/// `first`: one for each word segment, in order, at consecutive positions.
/// Segments that are no words give no token and use up no position.
pub open spec fn tokens_from(segments: Seq<SegmentView>, first: nat) -> Seq<TokenView> {
    let words = word_segments(segments);
    Seq::new(words.len(), |i: int| token_of(words[i], (first + i) as nat))
}

/// The tokens of a text: those of the segments that the engine cuts it into,
/// numbered from zero.
pub open spec fn text_tokens(text: Seq<char>) -> Seq<TokenView> {
    tokens_from(segments_of(text), 0)
}

/// The adapter: a cursor over the segments of one text that yields a token
/// for each word among them.
pub struct CharabiaTokenStream {
    segments: Vec<Segment>,
    cursor: usize,
    token: Token,
    position: usize,
}

impl CharabiaTokenStream {
    /// The segments that the cursor has not passed yet.
    spec fn pending(&self) -> Seq<SegmentView> {
        segment_views(self.segments@).skip(self.cursor as int)
    }

    /// The position that the next token will get.
    spec fn next_position(&self) -> nat {
        self.position as nat
    }

    /// A stream over the tokens of `text`, which `engine` cuts into segments.
    pub fn new(engine: &SegmentationEngine, text: &str) -> (stream: CharabiaTokenStream)
        ensures
            stream.well_formed(),
            stream.upcoming() == text_tokens(text@),
            stream.current() == Token::blank(),
    {
        CharabiaTokenStream::from_segments(engine.segments(text))
    }

    /// A stream over segments that were cut already.
    pub fn from_segments(segments: Vec<Segment>) -> (stream: CharabiaTokenStream)
        ensures
            stream.well_formed(),
            stream.upcoming() == tokens_from(segment_views(segments@), 0),
            stream.current() == Token::blank(),
    {
        let stream = CharabiaTokenStream {
            segments,
            cursor: 0,
            token: Token::default(),
            position: 0,
        };
        assert(stream.pending() =~= segment_views(stream.segments@));
        stream
    }
}

impl TokenStream for CharabiaTokenStream {
    closed spec fn current(&self) -> TokenView {
        self.token@
    }

    closed spec fn upcoming(&self) -> Seq<TokenView> {
        tokens_from(self.pending(), self.next_position())
    }

    /// No more tokens were numbered than segments were passed, so the
    /// position counter cannot overflow.
    closed spec fn well_formed(&self) -> bool {
        self.position <= self.cursor <= self.segments.len()
    }

    /// Passes the segments that are no words and stops at the first word,
    /// which becomes the current token. At the end of the segments the
    /// current token stays as it was.
    fn advance(&mut self) -> (available: bool)
        ensures
            !available ==> final(self).current() == old(self).current(),
    {
        while self.cursor < self.segments.len()
            invariant
                self.position <= self.cursor <= self.segments.len(),
                self.upcoming() == old(self).upcoming(),
                self.current() == old(self).current(),
            decreases self.segments.len() - self.cursor,
        {
            proof {
                lemma_tokens_from_step(self.pending(), self.next_position());
                assert(self.pending().drop_first() =~= segment_views(self.segments@).skip(
                    self.cursor + 1,
                ));
            }
            let segment = &self.segments[self.cursor];
            self.cursor += 1;
            if segment.word {
                self.token.text = nfc(segment.lemma.as_str());
                self.token.offset_from = segment.byte_start;
                self.token.offset_to = segment.byte_end;
                self.token.position = self.position;
                self.token.position_length = 1;
                self.position += 1;
                return true;
            }
        }
        proof {
            assert(self.pending() =~= Seq::empty());
            lemma_one_token_for_each_word(self.pending(), self.next_position());
        }
        false
    }

    fn token(&self) -> (token: &Token) {
        &self.token
    }

    fn token_mut(&mut self) -> (token: &mut Token) {
        &mut self.token
    }
}

/// The tokenizer: it opens a [`CharabiaTokenStream`] over each text it is
/// given, on an engine that it shares with its clones.
#[derive(Clone)]
pub struct CharabiaTokenizer {
    engine: Arc<SegmentationEngine>,
}

impl CharabiaTokenizer {
    /// The engine that cuts the texts of the tokenizer's streams.
    pub closed spec fn engine(&self) -> Arc<SegmentationEngine> {
        self.engine
    }

    /// A tokenizer on a shared engine.
    pub fn new(engine: Arc<SegmentationEngine>) -> (tokenizer: CharabiaTokenizer)
        ensures
            tokenizer.engine() == engine,
    {
        CharabiaTokenizer { engine }
    }

    /// Opens a stream over the tokens of `text`. The tokenizer stays as it is.
    pub fn token_stream(&mut self, text: &str) -> (stream: CharabiaTokenStream)
        ensures
            *final(self) == *old(self),
            stream.well_formed(),
            stream.upcoming() == text_tokens(text@),
            stream.current() == Token::blank(),
    {
        CharabiaTokenStream::new(&self.engine, text)
    }
}

impl Default for CharabiaTokenizer {
    /// A tokenizer on an engine of its own.
    fn default() -> (tokenizer: CharabiaTokenizer)
        ensures
            tokenizer.engine().has_default_configuration(),
    {
        CharabiaTokenizer::new(Arc::new(SegmentationEngine::new()))
    }
}

/// Dropping a leading segment that is no word changes no token; dropping a
/// leading word drops the first token and moves the first position by one.
pub proof fn lemma_tokens_from_step(segments: Seq<SegmentView>, first: nat)
    requires
        segments.len() > 0,
    ensures
        !segments[0].word ==> tokens_from(segments, first) == tokens_from(
            segments.drop_first(),
            first,
        ),
        segments[0].word ==> tokens_from(segments, first).len() > 0 && tokens_from(
            segments,
            first,
        ).first() == token_of(segments[0], first) && tokens_from(segments, first).drop_first()
            == tokens_from(segments.drop_first(), first + 1),
{
    let rest = segments.drop_first();
    let is_word = |segment: SegmentView| segment.word;
    assert(segments =~= seq![segments[0]] + rest);
    rest.lemma_filter_prepend(segments[0], is_word);
    if segments[0].word {
        assert(word_segments(segments) =~= seq![segments[0]] + word_segments(rest));
        assert(tokens_from(segments, first).drop_first() =~= tokens_from(rest, first + 1));
    } else {
        assert(word_segments(segments) =~= word_segments(rest));
    }
}

/// There are as many tokens as word segments: a source without a word, an
/// empty one too, gives no token.
pub proof fn lemma_one_token_for_each_word(segments: Seq<SegmentView>, first: nat)
    ensures
        tokens_from(segments, first).len() == word_segments(segments).len(),
        tokens_from(segments, first).len() <= segments.len(),
        (forall|k: int| 0 <= k < segments.len() ==> !(#[trigger] segments[k]).word)
            ==> tokens_from(segments, first).len() == 0,
{
    let is_word = |segment: SegmentView| segment.word;
    segments.lemma_filter_len(is_word);
    if word_segments(segments).len() > 0 {
        segments.lemma_filter_pred(is_word, 0);
        segments.lemma_filter_contains_rev(is_word, word_segments(segments)[0]);
    }
}

/// The positions of the tokens count up from the first by one, with no gap
/// and no repeat: numbered from zero, the `i`-th token has the position `i`.
pub proof fn lemma_positions_count_up(segments: Seq<SegmentView>, first: nat)
    ensures
        forall|i: int|
            0 <= i < tokens_from(segments, first).len() ==> (#[trigger] tokens_from(
                segments,
                first,
            )[i]).position == first + i,
{
}

/// The `i`-th token is made of the `i`-th word segment: its text is the
/// canonical composition of the word's lemma, its byte range is the word's,
/// and its span is one.
pub proof fn lemma_token_comes_from_word(segments: Seq<SegmentView>, first: nat, i: int)
    requires
        0 <= i < tokens_from(segments, first).len(),
    ensures
        i < word_segments(segments).len(),
        word_segments(segments)[i].word,
        segments.contains(word_segments(segments)[i]),
        tokens_from(segments, first)[i].text == nfc_of(word_segments(segments)[i].lemma),
        tokens_from(segments, first)[i].offset_from == word_segments(segments)[i].byte_start,
        tokens_from(segments, first)[i].offset_to == word_segments(segments)[i].byte_end,
        tokens_from(segments, first)[i].position_length == 1,
{
    let is_word = |segment: SegmentView| segment.word;
    segments.lemma_filter_pred(is_word, i);
    segments.lemma_filter_contains_rev(is_word, word_segments(segments)[i]);
}

/// Where every word that the engine reports has a non-empty byte range of
/// the text, every token has one: `offset_from < offset_to`, and both are
/// character boundaries of the text.
pub proof fn lemma_tokens_have_byte_ranges(segments: Seq<SegmentView>, first: nat, text: Seq<char>)
    requires
        forall|k: int|
            0 <= k < segments.len() && (#[trigger] segments[k]).word ==> is_byte_range_of(
                text,
                segments[k].byte_start,
                segments[k].byte_end,
            ),
    ensures
        forall|i: int|
            0 <= i < tokens_from(segments, first).len() ==> is_byte_range_of(
                text,
                (#[trigger] tokens_from(segments, first)[i]).offset_from,
                tokens_from(segments, first)[i].offset_to,
            ),
{
    assert forall|i: int| 0 <= i < tokens_from(segments, first).len() implies is_byte_range_of(
        text,
        (#[trigger] tokens_from(segments, first)[i]).offset_from,
        tokens_from(segments, first)[i].offset_to,
    ) by {
        lemma_token_comes_from_word(segments, first, i);
        let word = word_segments(segments)[i];
        let k = choose|k: int| 0 <= k < segments.len() && segments[k] == word;
        assert(segments[k].word);
    }
}

/// Tokenizing is a function of the text: two streams that were opened on the
/// same text have the same tokens to yield.
pub proof fn lemma_same_text_same_tokens(
    one: CharabiaTokenStream,
    other: CharabiaTokenStream,
    text: Seq<char>,
)
    requires
        one.upcoming() == text_tokens(text),
        other.upcoming() == text_tokens(text),
    ensures
        one.upcoming() == other.upcoming(),
{
}

} // verus!
