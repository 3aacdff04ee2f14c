//! The stop-word stage: a stream that wraps another and suppresses the tokens
//! whose text is a stop word.

use crate::stopwords::{ConfigError, StopWords, TokenizerConfig};
use crate::stream::{text_tokens, CharabiaTokenStream, CharabiaTokenizer, TokenStream};
use crate::token::{Token, TokenView};
use vstd::prelude::*;

verus! {

/// `tokens` without those whose text is in `stop_words`. The tokens that stay
/// keep their order and every field, their positions too: the positions of
/// the result have gaps where tokens were dropped.
pub open spec fn without_stop_words(tokens: Seq<TokenView>, stop_words: Set<Seq<char>>) -> Seq<
    TokenView,
> {
    tokens.filter(|token: TokenView| !stop_words.contains(token.text))
}

/// A stream that yields the tokens of `tail` whose text is no stop word.
pub struct StopWordFilterStream<'a, S: TokenStream> {
    stop_words: &'a StopWords,
    tail: S,
}

impl<'a, S: TokenStream> StopWordFilterStream<'a, S> {
    /// Wraps `tail`.
    pub fn new(stop_words: &'a StopWords, tail: S) -> (stream: Self)
        requires
            tail.well_formed(),
        ensures
            stream.well_formed(),
            stream.upcoming() == without_stop_words(tail.upcoming(), stop_words@),
            stream.current() == tail.current(),
    {
        StopWordFilterStream { stop_words, tail }
    }
}

impl<'a, S: TokenStream> TokenStream for StopWordFilterStream<'a, S> {
    closed spec fn current(&self) -> TokenView {
        self.tail.current()
    }

    closed spec fn upcoming(&self) -> Seq<TokenView> {
        without_stop_words(self.tail.upcoming(), self.stop_words@)
    }

    closed spec fn well_formed(&self) -> bool {
        self.tail.well_formed()
    }

    fn advance(&mut self) -> (available: bool) {
        loop
            invariant
                self.tail.well_formed(),
                self.upcoming() == old(self).upcoming(),
            decreases self.tail.upcoming().len(),
        {
            let ghost before = self.tail.upcoming();
            if !self.tail.advance() {
                proof {
                    assert(before =~= Seq::empty());
                    assert(without_stop_words(Seq::empty(), self.stop_words@) =~= Seq::empty()) by {
                        reveal(Seq::filter);
                    }
                }
                return false;
            }
            proof {
                lemma_without_stop_words_step(before, self.stop_words@);
            }
            if !self.stop_words.contains(&self.tail.token().text) {
                return true;
            }
        }
    }

    fn token(&self) -> (token: &Token) {
        self.tail.token()
    }

    fn token_mut(&mut self) -> (token: &mut Token) {
        self.tail.token_mut()
    }
}

/// The tokenizer with its stop-word stage: it opens, over each text, a
/// [`CharabiaTokenStream`] wrapped in a [`StopWordFilterStream`].
#[derive(Clone)]
pub struct StopWordTokenizer {
    tokenizer: CharabiaTokenizer,
    stop_words: StopWords,
}

impl StopWordTokenizer {
    /// The stop words that the tokenizer suppresses.
    pub closed spec fn stop_words(&self) -> Set<Seq<char>> {
        self.stop_words@
    }

    /// Builds the tokenizer from its configuration, or says why the
    /// configuration is rejected. No stream is ever opened on a rejected
    /// configuration.
    pub fn new(tokenizer: CharabiaTokenizer, config: TokenizerConfig) -> (result: Result<
        StopWordTokenizer,
        ConfigError,
    >)
        ensures
            match result {
                Ok(built) => config.is_valid() && built.stop_words() == config.stop_words(),
                Err(error) => !config.is_valid() && config.stopwords_language == Some(
                    error->UnsupportedStopwordsLanguage_0,
                ),
            },
    {
        match StopWords::from_config(config) {
            Ok(stop_words) => Ok(StopWordTokenizer { tokenizer, stop_words }),
            Err(error) => Err(error),
        }
    }

    /// Opens a stream over the tokens of `text` that are no stop words.
    pub fn token_stream<'a>(&'a mut self, text: &str) -> (stream: StopWordFilterStream<
        'a,
        CharabiaTokenStream,
    >)
        ensures
            final(self).stop_words() == old(self).stop_words(),
            stream.well_formed(),
            stream.upcoming() == without_stop_words(text_tokens(text@), old(self).stop_words()),
            stream.current() == Token::blank(),
    {
        let tail = self.tokenizer.token_stream(text);
        StopWordFilterStream::new(&self.stop_words, tail)
    }
}

/// Dropping the first token before filtering drops it after filtering if it
/// is no stop word, and changes nothing if it is one.
pub proof fn lemma_without_stop_words_step(tokens: Seq<TokenView>, stop_words: Set<Seq<char>>)
    requires
        tokens.len() > 0,
    ensures
        stop_words.contains(tokens[0].text) ==> without_stop_words(tokens, stop_words)
            == without_stop_words(tokens.drop_first(), stop_words),
        !stop_words.contains(tokens[0].text) ==> without_stop_words(tokens, stop_words).len() > 0
            && without_stop_words(tokens, stop_words).first() == tokens[0] && without_stop_words(
            tokens,
            stop_words,
        ).drop_first() == without_stop_words(tokens.drop_first(), stop_words),
{
    let rest = tokens.drop_first();
    let keep = |token: TokenView| !stop_words.contains(token.text);
    assert(tokens =~= seq![tokens[0]] + rest);
    rest.lemma_filter_prepend(tokens[0], keep);
    if stop_words.contains(tokens[0].text) {
        assert(without_stop_words(tokens, stop_words) =~= without_stop_words(rest, stop_words));
    } else {
        assert(without_stop_words(tokens, stop_words) =~= seq![tokens[0]] + without_stop_words(
            rest,
            stop_words,
        ));
        assert(without_stop_words(tokens, stop_words).drop_first() =~= without_stop_words(
            rest,
            stop_words,
        ));
    }
}

/// Filtering removes the tokens whose text is a stop word and no others, and
/// leaves the rest as they were and in their order.
///
/// The proof gives, for each token of the result, its index in `tokens`: the
/// indices rise, each token of the result is the token at its index with
/// every field unchanged, and the indices are those of the tokens whose text
/// is no stop word.
pub proof fn lemma_filter_keeps_the_rest_in_order(
    tokens: Seq<TokenView>,
    stop_words: Set<Seq<char>>,
) -> (kept: Seq<int>)
    ensures
        kept.len() == without_stop_words(tokens, stop_words).len(),
        forall|j: int|
            0 <= j < kept.len() ==> 0 <= #[trigger] kept[j] < tokens.len() && without_stop_words(
                tokens,
                stop_words,
            )[j] == tokens[kept[j]],
        forall|j: int, k: int| 0 <= j < k < kept.len() ==> kept[j] < kept[k],
        forall|i: int|
            0 <= i < tokens.len() ==> (kept.contains(i) <==> !stop_words.contains(
                (#[trigger] tokens[i]).text,
            )),
    decreases tokens.len(),
{
    reveal(Seq::filter);
    if tokens.len() == 0 {
        Seq::empty()
    } else {
        let last = tokens.len() - 1;
        let before = lemma_filter_keeps_the_rest_in_order(tokens.drop_last(), stop_words);
        let kept = if stop_words.contains(tokens[last].text) {
            before
        } else {
            before.push(last)
        };
        assert forall|i: int| 0 <= i < tokens.len() implies (kept.contains(i)
            <==> !stop_words.contains((#[trigger] tokens[i]).text)) by {
            if i < last {
                assert(tokens[i] == tokens.drop_last()[i]);
                if before.contains(i) {
                    let j = choose|j: int| 0 <= j < before.len() && before[j] == i;
                    assert(kept[j] == i);
                }
            } else if !stop_words.contains(tokens[last].text) {
                assert(kept[kept.len() - 1] == last);
            }
        }
        kept
    }
}

/// Filtering is a function of the tokens and the stop words: two filtered
/// streams over the same text and the same stop words have the same tokens
/// to yield.
pub proof fn lemma_same_text_same_filtered_tokens<'a, 'b>(
    one: StopWordFilterStream<'a, CharabiaTokenStream>,
    other: StopWordFilterStream<'b, CharabiaTokenStream>,
    text: Seq<char>,
    stop_words: Set<Seq<char>>,
)
    requires
        one.upcoming() == without_stop_words(text_tokens(text), stop_words),
        other.upcoming() == without_stop_words(text_tokens(text), stop_words),
    ensures
        one.upcoming() == other.upcoming(),
{
}

} // verus!
