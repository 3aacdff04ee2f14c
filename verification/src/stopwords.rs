//! Stop-word sets: the built-in set of a language, the caller's own words,
//! and the test of a token's text against both.

use crate::language::Language;
use tantivy::tokenizer::Language as Outside;
use tantivy::tokenizer::{RawTokenizer, StopWordFilter, TokenFilter, TokenStream, Tokenizer};
use vstd::prelude::*;
use vstd::string::StringExecFns;

verus! {

/// Declares the indexing framework's stop-word filter to Verus, which sees
/// nothing inside it.
#[verifier::external_type_specification]
#[verifier::external_body]
pub struct ExStopWordFilter(StopWordFilter);

/// The words that a stop-word filter holds: it removes the tokens whose text
/// is one of them.
pub uninterp spec fn filter_words(filter: StopWordFilter) -> Set<Seq<char>>;

/// The built-in stop-word set of a language: the common closed-class words
/// that the indexing framework lists for it.
pub uninterp spec fn language_stop_words(language: Language) -> Set<Seq<char>>;

/// Calls `StopWordFilter::new` of the crate `tantivy` with the language of the
/// same name.
///
/// Trusted: a filter comes back exactly for the languages of
/// `Language::has_stop_words`, and the words it removes are the language's
/// built-in set.
#[verifier::external_body]
fn builtin_filter(language: Language) -> (filter: Option<StopWordFilter>)
    ensures
        filter.is_some() == language.has_stop_words(),
        filter matches Some(f) ==> filter_words(f) == language_stop_words(language),
{
    StopWordFilter::new(match language {
        Language::Arabic => Outside::Arabic, Language::Danish => Outside::Danish,
        Language::Dutch => Outside::Dutch, Language::English => Outside::English,
        Language::Finnish => Outside::Finnish, Language::French => Outside::French,
        Language::German => Outside::German, Language::Greek => Outside::Greek,
        Language::Hungarian => Outside::Hungarian, Language::Italian => Outside::Italian,
        Language::Norwegian => Outside::Norwegian, Language::Portuguese => Outside::Portuguese,
        Language::Romanian => Outside::Romanian, Language::Russian => Outside::Russian,
        Language::Spanish => Outside::Spanish, Language::Swedish => Outside::Swedish,
        Language::Tamil => Outside::Tamil, Language::Turkish => Outside::Turkish,
    })
}

/// Runs the filter of the crate `tantivy` over the one token that its
/// `RawTokenizer` makes of `text`, and returns what the filtered stream's
/// first `advance` returns.
///
/// Trusted: the raw tokenizer yields `text` whole as its only token, and the
/// filter lets a token pass exactly when its text is none of the filter's
/// words.
#[verifier::external_body]
fn filter_passes(filter: &StopWordFilter, text: &str) -> (passes: bool)
    ensures
        passes == !filter_words(*filter).contains(text@),
{
    let mut tokenizer = filter.clone().transform(RawTokenizer::default());
    let mut stream = tokenizer.token_stream(text);
    stream.advance()
}

/// The set of the texts of `words`.
pub open spec fn word_set(words: Seq<String>) -> Set<Seq<char>> {
    Set::new(|word: Seq<char>| exists|i: int| 0 <= i < words.len() && #[trigger] words[i]@ == word)
}

/// The options of a tokenizer that this library recognizes.
#[derive(Clone, Debug, PartialEq, Eq)]
pub struct TokenizerConfig {
    /// Activates the built-in stop-word set of a language.
    pub stopwords_language: Option<Language>,
    /// The caller's own stop words, whatever the language.
    pub stopwords: Option<Vec<String>>,
}

impl TokenizerConfig {
    /// Whether a tokenizer can be built from the configuration: it names no
    /// language, or one that has a built-in stop-word set.
    pub open spec fn is_valid(&self) -> bool {
        self.stopwords_language matches Some(language) ==> language.has_stop_words()
    }

    /// The stop words that the configuration activates: the language's set
    /// together with the caller's own words.
    pub open spec fn stop_words(&self) -> Set<Seq<char>> {
        let builtin = match self.stopwords_language {
            Some(language) => language_stop_words(language),
            None => Set::empty(),
        };
        let custom = match self.stopwords {
            Some(words) => word_set(words@),
            None => Set::empty(),
        };
        builtin.union(custom)
    }
}

impl Default for TokenizerConfig {
    /// The configuration that activates no stop word.
    fn default() -> (config: TokenizerConfig)
        ensures
            config.stopwords_language is None,
            config.stopwords is None,
    {
        TokenizerConfig { stopwords_language: None, stopwords: None }
    }
}

/// Why a tokenizer could not be built from a configuration.
#[derive(Clone, Copy, Debug, PartialEq, Eq, Structural)]
pub enum ConfigError {
    /// The configuration asks for the stop words of a language that has no
    /// built-in set.
    UnsupportedStopwordsLanguage(Language),
}

impl ConfigError {
    /// The error in words.
    pub fn message(&self) -> (message: String)
        ensures
            self matches ConfigError::UnsupportedStopwordsLanguage(language) ==> message@
                == "no stop words are available for the language "@ + language.name_spec(),
    {
        match self {
            ConfigError::UnsupportedStopwordsLanguage(language) => {
                let mut message = "no stop words are available for the language ".to_owned();
                message.append(language.name());
                message
            },
        }
    }
}

/// A set of stop words: the built-in set of at most one language, and the
/// caller's own words.
#[derive(Clone)]
pub struct StopWords {
    builtin: Option<StopWordFilter>,
    custom: Vec<String>,
}

impl View for StopWords {
    type V = Set<Seq<char>>;

    closed spec fn view(&self) -> Set<Seq<char>> {
        let builtin = match self.builtin {
            Some(filter) => filter_words(filter),
            None => Set::empty(),
        };
        builtin.union(word_set(self.custom@))
    }
}

impl StopWords {
    /// The stop words that `config` activates, or the reason why it is
    /// rejected.
    pub fn from_config(config: TokenizerConfig) -> (result: Result<StopWords, ConfigError>)
        ensures
            match result {
                Ok(stop_words) => config.is_valid() && stop_words@ == config.stop_words(),
                Err(error) => !config.is_valid() && config.stopwords_language == Some(
                    error->UnsupportedStopwordsLanguage_0,
                ),
            },
    {
        let builtin = match config.stopwords_language {
            Some(language) => match builtin_filter(language) {
                Some(filter) => Some(filter),
                None => {
                    return Err(ConfigError::UnsupportedStopwordsLanguage(language));
                },
            },
            None => None,
        };
        let custom = match config.stopwords {
            Some(words) => words,
            None => Vec::new(),
        };
        proof {
            if config.stopwords is None {
                assert(word_set(custom@) =~= Set::empty());
            }
        }
        Ok(StopWords { builtin, custom })
    }

    /// Whether `text` is one of the stop words, letter for letter.
    pub fn contains(&self, text: &String) -> (found: bool)
        ensures
            found == self@.contains(text@),
    {
        if let Some(filter) = &self.builtin {
            if !filter_passes(filter, text.as_str()) {
                return true;
            }
        }
        let mut i: usize = 0;
        while i < self.custom.len()
            invariant
                i <= self.custom.len(),
                forall|j: int| 0 <= j < i ==> self.custom[j]@ != text@,
            decreases self.custom.len() - i,
        {
            if self.custom[i] == *text {
                return true;
            }
            i += 1;
        }
        false
    }
}

} // verus!
