use tokenizers::{
    CharabiaTokenStream, CharabiaTokenizer, ConfigError, Language, Segment, StopWordFilterStream,
    StopWordTokenizer, StopWords, Token, TokenStream, TokenizerConfig,
};

const ENGLISH: &str = "the quick brown fox jumps over the lazy dog";

fn drain<S: TokenStream>(stream: &mut S) -> Vec<Token> {
    let mut tokens: Vec<Token> = vec![];
    while stream.advance() {
        tokens.push(stream.token().clone());
    }
    tokens
}

fn texts(tokens: &[Token]) -> Vec<String> {
    tokens.iter().map(|token| token.text.clone()).collect()
}

fn strings(words: &[&str]) -> Vec<String> {
    words.iter().map(|word| word.to_string()).collect()
}

fn custom(words: &[&str]) -> TokenizerConfig {
    TokenizerConfig { stopwords_language: None, stopwords: Some(strings(words)) }
}

fn language(language: Language) -> TokenizerConfig {
    TokenizerConfig { stopwords_language: Some(language), stopwords: None }
}

fn filtered(config: TokenizerConfig, text: &str) -> Vec<Token> {
    let mut tokenizer = StopWordTokenizer::new(CharabiaTokenizer::default(), config).unwrap();
    let mut stream = tokenizer.token_stream(text);
    drain(&mut stream)
}

fn words(lemmas: &[&str]) -> Vec<Segment> {
    let mut segments = vec![];
    let mut at = 0;
    for lemma in lemmas {
        segments.push(Segment {
            word: true,
            lemma: lemma.to_string(),
            byte_start: at,
            byte_end: at + lemma.len(),
        });
        at += lemma.len() + 1;
    }
    segments
}

const ALL_LANGUAGES: [Language; 18] = [
    Language::Arabic,
    Language::Danish,
    Language::Dutch,
    Language::English,
    Language::Finnish,
    Language::French,
    Language::German,
    Language::Greek,
    Language::Hungarian,
    Language::Italian,
    Language::Norwegian,
    Language::Portuguese,
    Language::Romanian,
    Language::Russian,
    Language::Spanish,
    Language::Swedish,
    Language::Tamil,
    Language::Turkish,
];

#[test]
fn test_charabia_tokenizer_with_stopwords_language() {
    let tokens = filtered(language(Language::English), ENGLISH);
    let expected = strings(&["quick", "brown", "fox", "jumps", "over", "lazy", "dog"]);
    assert_eq!(texts(&tokens), expected);
}

#[test]
fn test_charabia_tokenizer_with_custom_stopwords() {
    let tokens = filtered(custom(&["fox", "dog"]), ENGLISH);
    let expected = strings(&["the", "quick", "brown", "jumps", "over", "the", "lazy"]);
    assert_eq!(texts(&tokens), expected);
}

#[test]
fn surviving_tokens_keep_positions_and_offsets() {
    let mut plain = CharabiaTokenizer::default();
    let all = drain(&mut plain.token_stream(ENGLISH));
    assert_eq!(all.len(), 9);

    let kept = filtered(language(Language::English), ENGLISH);
    let positions: Vec<usize> = kept.iter().map(|token| token.position).collect();
    assert_eq!(positions, vec![1, 2, 3, 4, 5, 7, 8]);
    for token in &kept {
        assert_eq!(*token, all[token.position]);
    }

    let kept = filtered(custom(&["fox", "dog"]), ENGLISH);
    let positions: Vec<usize> = kept.iter().map(|token| token.position).collect();
    assert_eq!(positions, vec![0, 1, 2, 4, 5, 6, 7]);
    let ranges: Vec<(usize, usize)> =
        kept.iter().map(|token| (token.offset_from, token.offset_to)).collect();
    assert_eq!(ranges, vec![(0, 3), (4, 9), (10, 15), (20, 25), (26, 30), (31, 34), (35, 39)]);
    for token in &kept {
        assert_eq!(*token, all[token.position]);
    }
}

#[test]
fn language_and_custom_words_are_both_active() {
    let config = TokenizerConfig {
        stopwords_language: Some(Language::English),
        stopwords: Some(strings(&["fox", "lazy"])),
    };
    let tokens = filtered(config, ENGLISH);
    assert_eq!(texts(&tokens), strings(&["quick", "brown", "jumps", "over", "dog"]));
    let positions: Vec<usize> = tokens.iter().map(|token| token.position).collect();
    assert_eq!(positions, vec![1, 2, 4, 5, 8]);
}

#[test]
fn no_stop_word_no_change() {
    let mut plain = CharabiaTokenizer::default();
    let all = drain(&mut plain.token_stream(ENGLISH));
    assert_eq!(filtered(TokenizerConfig::default(), ENGLISH), all);
    assert_eq!(filtered(custom(&[]), ENGLISH), all);
    assert_eq!(filtered(custom(&["cat", "qui", "foxes", ""]), ENGLISH), all);
}

#[test]
fn matching_is_letter_for_letter() {
    // The engine lowers the case of its lemmas and the filter folds no case:
    // a capitalized stop word matches nothing.
    let tokens = filtered(custom(&["Fox", "DOG", "The"]), ENGLISH);
    assert_eq!(tokens.len(), 9);

    let stop_words = StopWords::from_config(custom(&["Fox", "dog"])).unwrap();
    assert!(stop_words.contains(&"Fox".to_string()));
    assert!(!stop_words.contains(&"fox".to_string()));
    assert!(stop_words.contains(&"dog".to_string()));
    assert!(!stop_words.contains(&"Dog".to_string()));
    assert!(!stop_words.contains(&"do".to_string()));
    assert!(!stop_words.contains(&"dogs".to_string()));
    assert!(!stop_words.contains(&"".to_string()));

    let mut stream = StopWordFilterStream::new(
        &stop_words,
        CharabiaTokenStream::from_segments(words(&["Fox", "fox", "dog", "Dog"])),
    );
    assert_eq!(texts(&drain(&mut stream)), strings(&["fox", "Dog"]));
}

#[test]
fn matching_is_against_the_composed_text() {
    let stop_words = StopWords::from_config(custom(&["\u{e9}t\u{e9}"])).unwrap();
    let mut stream = StopWordFilterStream::new(
        &stop_words,
        CharabiaTokenStream::from_segments(words(&["e\u{301}te\u{301}", "hiver"])),
    );
    assert_eq!(texts(&drain(&mut stream)), strings(&["hiver"]));

    let stop_words = StopWords::from_config(custom(&["e\u{301}te\u{301}"])).unwrap();
    let mut stream = StopWordFilterStream::new(
        &stop_words,
        CharabiaTokenStream::from_segments(words(&["e\u{301}te\u{301}", "hiver"])),
    );
    assert_eq!(texts(&drain(&mut stream)), strings(&["\u{e9}t\u{e9}", "hiver"]));
}

#[test]
fn english_stop_words() {
    let stop_words = StopWords::from_config(language(Language::English)).unwrap();
    for word in ["a", "an", "and", "the", "with", "will", "such"] {
        assert!(stop_words.contains(&word.to_string()), "{}", word);
    }
    for word in ["over", "fox", "The", "th", "thee", "", " the", "der"] {
        assert!(!stop_words.contains(&word.to_string()), "{}", word);
    }
}

#[test]
fn each_language_has_its_own_stop_words() {
    let german = StopWords::from_config(language(Language::German)).unwrap();
    assert!(german.contains(&"und".to_string()));
    assert!(german.contains(&"der".to_string()));
    assert!(!german.contains(&"the".to_string()));

    let french = StopWords::from_config(language(Language::French)).unwrap();
    assert!(french.contains(&"avec".to_string()));
    assert!(!french.contains(&"und".to_string()));
}

#[test]
fn a_language_without_stop_words_is_rejected() {
    let supported = [
        Language::Danish,
        Language::Dutch,
        Language::English,
        Language::Finnish,
        Language::French,
        Language::German,
        Language::Hungarian,
        Language::Italian,
        Language::Norwegian,
        Language::Portuguese,
        Language::Russian,
        Language::Spanish,
        Language::Swedish,
    ];
    for tag in ALL_LANGUAGES {
        let result = StopWordTokenizer::new(CharabiaTokenizer::default(), language(tag));
        if supported.contains(&tag) {
            assert!(result.is_ok(), "{:?}", tag);
        } else {
            assert_eq!(result.err(), Some(ConfigError::UnsupportedStopwordsLanguage(tag)));
        }
        let result = StopWords::from_config(language(tag));
        assert_eq!(result.is_ok(), supported.contains(&tag), "{:?}", tag);
    }
}

#[test]
fn custom_words_do_not_mend_a_rejected_language() {
    let config = TokenizerConfig {
        stopwords_language: Some(Language::Greek),
        stopwords: Some(strings(&["fox"])),
    };
    let result = StopWordTokenizer::new(CharabiaTokenizer::default(), config);
    assert_eq!(result.err(), Some(ConfigError::UnsupportedStopwordsLanguage(Language::Greek)));
}

#[test]
fn the_error_names_the_language() {
    let error = ConfigError::UnsupportedStopwordsLanguage(Language::Greek);
    assert_eq!(error.message(), "no stop words are available for the language Greek");
    let error = ConfigError::UnsupportedStopwordsLanguage(Language::Turkish);
    assert_eq!(error.message(), "no stop words are available for the language Turkish");
}

#[test]
fn language_names() {
    let names: Vec<&str> = ALL_LANGUAGES.iter().map(|tag| tag.name()).collect();
    assert_eq!(
        names,
        vec![
            "Arabic",
            "Danish",
            "Dutch",
            "English",
            "Finnish",
            "French",
            "German",
            "Greek",
            "Hungarian",
            "Italian",
            "Norwegian",
            "Portuguese",
            "Romanian",
            "Russian",
            "Spanish",
            "Swedish",
            "Tamil",
            "Turkish",
        ]
    );
}

#[test]
fn the_default_configuration_activates_nothing() {
    let config = TokenizerConfig::default();
    assert_eq!(config.stopwords_language, None);
    assert_eq!(config.stopwords, None);
    let stop_words = StopWords::from_config(config).unwrap();
    assert!(!stop_words.contains(&"the".to_string()));
    assert!(!stop_words.contains(&"".to_string()));
}

#[test]
fn trailing_stop_words_exhaust_the_stream() {
    let stop_words = StopWords::from_config(custom(&["b"])).unwrap();
    let mut stream = StopWordFilterStream::new(
        &stop_words,
        CharabiaTokenStream::from_segments(words(&["b", "a", "b", "b"])),
    );
    assert!(stream.advance());
    assert_eq!(stream.token().text, "a");
    assert_eq!(stream.token().position, 1);
    assert_eq!(stream.token().offset_from, 2);
    assert_eq!(stream.token().offset_to, 3);
    assert!(!stream.advance());
    assert!(!stream.advance());
}

#[test]
fn a_stream_of_stop_words_yields_nothing() {
    let stop_words = StopWords::from_config(custom(&["a", "b"])).unwrap();
    let mut stream = StopWordFilterStream::new(
        &stop_words,
        CharabiaTokenStream::from_segments(words(&["a", "b", "a"])),
    );
    assert!(!stream.advance());

    let mut empty =
        StopWordFilterStream::new(&stop_words, CharabiaTokenStream::from_segments(vec![]));
    assert!(!empty.advance());
    assert_eq!(*empty.token(), Token::default());
}

#[test]
fn filters_stack() {
    let first = StopWords::from_config(custom(&["a"])).unwrap();
    let second = StopWords::from_config(custom(&["c"])).unwrap();
    let inner = StopWordFilterStream::new(
        &first,
        CharabiaTokenStream::from_segments(words(&["a", "b", "c", "d", "a"])),
    );
    let mut outer = StopWordFilterStream::new(&second, inner);
    let tokens = drain(&mut outer);
    assert_eq!(texts(&tokens), strings(&["b", "d"]));
    let positions: Vec<usize> = tokens.iter().map(|token| token.position).collect();
    assert_eq!(positions, vec![1, 3]);
}

#[test]
fn rewriting_through_the_filter_reaches_the_wrapped_token() {
    let stop_words = StopWords::from_config(custom(&["a"])).unwrap();
    let mut stream = StopWordFilterStream::new(
        &stop_words,
        CharabiaTokenStream::from_segments(words(&["a", "b", "c"])),
    );
    assert!(stream.advance());
    stream.token_mut().text.push('!');
    assert_eq!(stream.token().text, "b!");
    assert_eq!(stream.token().position, 1);
    assert!(stream.advance());
    assert_eq!(stream.token().text, "c");
    assert!(!stream.advance());
}

#[test]
fn filtering_again_gives_the_same_tokens() {
    let mut tokenizer =
        StopWordTokenizer::new(CharabiaTokenizer::default(), language(Language::English)).unwrap();
    let first = drain(&mut tokenizer.token_stream(ENGLISH));
    let second = drain(&mut tokenizer.token_stream(ENGLISH));
    assert_eq!(first, second);
    let mut copy = tokenizer.clone();
    assert_eq!(drain(&mut copy.token_stream(ENGLISH)), first);
}
