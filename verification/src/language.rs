//! The languages that a stop-word set can be asked for.

use vstd::prelude::*;

verus! {

/// A language tag of the tokenizer configuration.
#[derive(Clone, Copy, Debug, PartialEq, Eq, Structural, Hash)]
pub enum Language {
    Arabic,
    Danish,
    Dutch,
    English,
    Finnish,
    French,
    German,
    Greek,
    Hungarian,
    Italian,
    Norwegian,
    Portuguese,
    Romanian,
    Russian,
    Spanish,
    Swedish,
    Tamil,
    Turkish,
}

impl Language {
    /// Whether a built-in stop-word set exists for the language.
    pub open spec fn has_stop_words(self) -> bool {
        match self {
            Language::Danish
            | Language::Dutch
            | Language::English
            | Language::Finnish
            | Language::French
            | Language::German
            | Language::Hungarian
            | Language::Italian
            | Language::Norwegian
            | Language::Portuguese
            | Language::Russian
            | Language::Spanish
            | Language::Swedish => true,
            Language::Arabic
            | Language::Greek
            | Language::Romanian
            | Language::Tamil
            | Language::Turkish => false,
        }
    }

    /// The language's English name.
    pub fn name(self) -> (name: &'static str)
        ensures
            name@ == self.name_spec(),
    {
        match self {
            Language::Arabic => "Arabic",
            Language::Danish => "Danish",
            Language::Dutch => "Dutch",
            Language::English => "English",
            Language::Finnish => "Finnish",
            Language::French => "French",
            Language::German => "German",
            Language::Greek => "Greek",
            Language::Hungarian => "Hungarian",
            Language::Italian => "Italian",
            Language::Norwegian => "Norwegian",
            Language::Portuguese => "Portuguese",
            Language::Romanian => "Romanian",
            Language::Russian => "Russian",
            Language::Spanish => "Spanish",
            Language::Swedish => "Swedish",
            Language::Tamil => "Tamil",
            Language::Turkish => "Turkish",
        }
    }

    /// The characters of the language's English name.
    pub open spec fn name_spec(self) -> Seq<char> {
        match self {
            Language::Arabic => "Arabic"@,
            Language::Danish => "Danish"@,
            Language::Dutch => "Dutch"@,
            Language::English => "English"@,
            Language::Finnish => "Finnish"@,
            Language::French => "French"@,
            Language::German => "German"@,
            Language::Greek => "Greek"@,
            Language::Hungarian => "Hungarian"@,
            Language::Italian => "Italian"@,
            Language::Norwegian => "Norwegian"@,
            Language::Portuguese => "Portuguese"@,
            Language::Romanian => "Romanian"@,
            Language::Russian => "Russian"@,
            Language::Spanish => "Spanish"@,
            Language::Swedish => "Swedish"@,
            Language::Tamil => "Tamil"@,
            Language::Turkish => "Turkish"@,
        }
    }
}

} // verus!
