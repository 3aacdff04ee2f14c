//! Word tokens for a search index.
//!
//! A multilingual segmentation engine cuts a text into classified runs:
//! words, separators, punctuation. An indexing pipeline wants a pull-based
//! stream of tokens with byte offsets, ordinal positions and owned text.
//! This library is the bridge between the two:
//!
//! - [`segment`] holds the engine and the segments it reports;
//! - [`stream`] holds the stream interface and the adapter, which keeps the
//!   words, composes their lemmas canonically and numbers them;
//! - [`stopwords`] and [`filter`] hold the optional stage that suppresses
//!   stop words without renumbering the tokens that stay;
//! - [`token`], [`language`] and [`normalize`] hold what the others share.
//!
//! What the engine, the normalization tables and the built-in stop-word lists
//! compute is taken on trust and named; everything the library does with it
//! is verified.

pub mod filter;
pub mod language;
pub mod normalize;
pub mod segment;
pub mod stopwords;
pub mod stream;
pub mod token;

pub use filter::{StopWordFilterStream, StopWordTokenizer};
pub use language::Language;
pub use segment::{Segment, SegmentView, SegmentationEngine};
pub use stopwords::{ConfigError, StopWords, TokenizerConfig};
pub use stream::{CharabiaTokenStream, CharabiaTokenizer, TokenStream};
pub use token::{Token, TokenView};
