//! The token that a stream exposes, and its mathematical model.

use vstd::prelude::*;

verus! {

/// One unit of indexed text.
///
/// `offset_from..offset_to` is a byte range of the text that was tokenized,
/// never of a normalized copy of it. `position` counts emitted tokens, and
/// `position_length` says how many positions the token spans.
#[derive(Debug, PartialEq, Eq)]
pub struct Token {
    pub offset_from: usize,
    pub offset_to: usize,
    pub position: usize,
    pub text: String,
    pub position_length: usize,
}

/// What a [`Token`] is to a contract: its text as a sequence of characters,
/// its numbers as natural numbers.
pub ghost struct TokenView {
    pub offset_from: nat,
    pub offset_to: nat,
    pub position: nat,
    pub text: Seq<char>,
    pub position_length: nat,
}

impl View for Token {
    type V = TokenView;

    open spec fn view(&self) -> TokenView {
        TokenView {
            offset_from: self.offset_from as nat,
            offset_to: self.offset_to as nat,
            position: self.position as nat,
            text: self.text@,
            position_length: self.position_length as nat,
        }
    }
}

impl Token {
    /// The token that a stream holds before its first successful advance:
    /// empty text, an empty range, the largest position and a span of one.
    pub open spec fn blank() -> TokenView {
        TokenView {
            offset_from: 0,
            offset_to: 0,
            position: usize::MAX as nat,
            text: Seq::empty(),
            position_length: 1,
        }
    }
}

impl Default for Token {
    fn default() -> (token: Token)
        ensures
            token@ == Token::blank(),
    {
        Token {
            offset_from: 0,
            offset_to: 0,
            position: usize::MAX,
            text: String::new(),
            position_length: 1,
        }
    }
}

impl Clone for Token {
    fn clone(&self) -> (copy: Token)
        ensures
            copy@ == self@,
    {
        Token {
            offset_from: self.offset_from,
            offset_to: self.offset_to,
            position: self.position,
            text: self.text.clone(),
            position_length: self.position_length,
        }
    }
}

} // verus!
