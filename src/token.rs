//! The two kinds of value that a format reads or writes for a byte sequence.

use vstd::prelude::*;

verus! {

/// What a serializer is handed, or what a deserializer delivered, for one
/// byte sequence: a string in human-readable formats, raw bytes otherwise.
#[derive(Clone, PartialEq, Eq, Debug)]
pub enum Token {
    Str(String),
    Bytes(Vec<u8>),
}

/// The mathematical value of a [`Token`].
pub enum TokenView {
    Str(Seq<char>),
    Bytes(Seq<u8>),
}

/// The kind of token that a decoder asked the format for.
#[derive(Clone, Copy, PartialEq, Eq, Debug)]
pub enum TokenKind {
    Str,
    Bytes,
}

impl View for Token {
    type V = TokenView;

    open spec fn view(&self) -> TokenView {
        match self {
            Token::Str(s) => TokenView::Str(s@),
            Token::Bytes(b) => TokenView::Bytes(b@),
        }
    }
}

/// The kind of token that a format in the given mode is asked for.
pub open spec fn kind_for_mode(human_readable: bool) -> TokenKind {
    if human_readable {
        TokenKind::Str
    } else {
        TokenKind::Bytes
    }
}

impl Token {
    /// The kind of token that a format in the given mode is asked for.
    pub fn expected_kind(human_readable: bool) -> (r: TokenKind)
        ensures
            r == kind_for_mode(human_readable),
    {
        if human_readable {
            TokenKind::Str
        } else {
            TokenKind::Bytes
        }
    }
}

} // verus!
