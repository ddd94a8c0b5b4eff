//! Byte vectors as standard padded base64 strings in human-readable formats,
//! and as raw bytes otherwise.

use vstd::prelude::*;
use vstd::slice::slice_to_vec;
use crate::token::{Token, TokenKind, TokenView};

verus! {

/// Why a string is not the standard padded base64 encoding of any bytes.
#[derive(Clone, Copy, PartialEq, Eq, Debug)]
pub enum Base64DecodeError {
    /// A byte outside the alphabet, or padding that is not at the end.
    InvalidByte { offset: usize, byte: u8 },
    /// A number of symbols that no encoding has.
    InvalidLength { length: usize },
    /// A last symbol whose unused bits are not zero.
    InvalidLastSymbol { offset: usize, byte: u8 },
    /// Padding that is missing or not canonical.
    InvalidPadding,
}

/// The standard padded base64 encoding of `b` (RFC 4648, section 4).
pub uninterp spec fn base64_of(b: Seq<u8>) -> Seq<char>;

/// What decoding `s` as standard padded base64 gives.
pub uninterp spec fn base64_decoded(s: Seq<char>) -> Result<Seq<u8>, Base64DecodeError>;

/// Whether a character belongs to the standard base64 alphabet or is the
/// padding character `=`.
pub open spec fn is_base64_char(c: char) -> bool {
    ||| 'A' <= c <= 'Z'
    ||| 'a' <= c <= 'z'
    ||| '0' <= c <= '9'
    ||| c == '+'
    ||| c == '/'
    ||| c == '='
}

/// Relies on `base64::engine::general_purpose::STANDARD.encode`, whose
/// canonical padded output the same engine decodes back to `b`.
#[verifier::external_body]
fn encode_standard(b: &[u8]) -> (r: String)
    ensures
        r@ == base64_of(b@),
        base64_decoded(r@) is Ok,
        base64_decoded(r@)->Ok_0 == b@,
{
    base64::Engine::encode(&base64::engine::general_purpose::STANDARD, b)
}

/// Relies on `base64::engine::general_purpose::STANDARD.decode`, which
/// refuses every byte outside the alphabet and the padding character.
#[verifier::external_body]
fn decode_standard(s: &str) -> (r: Result<Vec<u8>, Base64DecodeError>)
    ensures
        match r {
            Ok(v) => base64_decoded(s@) == Ok::<Seq<u8>, Base64DecodeError>(v@),
            Err(e) => base64_decoded(s@) == Err::<Seq<u8>, Base64DecodeError>(e),
        },
        (exists|i: int| 0 <= i < s@.len() && !is_base64_char(#[trigger] s@[i])) ==> r is Err,
{
    match base64::Engine::decode(&base64::engine::general_purpose::STANDARD, s) {
        Ok(v) => Ok(v),
        Err(base64::DecodeError::InvalidByte(offset, byte)) => Err(
            Base64DecodeError::InvalidByte { offset, byte },
        ),
        Err(base64::DecodeError::InvalidLength(length)) => Err(
            Base64DecodeError::InvalidLength { length },
        ),
        Err(base64::DecodeError::InvalidLastSymbol(offset, byte)) => Err(
            Base64DecodeError::InvalidLastSymbol { offset, byte },
        ),
        Err(base64::DecodeError::InvalidPadding) => Err(Base64DecodeError::InvalidPadding),
    }
}

/// Why a token could not be decoded into a byte vector.
#[derive(Clone, Copy, PartialEq, Eq, Debug)]
pub enum Base64VecError {
    /// The string is not standard padded base64.
    Malformed(Base64DecodeError),
    /// The format delivered a token of another kind than the one asked for.
    InvalidType { expected_kind: TokenKind },
}

/// The token written for `b`: its base64 encoding in human-readable formats,
/// the bytes themselves otherwise.
pub open spec fn base64_token(b: Seq<u8>, human_readable: bool) -> TokenView {
    if human_readable {
        TokenView::Str(base64_of(b))
    } else {
        TokenView::Bytes(b)
    }
}

/// What decoding the token `t` into a byte vector gives.
pub open spec fn base64_vec_from_token(human_readable: bool, t: TokenView) -> Result<
    Seq<u8>,
    Base64VecError,
> {
    match t {
        TokenView::Str(s) => {
            if !human_readable {
                Err(Base64VecError::InvalidType { expected_kind: TokenKind::Bytes })
            } else {
                match base64_decoded(s) {
                    Ok(b) => Ok(b),
                    Err(e) => Err(Base64VecError::Malformed(e)),
                }
            }
        },
        TokenView::Bytes(b) => {
            if human_readable {
                Err(Base64VecError::InvalidType { expected_kind: TokenKind::Str })
            } else {
                Ok(b)
            }
        },
    }
}

/// The value of a decoding result, with the vector as a sequence.
pub open spec fn vec_result(r: Result<Vec<u8>, Base64VecError>) -> Result<Seq<u8>, Base64VecError> {
    match r {
        Ok(v) => Ok(v@),
        Err(e) => Err(e),
    }
}

/// Encodes bytes for a format: standard padded base64 if the format is
/// human-readable, the bytes themselves if not. Decoding the token in the
/// same mode gives the bytes back.
pub fn serialize(bytes: &[u8], human_readable: bool) -> (r: Token)
    ensures
        r@ == base64_token(bytes@, human_readable),
        base64_vec_from_token(human_readable, r@) == Ok::<Seq<u8>, Base64VecError>(bytes@),
{
    if human_readable {
        Token::Str(encode_standard(bytes))
    } else {
        Token::Bytes(slice_to_vec(bytes))
    }
}

/// Decodes the token that a format delivered into a byte vector.
///
/// A human-readable format is asked for a standard padded base64 string, any
/// other format for raw bytes, which are taken as they are. A token of the
/// other kind is refused, and so is a string with a character outside the
/// base64 alphabet.
pub fn deserialize(human_readable: bool, token: &Token) -> (r: Result<Vec<u8>, Base64VecError>)
    ensures
        vec_result(r) == base64_vec_from_token(human_readable, token@),
        token@ matches TokenView::Str(s) ==> (exists|i: int|
            0 <= i < s.len() && !is_base64_char(#[trigger] s[i])) ==> r is Err,
{
    match token {
        Token::Str(s) => {
            if !human_readable {
                return Err(Base64VecError::InvalidType { expected_kind: Token::expected_kind(false) });
            }
            match decode_standard(s.as_str()) {
                Ok(v) => Ok(v),
                Err(e) => Err(Base64VecError::Malformed(e)),
            }
        },
        Token::Bytes(b) => {
            if human_readable {
                return Err(Base64VecError::InvalidType { expected_kind: Token::expected_kind(true) });
            }
            Ok(b.clone())
        },
    }
}

} // verus!
