//! Fixed-size byte arrays as hexadecimal strings in human-readable formats,
//! and as raw bytes otherwise.

use vstd::prelude::*;
use vstd::slice::slice_to_vec;
use vstd::utf8::{
    encode_scalar, encode_utf8, has_width_1_encoding, has_width_2_encoding, has_width_3_encoding,
    is_ascii_chars, is_ascii_chars_encode_utf8,
};
use crate::token::{Token, TokenKind, TokenView};

verus! {

broadcast use vstd::seq::group_seq_axioms;

/// The sixteen lower-case hexadecimal digits, by value.
pub open spec fn lower_digits() -> Seq<char> {
    seq!['0', '1', '2', '3', '4', '5', '6', '7', '8', '9', 'a', 'b', 'c', 'd', 'e', 'f']
}

/// The sixteen upper-case hexadecimal digits, by value.
pub open spec fn upper_digits() -> Seq<char> {
    seq!['0', '1', '2', '3', '4', '5', '6', '7', '8', '9', 'A', 'B', 'C', 'D', 'E', 'F']
}

/// Two digits per byte, high nibble first, with no separator or prefix.
pub open spec fn hex_string(b: Seq<u8>, upper: bool) -> Seq<char> {
    Seq::new(
        2 * b.len(),
        |i: int|
            {
                let byte = b[i / 2];
                let nibble = if i % 2 == 0 {
                    byte / 16
                } else {
                    byte % 16
                };
                if upper {
                    upper_digits()[nibble as int]
                } else {
                    lower_digits()[nibble as int]
                }
            },
    )
}

/// Whether a byte is one of `0-9`, `a-f` or `A-F`.
pub open spec fn is_hex_digit(c: u8) -> bool {
    (48 <= c <= 57) || (65 <= c <= 70) || (97 <= c <= 102)
}

/// The value of a hexadecimal digit.
pub open spec fn hex_digit_value(c: u8) -> int {
    if c <= 57 {
        c - 48
    } else if c <= 70 {
        c - 55
    } else {
        c - 87
    }
}

/// The bytes that pairs of hexadecimal digits stand for.
pub open spec fn hex_pairs(d: Seq<u8>) -> Seq<u8> {
    Seq::new(
        d.len() / 2,
        |i: int| (hex_digit_value(d[2 * i]) * 16 + hex_digit_value(d[2 * i + 1])) as u8,
    )
}

/// Whether every byte of `d` is a hexadecimal digit.
pub open spec fn all_hex_digits(d: Seq<u8>) -> bool {
    forall|k: int| 0 <= k < d.len() ==> is_hex_digit(#[trigger] d[k])
}

/// The position of the first byte of `d` that is not a hexadecimal digit.
pub open spec fn first_non_hex(d: Seq<u8>) -> int {
    choose|k: int|
        0 <= k < d.len() && !is_hex_digit(d[k]) && forall|j: int|
            0 <= j < k ==> is_hex_digit(#[trigger] d[j])
}

/// Why a string of hexadecimal digits could not be decoded into a buffer.
#[derive(Clone, Copy, PartialEq, Eq, Debug)]
pub enum HexError {
    /// A byte that is not a hexadecimal digit, and its position.
    InvalidHexCharacter { c: char, index: usize },
    /// An odd number of digits.
    OddLength,
    /// An even number of digits, but not two for each byte of the buffer.
    InvalidStringLength,
}

/// Decoding the digits `d` into a buffer of `n` bytes: the length is checked
/// first, then the digits in order.
pub open spec fn hex_decode(d: Seq<u8>, n: nat) -> Result<Seq<u8>, HexError> {
    if d.len() % 2 != 0 {
        Err(HexError::OddLength)
    } else if d.len() / 2 != n {
        Err(HexError::InvalidStringLength)
    } else if !all_hex_digits(d) {
        let k = first_non_hex(d);
        Err(HexError::InvalidHexCharacter { c: d[k] as char, index: k as usize })
    } else {
        Ok(hex_pairs(d))
    }
}

/// Relies on `hex::encode`: two lower-case digits for each byte.
#[verifier::external_body]
fn encode_lower(b: &[u8]) -> (r: String)
    ensures
        r@ == hex_string(b@, false),
{
    hex::encode(b)
}

/// Relies on `hex::encode_upper`: two upper-case digits for each byte.
#[verifier::external_body]
fn encode_upper(b: &[u8]) -> (r: String)
    ensures
        r@ == hex_string(b@, true),
{
    hex::encode_upper(b)
}

/// Relies on `hex::decode_to_slice`, which checks that `d` holds two digits
/// for each byte of the buffer before it decodes the pairs in order.
#[verifier::external_body]
fn decode_digits<const N: usize>(d: &[u8]) -> (r: Result<[u8; N], HexError>)
    ensures
        match r {
            Ok(a) => hex_decode(d@, N as nat) == Ok::<Seq<u8>, HexError>(a@),
            Err(e) => hex_decode(d@, N as nat) == Err::<Seq<u8>, HexError>(e),
        },
{
    let mut out = [0u8; N];
    match hex::decode_to_slice(d, &mut out) {
        Ok(()) => Ok(out),
        Err(hex::FromHexError::InvalidHexCharacter { c, index }) => Err(
            HexError::InvalidHexCharacter { c, index },
        ),
        Err(hex::FromHexError::OddLength) => Err(HexError::OddLength),
        Err(hex::FromHexError::InvalidStringLength) => Err(HexError::InvalidStringLength),
    }
}

/// Why a token could not be decoded into an array of a fixed size.
#[derive(Clone, Copy, PartialEq, Eq, Debug)]
pub enum HexArrayError {
    /// The string held an odd number of digits; `expected` is the array's size.
    OddLength { expected: usize },
    /// The string held `actual` bytes, which is not two digits for each of
    /// the `expected` bytes.
    InvalidStringLength { actual: usize, expected: usize },
    /// A byte of the string that is not a hexadecimal digit, and its position.
    InvalidHexCharacter { c: char, index: usize },
    /// The byte token held `actual` bytes instead of `expected`.
    InvalidLength { actual: usize, expected: usize },
    /// The format delivered a token of another kind than the one asked for.
    InvalidType { expected_kind: TokenKind },
}

impl HexArrayError {
    /// Whether the error says that the input had the wrong length.
    pub open spec fn is_length_mismatch(self) -> bool {
        ||| self is OddLength
        ||| self is InvalidStringLength
        ||| self is InvalidLength
    }
}

/// The token written for `b`: its digits in human-readable formats, the
/// bytes themselves otherwise.
pub open spec fn hex_token(b: Seq<u8>, human_readable: bool, upper: bool) -> TokenView {
    if human_readable {
        TokenView::Str(hex_string(b, upper))
    } else {
        TokenView::Bytes(b)
    }
}

/// What decoding the token `t` into an array of `n` bytes gives. A string is
/// read through its UTF-8 bytes.
pub open spec fn hex_array_from_token(n: nat, human_readable: bool, t: TokenView) -> Result<
    Seq<u8>,
    HexArrayError,
> {
    match t {
        TokenView::Str(s) => {
            if !human_readable {
                Err(HexArrayError::InvalidType { expected_kind: TokenKind::Bytes })
            } else {
                let d = encode_utf8(s);
                match hex_decode(d, n) {
                    Ok(b) => Ok(b),
                    Err(HexError::OddLength) => Err(HexArrayError::OddLength { expected: n as usize }),
                    Err(HexError::InvalidStringLength) => Err(
                        HexArrayError::InvalidStringLength {
                            actual: d.len() as usize,
                            expected: n as usize,
                        },
                    ),
                    Err(HexError::InvalidHexCharacter { c, index }) => Err(
                        HexArrayError::InvalidHexCharacter { c, index },
                    ),
                }
            }
        },
        TokenView::Bytes(b) => {
            if human_readable {
                Err(HexArrayError::InvalidType { expected_kind: TokenKind::Str })
            } else if b.len() == n {
                Ok(b)
            } else {
                Err(HexArrayError::InvalidLength { actual: b.len() as usize, expected: n as usize })
            }
        },
    }
}

/// The value of a decoding result, with the array as a sequence.
pub open spec fn array_result<const N: usize>(r: Result<[u8; N], HexArrayError>) -> Result<
    Seq<u8>,
    HexArrayError,
> {
    match r {
        Ok(a) => Ok(a@),
        Err(e) => Err(e),
    }
}

/// Encodes bytes for a format: lower-case hexadecimal digits if the format is
/// human-readable, the bytes themselves if not.
pub fn serialize(bytes: &[u8], human_readable: bool) -> (r: Token)
    ensures
        r@ == hex_token(bytes@, human_readable, false),
{
    if human_readable {
        Token::Str(encode_lower(bytes))
    } else {
        Token::Bytes(slice_to_vec(bytes))
    }
}

/// Like [`serialize`], with upper-case digits.
pub fn serialize_upper(bytes: &[u8], human_readable: bool) -> (r: Token)
    ensures
        r@ == hex_token(bytes@, human_readable, true),
{
    if human_readable {
        Token::Str(encode_upper(bytes))
    } else {
        Token::Bytes(slice_to_vec(bytes))
    }
}

/// Copies a byte token into an array, if it has exactly `N` bytes.
fn array_from_bytes<const N: usize>(b: &[u8]) -> (r: Result<[u8; N], HexArrayError>)
    ensures
        array_result(r) == hex_array_from_token(N as nat, false, TokenView::Bytes(b@)),
{
    if b.len() != N {
        return Err(HexArrayError::InvalidLength { actual: b.len(), expected: N });
    }
    let mut out = [0u8; N];
    let mut i: usize = 0;
    while i < N
        invariant
            b@.len() == N,
            i <= N,
            forall|j: int| 0 <= j < i ==> out@[j] == b@[j],
        decreases N - i,
    {
        out[i] = b[i];
        i = i + 1;
    }
    assert(out@ =~= b@);
    Ok(out)
}

/// Decodes the token that a format delivered into an array of `N` bytes.
///
/// A human-readable format is asked for a string of exactly `2 * N`
/// hexadecimal digits, in either case; any other format for exactly `N` raw
/// bytes. A token of the other kind is refused.
pub fn deserialize<const N: usize>(human_readable: bool, token: &Token) -> (r: Result<
    [u8; N],
    HexArrayError,
>)
    ensures
        array_result(r) == hex_array_from_token(N as nat, human_readable, token@),
{
    match token {
        Token::Str(s) => {
            if !human_readable {
                return Err(HexArrayError::InvalidType { expected_kind: Token::expected_kind(false) });
            }
            let d = s.as_str().as_bytes();
            match decode_digits::<N>(d) {
                Ok(a) => Ok(a),
                Err(HexError::OddLength) => Err(HexArrayError::OddLength { expected: N }),
                Err(HexError::InvalidStringLength) => Err(
                    HexArrayError::InvalidStringLength { actual: d.len(), expected: N },
                ),
                Err(HexError::InvalidHexCharacter { c, index }) => Err(
                    HexArrayError::InvalidHexCharacter { c, index },
                ),
            }
        },
        Token::Bytes(b) => {
            if human_readable {
                return Err(HexArrayError::InvalidType { expected_kind: Token::expected_kind(true) });
            }
            array_from_bytes::<N>(b.as_slice())
        },
    }
}

/// The digit for a nibble is an ASCII character that decodes back to it.
proof fn lemma_digit(v: int, upper: bool)
    requires
        0 <= v < 16,
    ensures
        ({
            let c = if upper {
                upper_digits()[v]
            } else {
                lower_digits()[v]
            };
            &&& '\0' <= c <= '\u{7f}'
            &&& is_hex_digit(c as u8)
            &&& hex_digit_value(c as u8) == v
        }),
{
    assert(v == 0 || v == 1 || v == 2 || v == 3 || v == 4 || v == 5 || v == 6 || v == 7 || v == 8
        || v == 9 || v == 10 || v == 11 || v == 12 || v == 13 || v == 14 || v == 15);
}

/// The UTF-8 bytes of a hexadecimal rendering are its digits, two per byte of
/// `b`, and they decode back to `b`.
proof fn lemma_hex_string_bytes(b: Seq<u8>, upper: bool)
    ensures
        is_ascii_chars(hex_string(b, upper)),
        all_hex_digits(encode_utf8(hex_string(b, upper))),
        encode_utf8(hex_string(b, upper)).len() == 2 * b.len(),
        hex_pairs(encode_utf8(hex_string(b, upper))) == b,
{
    let s = hex_string(b, upper);
    assert forall|i: int| 0 <= i < s.len() implies '\0' <= #[trigger] s[i] <= '\u{7f}'
        && is_hex_digit(s[i] as u8) && hex_digit_value(s[i] as u8) == (if i % 2 == 0 {
        b[i / 2] / 16
    } else {
        b[i / 2] % 16
    }) by {
        let nibble: int = if i % 2 == 0 {
            (b[i / 2] / 16) as int
        } else {
            (b[i / 2] % 16) as int
        };
        lemma_digit(nibble, upper);
    }
    is_ascii_chars_encode_utf8(s);
    let d = encode_utf8(s);
    assert(d =~= Seq::new(s.len(), |i: int| s[i] as u8));
    assert forall|k: int| 0 <= k < d.len() implies is_hex_digit(#[trigger] d[k]) by {
        assert(d[k] == s[k] as u8);
    }
    assert forall|i: int| 0 <= i < b.len() implies #[trigger] hex_pairs(d)[i] == b[i] by {
        assert(d[2 * i] == s[2 * i] as u8);
        assert(d[2 * i + 1] == s[2 * i + 1] as u8);
        assert((2 * i) / 2 == i && (2 * i) % 2 == 0);
        assert((2 * i + 1) / 2 == i && (2 * i + 1) % 2 == 1);
        assert(b[i] == (b[i] / 16) * 16 + b[i] % 16);
    }
    assert(hex_pairs(d) =~= b);
}

/// Decoding what [`serialize`] or [`serialize_upper`] writes for `b` in a
/// human-readable format, into an array of `b`'s length, gives back `b`.
pub proof fn lemma_round_trip_human_readable(b: Seq<u8>, upper: bool)
    ensures
        hex_array_from_token(b.len(), true, hex_token(b, true, upper)) == Ok::<
            Seq<u8>,
            HexArrayError,
        >(b),
{
    lemma_hex_string_bytes(b, upper);
}

/// Decoding what [`serialize`] or [`serialize_upper`] writes for `b` in a
/// binary format, into an array of `b`'s length, gives back `b`.
pub proof fn lemma_round_trip_binary(b: Seq<u8>, upper: bool)
    ensures
        hex_array_from_token(b.len(), false, hex_token(b, false, upper)) == Ok::<
            Seq<u8>,
            HexArrayError,
        >(b),
{
}

/// The upper-case and the lower-case rendering of the same bytes decode to
/// the same result, whatever the size of the array asked for.
pub proof fn lemma_case_insensitive(b: Seq<u8>, n: nat)
    ensures
        hex_array_from_token(n, true, TokenView::Str(hex_string(b, true))) == hex_array_from_token(
            n,
            true,
            TokenView::Str(hex_string(b, false)),
        ),
{
    lemma_hex_string_bytes(b, true);
    lemma_hex_string_bytes(b, false);
}

/// Decoding into an array of `n` bytes fails with a length error for every
/// string whose UTF-8 encoding is not `2 * n` bytes long, whatever it holds.
pub proof fn lemma_string_length_mismatch(n: nat, s: Seq<char>)
    requires
        encode_utf8(s).len() != 2 * n,
    ensures
        hex_array_from_token(n, true, TokenView::Str(s)) is Err,
        hex_array_from_token(n, true, TokenView::Str(s))->Err_0.is_length_mismatch(),
{
}

/// Decoding into an array of `n` bytes fails with a length error for every
/// byte token that is not `n` bytes long: it is neither cut nor padded.
pub proof fn lemma_bytes_length_mismatch(n: nat, b: Seq<u8>)
    requires
        b.len() != n,
    ensures
        hex_array_from_token(n, false, TokenView::Bytes(b)) == Err::<Seq<u8>, HexArrayError>(
            HexArrayError::InvalidLength { actual: b.len() as usize, expected: n as usize },
        ),
{
}

/// Whether a character is one of `0-9`, `a-f` or `A-F`.
pub open spec fn is_hex_char(c: char) -> bool {
    ('0' <= c <= '9') || ('a' <= c <= 'f') || ('A' <= c <= 'F')
}

/// The first UTF-8 byte of a character other than a hexadecimal digit is no
/// hexadecimal digit either.
proof fn lemma_first_byte_not_hex(c: char)
    requires
        !is_hex_char(c),
    ensures
        encode_scalar(c as u32).len() >= 1,
        !is_hex_digit(encode_scalar(c as u32)[0]),
{
    let v = c as u32;
    if has_width_1_encoding(v) {
        assert(v & 0x7F == v) by (bit_vector)
            requires
                v <= 0x7F,
        ;
    } else if has_width_2_encoding(v) {
        let x = ((v >> 6) & 0x1F) as u8;
        assert(0xC0 | x >= 0xC0) by (bit_vector);
    } else if has_width_3_encoding(v) {
        let x = ((v >> 12) & 0x0F) as u8;
        assert(0xE0 | x >= 0xE0) by (bit_vector);
    } else {
        let x = ((v >> 18) & 0x7) as u8;
        assert(0xF0 | x >= 0xF0) by (bit_vector);
    }
}

/// A string that holds a character other than a hexadecimal digit has a
/// UTF-8 byte that is no hexadecimal digit.
proof fn lemma_non_hex_char(s: Seq<char>, i: int)
    requires
        0 <= i < s.len(),
        !is_hex_char(s[i]),
    ensures
        !all_hex_digits(encode_utf8(s)),
    decreases s.len(),
{
    let e = encode_scalar(s[0] as u32);
    let rest = encode_utf8(s.drop_first());
    assert(encode_utf8(s) == e + rest);
    if i == 0 {
        lemma_first_byte_not_hex(s[0]);
        assert(!is_hex_digit(encode_utf8(s)[0]));
    } else {
        assert(s.drop_first()[i - 1] == s[i]);
        lemma_non_hex_char(s.drop_first(), i - 1);
        let k = choose|k: int| 0 <= k < rest.len() && !is_hex_digit(#[trigger] rest[k]);
        assert(encode_utf8(s)[e.len() + k] == rest[k]);
    }
}

/// Decoding a string that holds a character other than `0-9`, `a-f` and
/// `A-F` fails, whatever the size of the array asked for.
pub proof fn lemma_rejects_non_hex(n: nat, s: Seq<char>, i: int)
    requires
        0 <= i < s.len(),
        !is_hex_char(s[i]),
    ensures
        hex_array_from_token(n, true, TokenView::Str(s)) is Err,
{
    lemma_non_hex_char(s, i);
}

} // verus!
