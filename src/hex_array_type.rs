//! The [`HexArray`] newtype.

use vstd::prelude::*;
use vstd::string::StringExecFns;
use crate::hex_array::{self, array_result, hex_array_from_token, hex_string, hex_token, HexArrayError};
use crate::schema::{decimal, decimal_string, holds, StringSchema};
use crate::token::{Token, TokenView};

verus! {

/// A byte array that encodes as hexadecimal digits in human-readable formats
/// and as raw bytes otherwise.
#[derive(Copy, Clone, PartialEq, Eq, PartialOrd, Ord, Hash)]
pub struct HexArray<const N: usize>(pub [u8; N]);

impl<const N: usize> View for HexArray<N> {
    type V = Seq<u8>;

    open spec fn view(&self) -> Seq<u8> {
        self.0@
    }
}

/// The pattern of a string of `len` hexadecimal digits.
pub open spec fn hex_pattern(len: nat) -> Seq<char> {
    "^[0-9a-fA-F]{"@ + decimal(len) + "}$"@
}

impl<const N: usize> HexArray<N> {
    /// Wraps a byte array.
    pub fn new(bytes: [u8; N]) -> (r: Self)
        ensures
            r.0 == bytes,
    {
        HexArray(bytes)
    }

    /// Unwraps the byte array.
    pub fn into_inner(self) -> (r: [u8; N])
        ensures
            r == self.0,
    {
        self.0
    }

    /// Encodes a byte array as [`hex_array::serialize`] does.
    pub fn serialize(bytes: &[u8; N], human_readable: bool) -> (r: Token)
        ensures
            r@ == hex_token(bytes@, human_readable, false),
    {
        hex_array::serialize(bytes.as_slice(), human_readable)
    }

    /// Decodes a byte array as [`hex_array::deserialize`] does.
    pub fn deserialize(human_readable: bool, token: &Token) -> (r: Result<[u8; N], HexArrayError>)
        ensures
            array_result(r) == hex_array_from_token(N as nat, human_readable, token@),
    {
        hex_array::deserialize::<N>(human_readable, token)
    }

    /// The lower-case hexadecimal digits of the bytes, whatever the format
    /// that the value came from or goes to.
    pub fn to_string(&self) -> (r: String)
        ensures
            r@ == hex_string(self@, false),
    {
        match hex_array::serialize(self.0.as_slice(), true) {
            Token::Str(s) => s,
            Token::Bytes(_) => String::new(),
        }
    }

    /// The digits, as [`HexArray::to_string`] gives them, inside `HexArray(...)`.
    pub fn debug_string(&self) -> (r: String)
        ensures
            r@ == "HexArray("@ + hex_string(self@, false) + ")"@,
    {
        let s = String::from_str("HexArray(");
        let s = s.concat(self.to_string().as_str());
        s.concat(")")
    }

    /// The name under which a schema generator lists the type.
    pub fn schema_name() -> (r: String)
        ensures
            r@ == "HexArray_"@ + decimal(N as nat),
    {
        String::from_str("HexArray_").concat(decimal_string(N).as_str())
    }

    /// Whether a schema generator may refer to the type's schema by name
    /// rather than inline it: never.
    pub fn is_referenceable() -> (r: bool)
        ensures
            !r,
    {
        false
    }

    /// The schema of the human-readable form: a string of exactly `2 * N`
    /// hexadecimal digits.
    pub fn json_schema() -> (r: StringSchema)
        requires
            2 * N <= u32::MAX,
        ensures
            r.min_length == Some((2 * N) as u32),
            r.max_length == Some((2 * N) as u32),
            holds(r.pattern, hex_pattern(2 * N as nat)),
            r.format is None,
            r.content_encoding is None,
    {
        let len: usize = 2 * N;
        let pattern = String::from_str("^[0-9a-fA-F]{").concat(decimal_string(len).as_str()).concat(
            "}$",
        );
        StringSchema {
            min_length: Some(len as u32),
            max_length: Some(len as u32),
            pattern: Some(pattern),
            format: None,
            content_encoding: None,
        }
    }
}

impl<const N: usize> Default for HexArray<N> {
    /// An array of zeros.
    fn default() -> (r: Self)
        ensures
            forall|i: int| 0 <= i < N ==> r.0[i] == 0,
    {
        HexArray([0u8; N])
    }
}

impl<const N: usize> From<[u8; N]> for HexArray<N> {
    fn from(bytes: [u8; N]) -> (r: Self) {
        HexArray(bytes)
    }
}

impl<const N: usize> vstd::std_specs::convert::FromSpecImpl<[u8; N]> for HexArray<N> {
    open spec fn obeys_from_spec() -> bool {
        true
    }

    open spec fn from_spec(bytes: [u8; N]) -> Self {
        HexArray(bytes)
    }
}

impl<const N: usize> From<HexArray<N>> for [u8; N] {
    fn from(a: HexArray<N>) -> (r: Self) {
        a.0
    }
}

impl<const N: usize> vstd::std_specs::convert::FromSpecImpl<HexArray<N>> for [u8; N] {
    open spec fn obeys_from_spec() -> bool {
        true
    }

    open spec fn from_spec(a: HexArray<N>) -> Self {
        a.0
    }
}

impl<const N: usize> core::ops::Deref for HexArray<N> {
    type Target = [u8; N];

    fn deref(&self) -> (r: &[u8; N])
        ensures
            *r == self.0,
    {
        &self.0
    }
}

impl<const N: usize> core::ops::DerefMut for HexArray<N> {
    fn deref_mut(&mut self) -> (r: &mut [u8; N])
        ensures
            *r == old(self).0,
            final(self).0 == *final(r),
    {
        &mut self.0
    }
}

impl<const N: usize> AsRef<[u8]> for HexArray<N> {
    fn as_ref(&self) -> (r: &[u8])
        ensures
            r@ == self@,
    {
        self.0.as_slice()
    }
}

impl<const N: usize> AsMut<[u8]> for HexArray<N> {
    fn as_mut(&mut self) -> (r: &mut [u8])
        ensures
            r@ == old(self)@,
            final(self)@ == final(r)@,
    {
        &mut self.0
    }
}

/// The display string of a value is the string that a human-readable format
/// is given for it, and the value decodes back from it, whichever way the
/// value was made.
pub proof fn lemma_display_is_textual<const N: usize>(a: HexArray<N>)
    ensures
        hex_token(a@, true, false) == TokenView::Str(hex_string(a@, false)),
        hex_array_from_token(N as nat, true, TokenView::Str(hex_string(a@, false))) == Ok::<
            Seq<u8>,
            HexArrayError,
        >(a@),
{
    hex_array::lemma_round_trip_human_readable(a@, false);
}

} // verus!
