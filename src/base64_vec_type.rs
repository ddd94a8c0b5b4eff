//! The [`Base64Vec`] newtype.

use vstd::prelude::*;
use vstd::string::StringExecFns;
use crate::base64_vec::{self, base64_of, base64_token, base64_vec_from_token, vec_result, Base64VecError};
use crate::schema::{holds, StringSchema};
use crate::token::{Token, TokenView};

verus! {

/// A byte vector that encodes as standard padded base64 in human-readable
/// formats and as raw bytes otherwise.
#[derive(Clone, PartialEq, Eq, PartialOrd, Ord, Hash)]
pub struct Base64Vec(pub Vec<u8>);

impl View for Base64Vec {
    type V = Seq<u8>;

    open spec fn view(&self) -> Seq<u8> {
        self.0@
    }
}

impl Base64Vec {
    /// Wraps a byte vector.
    pub fn new(bytes: Vec<u8>) -> (r: Self)
        ensures
            r@ == bytes@,
    {
        Base64Vec(bytes)
    }

    /// Unwraps the byte vector.
    pub fn into_inner(self) -> (r: Vec<u8>)
        ensures
            r@ == self@,
    {
        self.0
    }

    /// Encodes bytes as [`base64_vec::serialize`] does.
    pub fn serialize(bytes: &[u8], human_readable: bool) -> (r: Token)
        ensures
            r@ == base64_token(bytes@, human_readable),
            base64_vec_from_token(human_readable, r@) == Ok::<Seq<u8>, Base64VecError>(bytes@),
    {
        base64_vec::serialize(bytes, human_readable)
    }

    /// Decodes bytes as [`base64_vec::deserialize`] does.
    pub fn deserialize(human_readable: bool, token: &Token) -> (r: Result<Vec<u8>, Base64VecError>)
        ensures
            vec_result(r) == base64_vec_from_token(human_readable, token@),
    {
        base64_vec::deserialize(human_readable, token)
    }

    /// The base64 encoding of the bytes, whatever the format that the value
    /// came from or goes to.
    pub fn to_string(&self) -> (r: String)
        ensures
            r@ == base64_of(self@),
    {
        match base64_vec::serialize(self.0.as_slice(), true) {
            Token::Str(s) => s,
            Token::Bytes(_) => String::new(),
        }
    }

    /// The encoding, as [`Base64Vec::to_string`] gives it, inside
    /// `Base64Vec(...)`.
    pub fn debug_string(&self) -> (r: String)
        ensures
            r@ == "Base64Vec("@ + base64_of(self@) + ")"@,
    {
        let s = String::from_str("Base64Vec(");
        let s = s.concat(self.to_string().as_str());
        s.concat(")")
    }

    /// The name under which a schema generator lists the type.
    pub fn schema_name() -> (r: String)
        ensures
            r@ == "Base64Vec"@,
    {
        String::from_str("Base64Vec")
    }

    /// Whether a schema generator may refer to the type's schema by name
    /// rather than inline it: never.
    pub fn is_referenceable() -> (r: bool)
        ensures
            !r,
    {
        false
    }

    /// The schema of the human-readable form: a string of base64 content.
    pub fn json_schema() -> (r: StringSchema)
        ensures
            r.min_length is None,
            r.max_length is None,
            r.pattern is None,
            holds(r.format, "byte"@),
            holds(r.content_encoding, "base64"@),
    {
        StringSchema {
            min_length: None,
            max_length: None,
            pattern: None,
            format: Some(String::from_str("byte")),
            content_encoding: Some(String::from_str("base64")),
        }
    }
}

impl Default for Base64Vec {
    /// An empty vector.
    fn default() -> (r: Self)
        ensures
            r@.len() == 0,
    {
        Base64Vec(Vec::new())
    }
}

impl core::ops::Deref for Base64Vec {
    type Target = Vec<u8>;

    fn deref(&self) -> (r: &Vec<u8>)
        ensures
            r@ == self@,
    {
        &self.0
    }
}

impl core::ops::DerefMut for Base64Vec {
    fn deref_mut(&mut self) -> (r: &mut Vec<u8>)
        ensures
            r@ == old(self)@,
            final(self)@ == final(r)@,
    {
        &mut self.0
    }
}

impl AsRef<[u8]> for Base64Vec {
    fn as_ref(&self) -> (r: &[u8])
        ensures
            r@ == self@,
    {
        self.0.as_slice()
    }
}

impl AsMut<[u8]> for Base64Vec {
    fn as_mut(&mut self) -> (r: &mut [u8])
        ensures
            r@ == old(self)@,
            final(self)@ == final(r)@,
    {
        self.0.as_mut_slice()
    }
}

impl From<Vec<u8>> for Base64Vec {
    fn from(bytes: Vec<u8>) -> (r: Self) {
        Base64Vec(bytes)
    }
}

impl vstd::std_specs::convert::FromSpecImpl<Vec<u8>> for Base64Vec {
    open spec fn obeys_from_spec() -> bool {
        true
    }

    open spec fn from_spec(bytes: Vec<u8>) -> Self {
        Base64Vec(bytes)
    }
}

impl From<Base64Vec> for Vec<u8> {
    fn from(v: Base64Vec) -> (r: Self) {
        v.0
    }
}

impl vstd::std_specs::convert::FromSpecImpl<Base64Vec> for Vec<u8> {
    open spec fn obeys_from_spec() -> bool {
        true
    }

    open spec fn from_spec(v: Base64Vec) -> Self {
        v.0
    }
}

/// The display string of a value is the string that a human-readable format
/// is given for it, whichever way the value was made.
pub proof fn lemma_display_is_textual(v: Base64Vec)
    ensures
        base64_token(v@, true) == TokenView::Str(base64_of(v@)),
{
}

} // verus!
