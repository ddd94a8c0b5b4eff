//! Byte sequences that encode as compact bytes in binary formats and as
//! hexadecimal or base64 strings in human-readable ones.
//!
//! The library decides, from a format's "is human-readable" flag, which wire
//! token to produce or accept, and checks what it decodes: a fixed-size
//! array must come back with exactly its size.

pub mod base64_vec;
pub mod hex_array;
pub mod schema;
pub mod base64_vec_type;
pub mod hex_array_type;
pub mod token;

pub use token::{Token, TokenKind, TokenView};
pub use hex_array_type::HexArray;
pub use base64_vec_type::Base64Vec;
