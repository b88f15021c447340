use vstd::prelude::*;

use crate::cursor::Cursor;
use crate::decoder::Decoder;
use crate::decoder::InsufficientInput;

verus! {

/// Decodes a single byte as an 8-bit unsigned integer.
///
/// Consumes exactly one byte; fails when no byte remains.
#[derive(Debug, Clone, Copy, PartialEq, Eq)]
pub struct U8Decoder;

impl Decoder for U8Decoder {
    type Value = u8;

    type Error = InsufficientInput;

    open spec fn spec_decode(&self, input: Seq<u8>) -> Result<(u8, int), InsufficientInput> {
        if input.len() >= 1 {
            Ok((input[0], 1))
        } else {
            Err(InsufficientInput)
        }
    }

    proof fn lemma_spec_decode_len(&self, input: Seq<u8>) {
    }

    fn decode<'a>(&self, cursor: &mut Cursor<'a>) -> (r: Result<u8, InsufficientInput>) {
        if cursor.remaining_len() >= 1 {
            Ok(cursor.read_byte())
        } else {
            Err(InsufficientInput)
        }
    }
}

} // verus!
