use vstd::prelude::*;

use crate::cursor::Cursor;
use crate::decoder::Decoder;
use crate::decoder::InsufficientInput;

verus! {

/// Decodes a fixed number of raw bytes.
///
/// The length is configuration fixed at construction.  The decoder fails
/// when fewer bytes remain; on success it consumes exactly that many bytes
/// and yields them unchanged.
#[derive(Debug, Clone, Copy, PartialEq, Eq)]
pub struct ByteArrayDecoder {
    /// How many bytes one decode consumes.
    pub len: usize,
}

impl ByteArrayDecoder {
    /// A decoder for `len` raw bytes.
    pub fn new(len: usize) -> (r: ByteArrayDecoder)
        ensures
            r.len == len,
    {
        ByteArrayDecoder { len }
    }
}

impl Decoder for ByteArrayDecoder {
    type Value = Vec<u8>;

    type Error = InsufficientInput;

    open spec fn spec_decode(&self, input: Seq<u8>) -> Result<(Seq<u8>, int), InsufficientInput> {
        if input.len() >= self.len {
            Ok((input.take(self.len as int), self.len as int))
        } else {
            Err(InsufficientInput)
        }
    }

    proof fn lemma_spec_decode_len(&self, input: Seq<u8>) {
    }

    fn decode<'a>(&self, cursor: &mut Cursor<'a>) -> (r: Result<Vec<u8>, InsufficientInput>) {
        if cursor.remaining_len() >= self.len {
            let out = cursor.read_bytes(self.len);
            proof {
                assert(out.deep_view() =~= out@);
            }
            Ok(out)
        } else {
            Err(InsufficientInput)
        }
    }
}

} // verus!
