use vstd::prelude::*;

use crate::cursor::Cursor;
use crate::decoder::Decoder;
use crate::decoder::InsufficientInput;

verus! {

/// Decodes a length-prefixed byte sequence into a growable buffer.
///
/// The first byte names how many payload bytes follow; on success the
/// decoder consumes the prefix and the payload and yields the payload.  It
/// fails, committing nothing, when the input is empty or holds fewer
/// payload bytes than the prefix announces.
#[derive(Debug, Clone, Copy, PartialEq, Eq)]
pub struct ByteVecDecoder;

impl Decoder for ByteVecDecoder {
    type Value = Vec<u8>;

    type Error = InsufficientInput;

    open spec fn spec_decode(&self, input: Seq<u8>) -> Result<(Seq<u8>, int), InsufficientInput> {
        if input.len() >= 1 && input.len() >= 1 + input[0] {
            Ok((input.skip(1).take(input[0] as int), 1 + input[0] as int))
        } else {
            Err(InsufficientInput)
        }
    }

    proof fn lemma_spec_decode_len(&self, input: Seq<u8>) {
    }

    fn decode<'a>(&self, cursor: &mut Cursor<'a>) -> (r: Result<Vec<u8>, InsufficientInput>) {
        let ghost input = cursor.remaining();
        if cursor.remaining_len() >= 1 {
            let n = cursor.peek(0);
            if cursor.remaining_len() - 1 >= n as usize {
                let _prefix = cursor.read_byte();
                proof {
                    assert(cursor.remaining() =~= input.skip(1));
                }
                let out = cursor.read_bytes(n as usize);
                proof {
                    assert(out.deep_view() =~= out@);
                }
                return Ok(out);
            }
        }
        Err(InsufficientInput)
    }
}

} // verus!
