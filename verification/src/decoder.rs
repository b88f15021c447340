use vstd::prelude::*;

use crate::cursor::Cursor;

verus! {

/// The error a decoder reports when the input holds fewer bytes than the
/// decoder needs.
#[derive(Debug, Clone, Copy, PartialEq, Eq, Hash)]
pub struct InsufficientInput;

/// A decoder consumes a prefix of the bytes remaining in a cursor and
/// produces a typed value, or fails with a typed error.
///
/// A decoder is stateless with respect to the data it decodes: it owns only
/// configuration fixed at construction, so one decoder can be reused across
/// many independent inputs.  Its whole behaviour is pinned by
/// [`Decoder::spec_decode`], a mathematical function from the remaining
/// input to either the model of the produced value paired with the number
/// of bytes consumed, or the exact error value.
pub trait Decoder {
    /// The value produced on success.
    type Value: DeepView;

    /// The error produced on failure.
    type Error;

    /// The mathematical meaning of this decoder on the given input: either
    /// the deep view of the value it produces together with the number of
    /// bytes it consumes, or the error it fails with.
    spec fn spec_decode(&self, input: Seq<u8>) -> Result<
        (<Self::Value as DeepView>::V, int),
        Self::Error,
    >;

    /// A successful decode consumes no more bytes than the input holds.
    proof fn lemma_spec_decode_len(&self, input: Seq<u8>)
        ensures
            self.spec_decode(input) matches Ok(p) ==> 0 <= p.1 <= input.len(),
    ;

    /// Run the decoder against the bytes remaining in the cursor.
    ///
    /// On success the cursor has advanced by exactly the number of bytes
    /// consumed; on failure the position is rolled back to where it stood
    /// before the call, so a failed decode commits nothing.
    fn decode<'a>(&self, cursor: &mut Cursor<'a>) -> (r: Result<Self::Value, Self::Error>)
        requires
            old(cursor).wf(),
        ensures
            final(cursor).wf(),
            final(cursor).data() == old(cursor).data(),
            (match r {
                Ok(v) => self.spec_decode(old(cursor).remaining()) matches Ok(p) && p.0
                    == v.deep_view() && final(cursor).pos() == old(cursor).pos() + p.1,
                Err(e) => self.spec_decode(old(cursor).remaining()) matches Err(e2) && e2 == e
                    && final(cursor).pos() == old(cursor).pos(),
            }),
    ;
}

} // verus!
