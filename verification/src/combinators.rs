use vstd::prelude::*;

use crate::cursor::Cursor;
use crate::decoder::Decoder;
use crate::either::Either;
use crate::transform::FallibleTransform;
use crate::transform::Transform;

verus! {

/// Runs two independent decoders back to back against the same input and
/// pairs their results.
///
/// Decoding short-circuits left to right: a failure of the first decoder is
/// reported as `Left` without consulting the second; after a success of the
/// first, a failure of the second on the remaining bytes is reported as
/// `Right`.  When both succeed the consumed counts add up; when either
/// fails nothing is committed.
#[derive(Debug, Clone, Copy, PartialEq, Eq)]
pub struct Chain<D1, D2> {
    /// The decoder run first.
    pub first: D1,
    /// The decoder run second, against the bytes the first left over.
    pub second: D2,
}

impl<D1, D2> Chain<D1, D2> {
    /// Compose two decoders into one that decodes both in order.
    pub fn new(first: D1, second: D2) -> (r: Chain<D1, D2>)
        ensures
            r.first == first,
            r.second == second,
    {
        Chain { first, second }
    }
}

impl<D1: Decoder, D2: Decoder> Decoder for Chain<D1, D2> {
    type Value = (D1::Value, D2::Value);

    type Error = Either<D1::Error, D2::Error>;

    open spec fn spec_decode(&self, input: Seq<u8>) -> Result<
        ((<D1::Value as DeepView>::V, <D2::Value as DeepView>::V), int),
        Either<D1::Error, D2::Error>,
    > {
        match self.first.spec_decode(input) {
            Err(e1) => Err(Either::Left(e1)),
            Ok((m1, n1)) => match self.second.spec_decode(input.skip(n1)) {
                Err(e2) => Err(Either::Right(e2)),
                Ok((m2, n2)) => Ok(((m1, m2), n1 + n2)),
            },
        }
    }

    proof fn lemma_spec_decode_len(&self, input: Seq<u8>) {
        self.first.lemma_spec_decode_len(input);
        if let Ok((m1, n1)) = self.first.spec_decode(input) {
            self.second.lemma_spec_decode_len(input.skip(n1));
        }
    }

    fn decode<'a>(&self, cursor: &mut Cursor<'a>) -> (r: Result<
        (D1::Value, D2::Value),
        Either<D1::Error, D2::Error>,
    >) {
        let ghost input = cursor.remaining();
        let start = cursor.position();
        match self.first.decode(cursor) {
            Err(e1) => Err(Either::Left(e1)),
            Ok(v1) => {
                proof {
                    self.first.lemma_spec_decode_len(input);
                    assert(cursor.remaining() =~= input.skip(
                        self.first.spec_decode(input)->Ok_0.1,
                    ));
                }
                match self.second.decode(cursor) {
                    Err(e2) => {
                        cursor.set_position(start);
                        Err(Either::Right(e2))
                    },
                    Ok(v2) => Ok((v1, v2)),
                }
            },
        }
    }
}

/// Runs a decoder and applies a pure transformation to its result.
///
/// Decoding succeeds exactly when the inner decoder succeeds, consumes
/// exactly the bytes the inner decoder consumes, and passes a failure of
/// the inner decoder through unchanged: with a single failure source there
/// is nothing to tag.  The transformation is pure post-processing and reads
/// no bytes of its own.
#[derive(Debug, Clone, Copy, PartialEq, Eq)]
pub struct Then<D, F> {
    /// The decoder that consumes the bytes.
    pub first: D,
    /// The transformation applied to the decoded value.
    pub transform: F,
}

impl<D, F> Then<D, F> {
    /// Post-process the result of `first` with `transform`.
    pub fn new(first: D, transform: F) -> (r: Then<D, F>)
        ensures
            r.first == first,
            r.transform == transform,
    {
        Then { first, transform }
    }
}

impl<D: Decoder, F: Transform<Input = D::Value>> Decoder for Then<D, F> {
    type Value = F::Output;

    type Error = D::Error;

    open spec fn spec_decode(&self, input: Seq<u8>) -> Result<
        (<F::Output as DeepView>::V, int),
        D::Error,
    > {
        match self.first.spec_decode(input) {
            Err(e) => Err(e),
            Ok((m, n)) => Ok((self.transform.spec_apply(m), n)),
        }
    }

    proof fn lemma_spec_decode_len(&self, input: Seq<u8>) {
        self.first.lemma_spec_decode_len(input);
    }

    fn decode<'a>(&self, cursor: &mut Cursor<'a>) -> (r: Result<F::Output, D::Error>) {
        match self.first.decode(cursor) {
            Err(e) => Err(e),
            Ok(v) => Ok(self.transform.apply(v)),
        }
    }
}

/// Runs a decoder and applies a fallible connecting step to its result.
///
/// Like [`Then`], but the step itself may reject the decoded value, so the
/// two failure sources are unified in [`Either`]: a failure of the decoder
/// is reported as `Left`, a rejection by the step as `Right`.  When the
/// step rejects, the bytes the decoder consumed are rolled back, so a
/// failed decode commits nothing.
#[derive(Debug, Clone, Copy, PartialEq, Eq)]
pub struct ThenTry<D, F> {
    /// The decoder that consumes the bytes.
    pub first: D,
    /// The fallible step applied to the decoded value.
    pub transform: F,
}

impl<D, F> ThenTry<D, F> {
    /// Post-process the result of `first` with the fallible `transform`.
    pub fn new(first: D, transform: F) -> (r: ThenTry<D, F>)
        ensures
            r.first == first,
            r.transform == transform,
    {
        ThenTry { first, transform }
    }
}

impl<D: Decoder, F: FallibleTransform<Input = D::Value>> Decoder for ThenTry<D, F> {
    type Value = F::Output;

    type Error = Either<D::Error, F::Error>;

    open spec fn spec_decode(&self, input: Seq<u8>) -> Result<
        (<F::Output as DeepView>::V, int),
        Either<D::Error, F::Error>,
    > {
        match self.first.spec_decode(input) {
            Err(e) => Err(Either::Left(e)),
            Ok((m, n)) => match self.transform.spec_apply(m) {
                Err(e) => Err(Either::Right(e)),
                Ok(u) => Ok((u, n)),
            },
        }
    }

    proof fn lemma_spec_decode_len(&self, input: Seq<u8>) {
        self.first.lemma_spec_decode_len(input);
    }

    fn decode<'a>(&self, cursor: &mut Cursor<'a>) -> (r: Result<
        F::Output,
        Either<D::Error, F::Error>,
    >) {
        let start = cursor.position();
        match self.first.decode(cursor) {
            Err(e) => Err(Either::Left(e)),
            Ok(v) => match self.transform.apply(v) {
                Err(e) => {
                    cursor.set_position(start);
                    Err(Either::Right(e))
                },
                Ok(u) => Ok(u),
            },
        }
    }
}

/// The law of `Chain` over any input: a failure of the first decoder makes
/// the chain fail with that error tagged `Left`, and the second decoder is
/// never consulted; when the first succeeds consuming `k1` bytes, the
/// second runs on the bytes past `k1`, and a failure there makes the chain
/// fail with that error tagged `Right`; when both succeed the chain yields
/// the pair of their results and consumes the sum of their counts.
pub proof fn lemma_chain_spec_decode<D1: Decoder, D2: Decoder>(c: &Chain<D1, D2>, input: Seq<u8>)
    ensures
        (c.first.spec_decode(input) matches Err(e1) ==> c.spec_decode(input) == Err::<
            ((<D1::Value as DeepView>::V, <D2::Value as DeepView>::V), int),
            Either<D1::Error, D2::Error>,
        >(Either::Left(e1))),
        (c.first.spec_decode(input) matches Ok(p1) ==> (c.second.spec_decode(input.skip(p1.1))
            matches Err(e2) ==> c.spec_decode(input) == Err::<
            ((<D1::Value as DeepView>::V, <D2::Value as DeepView>::V), int),
            Either<D1::Error, D2::Error>,
        >(Either::Right(e2)))),
        (c.first.spec_decode(input) matches Ok(p1) ==> (c.second.spec_decode(input.skip(p1.1))
            matches Ok(p2) ==> c.spec_decode(input) == Ok::<_, Either<D1::Error, D2::Error>>(
            ((p1.0, p2.0), p1.1 + p2.1),
        ))),
{
}

/// The law of `Then` over any input: it succeeds exactly when its inner
/// decoder succeeds; on success its result is the transformation applied to
/// the inner result and it consumes exactly the bytes the inner decoder
/// consumed; a failure of the inner decoder passes through unchanged.
pub proof fn lemma_then_spec_decode<D: Decoder, F: Transform<Input = D::Value>>(
    t: &Then<D, F>,
    input: Seq<u8>,
)
    ensures
        t.spec_decode(input) is Ok <==> t.first.spec_decode(input) is Ok,
        (t.first.spec_decode(input) matches Ok(p) ==> t.spec_decode(input) == Ok::<_, D::Error>(
            (t.transform.spec_apply(p.0), p.1),
        )),
        (t.first.spec_decode(input) matches Err(e) ==> t.spec_decode(input) == Err::<
            (<F::Output as DeepView>::V, int),
            _,
        >(e)),
{
}

/// The law of `ThenTry` over any input: a failure of the inner decoder is
/// tagged `Left`; when the decoder succeeds, a rejection by the connecting
/// step is tagged `Right`; when both succeed the step's result stands and
/// the consumed count is the decoder's own.
pub proof fn lemma_then_try_spec_decode<D: Decoder, F: FallibleTransform<Input = D::Value>>(
    t: &ThenTry<D, F>,
    input: Seq<u8>,
)
    ensures
        (t.first.spec_decode(input) matches Err(e) ==> t.spec_decode(input) == Err::<
            (<F::Output as DeepView>::V, int),
            Either<D::Error, F::Error>,
        >(Either::Left(e))),
        (t.first.spec_decode(input) matches Ok(p) ==> (t.transform.spec_apply(p.0) matches Err(e)
            ==> t.spec_decode(input) == Err::<
            (<F::Output as DeepView>::V, int),
            Either<D::Error, F::Error>,
        >(Either::Right(e)))),
        (t.first.spec_decode(input) matches Ok(p) ==> (t.transform.spec_apply(p.0) matches Ok(u)
            ==> t.spec_decode(input) == Ok::<_, Either<D::Error, F::Error>>((u, p.1)))),
{
}

} // verus!
