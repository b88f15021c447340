use vstd::prelude::*;

verus! {

/// A sum type holding a value of exactly one of two types.
///
/// Composed decoders use it to merge two error channels: a failure of the
/// first stage is wrapped in `Left`, a failure of the second stage in
/// `Right`.  No coercion happens on the way; a caller pattern-matches to
/// recover the specific error.  Equality is structural over whichever
/// variant is active.
#[derive(Debug, Clone, Copy, PartialEq, Eq, Hash)]
pub enum Either<L, R> {
    /// The left variant.
    Left(L),
    /// The right variant.
    Right(R),
}

impl<L, R> Either<L, R> {
    /// Create a `Left` variant carrying exactly the given value.
    pub fn left(value: L) -> (r: Self)
        ensures
            r is Left,
            r->Left_0 == value,
    {
        Either::Left(value)
    }

    /// Create a `Right` variant carrying exactly the given value.
    pub fn right(value: R) -> (r: Self)
        ensures
            r is Right,
            r->Right_0 == value,
    {
        Either::Right(value)
    }
}

/// Two `Left` values are equal exactly when their payloads are.
pub proof fn lemma_left_injective<L, R>(a: L, b: L)
    ensures
        Either::<L, R>::Left(a) == Either::<L, R>::Left(b) <==> a == b,
{
}

/// Two `Right` values are equal exactly when their payloads are.
pub proof fn lemma_right_injective<L, R>(a: R, b: R)
    ensures
        Either::<L, R>::Right(a) == Either::<L, R>::Right(b) <==> a == b,
{
}

/// Values of different variants are never equal, whatever they carry.
pub proof fn lemma_left_ne_right<L, R>(a: L, b: R)
    ensures
        Either::<L, R>::Left(a) != Either::<L, R>::Right(b),
{
}

} // verus!
