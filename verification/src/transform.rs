use vstd::prelude::*;

verus! {

/// A pure post-processing step for a decoded value.
///
/// `spec_apply` is the mathematical meaning of the step over the deep views
/// of its input and output; the executable `apply` must agree with it on
/// every input, so a transformation can never fail.
pub trait Transform {
    /// The value handed in.
    type Input: DeepView;

    /// The value handed back.
    type Output: DeepView;

    /// The mathematical meaning of the transformation.
    spec fn spec_apply(&self, v: <Self::Input as DeepView>::V) -> <Self::Output as DeepView>::V;

    /// Apply the transformation.
    fn apply(&self, v: Self::Input) -> (r: Self::Output)
        ensures
            r.deep_view() == self.spec_apply(v.deep_view()),
    ;
}

/// A fallible connecting step for a decoded value.
///
/// Like [`Transform`], but the step itself may reject the value with a
/// typed error; `spec_apply` says exactly on which inputs it does.
pub trait FallibleTransform {
    /// The value handed in.
    type Input: DeepView;

    /// The value handed back on success.
    type Output: DeepView;

    /// The error produced on rejection.
    type Error;

    /// The mathematical meaning of the step: the deep view of the value it
    /// hands back, or the exact error it rejects the input with.
    spec fn spec_apply(&self, v: <Self::Input as DeepView>::V) -> Result<
        <Self::Output as DeepView>::V,
        Self::Error,
    >;

    /// Apply the step.
    fn apply(&self, v: Self::Input) -> (r: Result<Self::Output, Self::Error>)
        ensures
            (match r {
                Ok(u) => self.spec_apply(v.deep_view()) matches Ok(m) && m == u.deep_view(),
                Err(e) => self.spec_apply(v.deep_view()) matches Err(e2) && e2 == e,
            }),
    ;
}

/// Joins two decoded bytes into a 16-bit unsigned integer, first byte high.
#[derive(Debug, Clone, Copy, PartialEq, Eq)]
pub struct U16FromPair;

impl Transform for U16FromPair {
    type Input = (u8, u8);

    type Output = u16;

    open spec fn spec_apply(&self, v: (u8, u8)) -> u16 {
        (v.0 * 0x100 + v.1) as u16
    }

    fn apply(&self, v: (u8, u8)) -> (r: u16) {
        (v.0 as u16) * 0x100 + (v.1 as u16)
    }
}

/// The error of [`ExpectByte`]: the byte found was not the one expected.
#[derive(Debug, Clone, Copy, PartialEq, Eq)]
pub struct UnexpectedByte {
    /// The byte the step demanded.
    pub expected: u8,
    /// The byte the input held.
    pub found: u8,
}

/// Checks a decoded byte against a fixed expected value, as for the magic
/// byte of a framed format: the byte passes through unchanged when it
/// matches and is rejected otherwise.
#[derive(Debug, Clone, Copy, PartialEq, Eq)]
pub struct ExpectByte {
    /// The byte the input must hold.
    pub expected: u8,
}

impl FallibleTransform for ExpectByte {
    type Input = u8;

    type Output = u8;

    type Error = UnexpectedByte;

    open spec fn spec_apply(&self, v: u8) -> Result<u8, UnexpectedByte> {
        if v == self.expected {
            Ok(v)
        } else {
            Err(UnexpectedByte { expected: self.expected, found: v })
        }
    }

    fn apply(&self, v: u8) -> (r: Result<u8, UnexpectedByte>) {
        if v == self.expected {
            Ok(v)
        } else {
            Err(UnexpectedByte { expected: self.expected, found: v })
        }
    }
}

/// The error of [`BoolFromByte`]: the byte encodes neither `false` nor
/// `true`.
#[derive(Debug, Clone, Copy, PartialEq, Eq)]
pub struct InvalidBoolByte {
    /// The byte the input held.
    pub found: u8,
}

/// Reads a decoded byte as a boolean: zero is `false`, one is `true`, and
/// every other byte is rejected.
#[derive(Debug, Clone, Copy, PartialEq, Eq)]
pub struct BoolFromByte;

impl FallibleTransform for BoolFromByte {
    type Input = u8;

    type Output = bool;

    type Error = InvalidBoolByte;

    open spec fn spec_apply(&self, v: u8) -> Result<bool, InvalidBoolByte> {
        if v == 0 {
            Ok(false)
        } else if v == 1 {
            Ok(true)
        } else {
            Err(InvalidBoolByte { found: v })
        }
    }

    fn apply(&self, v: u8) -> (r: Result<bool, InvalidBoolByte>) {
        if v == 0 {
            Ok(false)
        } else if v == 1 {
            Ok(true)
        } else {
            Err(InvalidBoolByte { found: v })
        }
    }
}

} // verus!
