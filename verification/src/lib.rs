//! Composable binary decoders with verified contracts.
//!
//! A decoder consumes a prefix of the bytes remaining in a [`Cursor`] and
//! yields a typed value or a typed error.  Leaf decoders read single bytes,
//! fixed-size arrays and fixed-width integers; the combinators `Then`,
//! `ThenTry` and `Chain` glue decoders into pipelines that are themselves
//! decoders.  `Either` merges the error channels of two composed stages,
//! tagging which stage failed.

mod byte_array;
mod byte_vec;
mod combinators;
mod cursor;
mod decoder;
mod either;
mod integers;
mod transform;
mod u8_decoder;

pub use byte_array::ByteArrayDecoder;
pub use byte_vec::ByteVecDecoder;
pub use combinators::Chain;
pub use combinators::Then;
pub use combinators::ThenTry;
pub use combinators::lemma_chain_spec_decode;
pub use combinators::lemma_then_spec_decode;
pub use combinators::lemma_then_try_spec_decode;
pub use cursor::Cursor;
pub use decoder::Decoder;
pub use decoder::InsufficientInput;
pub use either::Either;
pub use either::lemma_left_injective;
pub use either::lemma_left_ne_right;
pub use either::lemma_right_injective;
pub use integers::I16BeDecoder;
pub use integers::I16LeDecoder;
pub use integers::I32BeDecoder;
pub use integers::I32LeDecoder;
pub use integers::I64BeDecoder;
pub use integers::I64LeDecoder;
pub use integers::U16BeDecoder;
pub use integers::U16LeDecoder;
pub use integers::U32BeDecoder;
pub use integers::U32LeDecoder;
pub use integers::U64BeDecoder;
pub use integers::U64LeDecoder;
pub use integers::i16_from_be;
pub use integers::i16_from_le;
pub use integers::i32_from_be;
pub use integers::i32_from_le;
pub use integers::i64_from_be;
pub use integers::i64_from_le;
pub use integers::u16_from_be;
pub use integers::u16_from_le;
pub use integers::u32_from_be;
pub use integers::u32_from_le;
pub use integers::u64_from_be;
pub use integers::u64_from_le;
pub use transform::BoolFromByte;
pub use transform::ExpectByte;
pub use transform::FallibleTransform;
pub use transform::InvalidBoolByte;
pub use transform::Transform;
pub use transform::U16FromPair;
pub use transform::UnexpectedByte;
pub use u8_decoder::U8Decoder;
