use vstd::prelude::*;

use crate::cursor::Cursor;
use crate::decoder::Decoder;
use crate::decoder::InsufficientInput;

verus! {

/// The 16-bit unsigned integer written big-endian in the first two bytes.
pub open spec fn u16_from_be(s: Seq<u8>) -> u16
    recommends
        s.len() >= 2,
{
    (s[0] * 0x100 + s[1]) as u16
}

/// The 16-bit unsigned integer written little-endian in the first two bytes.
pub open spec fn u16_from_le(s: Seq<u8>) -> u16
    recommends
        s.len() >= 2,
{
    (s[1] * 0x100 + s[0]) as u16
}

/// The 32-bit unsigned integer written big-endian in the first four bytes.
pub open spec fn u32_from_be(s: Seq<u8>) -> u32
    recommends
        s.len() >= 4,
{
    (s[0] * 0x1000000 + s[1] * 0x10000 + s[2] * 0x100 + s[3]) as u32
}

/// The 32-bit unsigned integer written little-endian in the first four bytes.
pub open spec fn u32_from_le(s: Seq<u8>) -> u32
    recommends
        s.len() >= 4,
{
    (s[3] * 0x1000000 + s[2] * 0x10000 + s[1] * 0x100 + s[0]) as u32
}

/// The 64-bit unsigned integer written big-endian in the first eight bytes.
pub open spec fn u64_from_be(s: Seq<u8>) -> u64
    recommends
        s.len() >= 8,
{
    (s[0] * 0x100000000000000 + s[1] * 0x1000000000000 + s[2] * 0x10000000000 + s[3] * 0x100000000
        + s[4] * 0x1000000 + s[5] * 0x10000 + s[6] * 0x100 + s[7]) as u64
}

/// The 64-bit unsigned integer written little-endian in the first eight bytes.
pub open spec fn u64_from_le(s: Seq<u8>) -> u64
    recommends
        s.len() >= 8,
{
    (s[7] * 0x100000000000000 + s[6] * 0x1000000000000 + s[5] * 0x10000000000 + s[4] * 0x100000000
        + s[3] * 0x1000000 + s[2] * 0x10000 + s[1] * 0x100 + s[0]) as u64
}

/// The 16-bit signed integer written big-endian in the first two bytes,
/// read as two's complement.
pub open spec fn i16_from_be(s: Seq<u8>) -> i16
    recommends
        s.len() >= 2,
{
    u16_from_be(s) as i16
}

/// The 16-bit signed integer written little-endian in the first two bytes,
/// read as two's complement.
pub open spec fn i16_from_le(s: Seq<u8>) -> i16
    recommends
        s.len() >= 2,
{
    u16_from_le(s) as i16
}

/// The 32-bit signed integer written big-endian in the first four bytes,
/// read as two's complement.
pub open spec fn i32_from_be(s: Seq<u8>) -> i32
    recommends
        s.len() >= 4,
{
    u32_from_be(s) as i32
}

/// The 32-bit signed integer written little-endian in the first four bytes,
/// read as two's complement.
pub open spec fn i32_from_le(s: Seq<u8>) -> i32
    recommends
        s.len() >= 4,
{
    u32_from_le(s) as i32
}

/// The 64-bit signed integer written big-endian in the first eight bytes,
/// read as two's complement.
pub open spec fn i64_from_be(s: Seq<u8>) -> i64
    recommends
        s.len() >= 8,
{
    u64_from_be(s) as i64
}

/// The 64-bit signed integer written little-endian in the first eight
/// bytes, read as two's complement.
pub open spec fn i64_from_le(s: Seq<u8>) -> i64
    recommends
        s.len() >= 8,
{
    u64_from_le(s) as i64
}

/// Decodes a 16-bit unsigned integer from two big-endian bytes.
#[derive(Debug, Clone, Copy, PartialEq, Eq)]
pub struct U16BeDecoder;

impl Decoder for U16BeDecoder {
    type Value = u16;

    type Error = InsufficientInput;

    open spec fn spec_decode(&self, input: Seq<u8>) -> Result<(u16, int), InsufficientInput> {
        if input.len() >= 2 {
            Ok((u16_from_be(input), 2))
        } else {
            Err(InsufficientInput)
        }
    }

    proof fn lemma_spec_decode_len(&self, input: Seq<u8>) {
    }

    fn decode<'a>(&self, cursor: &mut Cursor<'a>) -> (r: Result<u16, InsufficientInput>) {
        if cursor.remaining_len() >= 2 {
            let b0 = cursor.read_byte();
            let b1 = cursor.read_byte();
            Ok((b0 as u16) * 0x100 + (b1 as u16))
        } else {
            Err(InsufficientInput)
        }
    }
}

/// Decodes a 16-bit unsigned integer from two little-endian bytes.
#[derive(Debug, Clone, Copy, PartialEq, Eq)]
pub struct U16LeDecoder;

impl Decoder for U16LeDecoder {
    type Value = u16;

    type Error = InsufficientInput;

    open spec fn spec_decode(&self, input: Seq<u8>) -> Result<(u16, int), InsufficientInput> {
        if input.len() >= 2 {
            Ok((u16_from_le(input), 2))
        } else {
            Err(InsufficientInput)
        }
    }

    proof fn lemma_spec_decode_len(&self, input: Seq<u8>) {
    }

    fn decode<'a>(&self, cursor: &mut Cursor<'a>) -> (r: Result<u16, InsufficientInput>) {
        if cursor.remaining_len() >= 2 {
            let b0 = cursor.read_byte();
            let b1 = cursor.read_byte();
            Ok((b1 as u16) * 0x100 + (b0 as u16))
        } else {
            Err(InsufficientInput)
        }
    }
}

/// Decodes a 32-bit unsigned integer from four big-endian bytes.
#[derive(Debug, Clone, Copy, PartialEq, Eq)]
pub struct U32BeDecoder;

impl Decoder for U32BeDecoder {
    type Value = u32;

    type Error = InsufficientInput;

    open spec fn spec_decode(&self, input: Seq<u8>) -> Result<(u32, int), InsufficientInput> {
        if input.len() >= 4 {
            Ok((u32_from_be(input), 4))
        } else {
            Err(InsufficientInput)
        }
    }

    proof fn lemma_spec_decode_len(&self, input: Seq<u8>) {
    }

    fn decode<'a>(&self, cursor: &mut Cursor<'a>) -> (r: Result<u32, InsufficientInput>) {
        if cursor.remaining_len() >= 4 {
            let b0 = cursor.read_byte();
            let b1 = cursor.read_byte();
            let b2 = cursor.read_byte();
            let b3 = cursor.read_byte();
            Ok((b0 as u32) * 0x1000000 + (b1 as u32) * 0x10000 + (b2 as u32) * 0x100 + (b3 as u32))
        } else {
            Err(InsufficientInput)
        }
    }
}

/// Decodes a 32-bit unsigned integer from four little-endian bytes.
#[derive(Debug, Clone, Copy, PartialEq, Eq)]
pub struct U32LeDecoder;

impl Decoder for U32LeDecoder {
    type Value = u32;

    type Error = InsufficientInput;

    open spec fn spec_decode(&self, input: Seq<u8>) -> Result<(u32, int), InsufficientInput> {
        if input.len() >= 4 {
            Ok((u32_from_le(input), 4))
        } else {
            Err(InsufficientInput)
        }
    }

    proof fn lemma_spec_decode_len(&self, input: Seq<u8>) {
    }

    fn decode<'a>(&self, cursor: &mut Cursor<'a>) -> (r: Result<u32, InsufficientInput>) {
        if cursor.remaining_len() >= 4 {
            let b0 = cursor.read_byte();
            let b1 = cursor.read_byte();
            let b2 = cursor.read_byte();
            let b3 = cursor.read_byte();
            Ok((b3 as u32) * 0x1000000 + (b2 as u32) * 0x10000 + (b1 as u32) * 0x100 + (b0 as u32))
        } else {
            Err(InsufficientInput)
        }
    }
}

/// Decodes a 64-bit unsigned integer from eight big-endian bytes.
#[derive(Debug, Clone, Copy, PartialEq, Eq)]
pub struct U64BeDecoder;

impl Decoder for U64BeDecoder {
    type Value = u64;

    type Error = InsufficientInput;

    open spec fn spec_decode(&self, input: Seq<u8>) -> Result<(u64, int), InsufficientInput> {
        if input.len() >= 8 {
            Ok((u64_from_be(input), 8))
        } else {
            Err(InsufficientInput)
        }
    }

    proof fn lemma_spec_decode_len(&self, input: Seq<u8>) {
    }

    fn decode<'a>(&self, cursor: &mut Cursor<'a>) -> (r: Result<u64, InsufficientInput>) {
        if cursor.remaining_len() >= 8 {
            let b0 = cursor.read_byte();
            let b1 = cursor.read_byte();
            let b2 = cursor.read_byte();
            let b3 = cursor.read_byte();
            let b4 = cursor.read_byte();
            let b5 = cursor.read_byte();
            let b6 = cursor.read_byte();
            let b7 = cursor.read_byte();
            Ok((b0 as u64) * 0x100000000000000 + (b1 as u64) * 0x1000000000000 + (b2 as u64)
                * 0x10000000000 + (b3 as u64) * 0x100000000 + (b4 as u64) * 0x1000000 + (b5 as u64)
                * 0x10000 + (b6 as u64) * 0x100 + (b7 as u64))
        } else {
            Err(InsufficientInput)
        }
    }
}

/// Decodes a 64-bit unsigned integer from eight little-endian bytes.
#[derive(Debug, Clone, Copy, PartialEq, Eq)]
pub struct U64LeDecoder;

impl Decoder for U64LeDecoder {
    type Value = u64;

    type Error = InsufficientInput;

    open spec fn spec_decode(&self, input: Seq<u8>) -> Result<(u64, int), InsufficientInput> {
        if input.len() >= 8 {
            Ok((u64_from_le(input), 8))
        } else {
            Err(InsufficientInput)
        }
    }

    proof fn lemma_spec_decode_len(&self, input: Seq<u8>) {
    }

    fn decode<'a>(&self, cursor: &mut Cursor<'a>) -> (r: Result<u64, InsufficientInput>) {
        if cursor.remaining_len() >= 8 {
            let b0 = cursor.read_byte();
            let b1 = cursor.read_byte();
            let b2 = cursor.read_byte();
            let b3 = cursor.read_byte();
            let b4 = cursor.read_byte();
            let b5 = cursor.read_byte();
            let b6 = cursor.read_byte();
            let b7 = cursor.read_byte();
            Ok((b7 as u64) * 0x100000000000000 + (b6 as u64) * 0x1000000000000 + (b5 as u64)
                * 0x10000000000 + (b4 as u64) * 0x100000000 + (b3 as u64) * 0x1000000 + (b2 as u64)
                * 0x10000 + (b1 as u64) * 0x100 + (b0 as u64))
        } else {
            Err(InsufficientInput)
        }
    }
}

/// Decodes a 16-bit signed integer from two big-endian bytes.
#[derive(Debug, Clone, Copy, PartialEq, Eq)]
pub struct I16BeDecoder;

impl Decoder for I16BeDecoder {
    type Value = i16;

    type Error = InsufficientInput;

    open spec fn spec_decode(&self, input: Seq<u8>) -> Result<(i16, int), InsufficientInput> {
        if input.len() >= 2 {
            Ok((i16_from_be(input), 2))
        } else {
            Err(InsufficientInput)
        }
    }

    proof fn lemma_spec_decode_len(&self, input: Seq<u8>) {
    }

    fn decode<'a>(&self, cursor: &mut Cursor<'a>) -> (r: Result<i16, InsufficientInput>) {
        match U16BeDecoder.decode(cursor) {
            Ok(v) => Ok(v as i16),
            Err(e) => Err(e),
        }
    }
}

/// Decodes a 16-bit signed integer from two little-endian bytes.
#[derive(Debug, Clone, Copy, PartialEq, Eq)]
pub struct I16LeDecoder;

impl Decoder for I16LeDecoder {
    type Value = i16;

    type Error = InsufficientInput;

    open spec fn spec_decode(&self, input: Seq<u8>) -> Result<(i16, int), InsufficientInput> {
        if input.len() >= 2 {
            Ok((i16_from_le(input), 2))
        } else {
            Err(InsufficientInput)
        }
    }

    proof fn lemma_spec_decode_len(&self, input: Seq<u8>) {
    }

    fn decode<'a>(&self, cursor: &mut Cursor<'a>) -> (r: Result<i16, InsufficientInput>) {
        match U16LeDecoder.decode(cursor) {
            Ok(v) => Ok(v as i16),
            Err(e) => Err(e),
        }
    }
}

/// Decodes a 32-bit signed integer from four big-endian bytes.
#[derive(Debug, Clone, Copy, PartialEq, Eq)]
pub struct I32BeDecoder;

impl Decoder for I32BeDecoder {
    type Value = i32;

    type Error = InsufficientInput;

    open spec fn spec_decode(&self, input: Seq<u8>) -> Result<(i32, int), InsufficientInput> {
        if input.len() >= 4 {
            Ok((i32_from_be(input), 4))
        } else {
            Err(InsufficientInput)
        }
    }

    proof fn lemma_spec_decode_len(&self, input: Seq<u8>) {
    }

    fn decode<'a>(&self, cursor: &mut Cursor<'a>) -> (r: Result<i32, InsufficientInput>) {
        match U32BeDecoder.decode(cursor) {
            Ok(v) => Ok(v as i32),
            Err(e) => Err(e),
        }
    }
}

/// Decodes a 32-bit signed integer from four little-endian bytes.
#[derive(Debug, Clone, Copy, PartialEq, Eq)]
pub struct I32LeDecoder;

impl Decoder for I32LeDecoder {
    type Value = i32;

    type Error = InsufficientInput;

    open spec fn spec_decode(&self, input: Seq<u8>) -> Result<(i32, int), InsufficientInput> {
        if input.len() >= 4 {
            Ok((i32_from_le(input), 4))
        } else {
            Err(InsufficientInput)
        }
    }

    proof fn lemma_spec_decode_len(&self, input: Seq<u8>) {
    }

    fn decode<'a>(&self, cursor: &mut Cursor<'a>) -> (r: Result<i32, InsufficientInput>) {
        match U32LeDecoder.decode(cursor) {
            Ok(v) => Ok(v as i32),
            Err(e) => Err(e),
        }
    }
}

/// Decodes a 64-bit signed integer from eight big-endian bytes.
#[derive(Debug, Clone, Copy, PartialEq, Eq)]
pub struct I64BeDecoder;

impl Decoder for I64BeDecoder {
    type Value = i64;

    type Error = InsufficientInput;

    open spec fn spec_decode(&self, input: Seq<u8>) -> Result<(i64, int), InsufficientInput> {
        if input.len() >= 8 {
            Ok((i64_from_be(input), 8))
        } else {
            Err(InsufficientInput)
        }
    }

    proof fn lemma_spec_decode_len(&self, input: Seq<u8>) {
    }

    fn decode<'a>(&self, cursor: &mut Cursor<'a>) -> (r: Result<i64, InsufficientInput>) {
        match U64BeDecoder.decode(cursor) {
            Ok(v) => Ok(v as i64),
            Err(e) => Err(e),
        }
    }
}

/// Decodes a 64-bit signed integer from eight little-endian bytes.
#[derive(Debug, Clone, Copy, PartialEq, Eq)]
pub struct I64LeDecoder;

impl Decoder for I64LeDecoder {
    type Value = i64;

    type Error = InsufficientInput;

    open spec fn spec_decode(&self, input: Seq<u8>) -> Result<(i64, int), InsufficientInput> {
        if input.len() >= 8 {
            Ok((i64_from_le(input), 8))
        } else {
            Err(InsufficientInput)
        }
    }

    proof fn lemma_spec_decode_len(&self, input: Seq<u8>) {
    }

    fn decode<'a>(&self, cursor: &mut Cursor<'a>) -> (r: Result<i64, InsufficientInput>) {
        match U64LeDecoder.decode(cursor) {
            Ok(v) => Ok(v as i64),
            Err(e) => Err(e),
        }
    }
}

} // verus!
