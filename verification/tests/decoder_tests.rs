use decoders::BoolFromByte;
use decoders::ByteArrayDecoder;
use decoders::ByteVecDecoder;
use decoders::Chain;
use decoders::Cursor;
use decoders::Decoder;
use decoders::Either;
use decoders::ExpectByte;
use decoders::InsufficientInput;
use decoders::I16BeDecoder;
use decoders::I16LeDecoder;
use decoders::I32BeDecoder;
use decoders::I32LeDecoder;
use decoders::I64BeDecoder;
use decoders::I64LeDecoder;
use decoders::InvalidBoolByte;
use decoders::Then;
use decoders::ThenTry;
use decoders::U16BeDecoder;
use decoders::U16FromPair;
use decoders::U16LeDecoder;
use decoders::U32BeDecoder;
use decoders::U32LeDecoder;
use decoders::U64BeDecoder;
use decoders::U64LeDecoder;
use decoders::U8Decoder;
use decoders::UnexpectedByte;

#[test]
fn u8_decoder_reads_one_byte() {
    let data = [0x05u8];
    let mut c = Cursor::new(&data);
    assert_eq!(U8Decoder.decode(&mut c), Ok(5));
    assert_eq!(c.position(), 1);
    assert_eq!(c.remaining_len(), 0);
}

#[test]
fn u8_decoder_fails_on_empty_input() {
    let data: [u8; 0] = [];
    let mut c = Cursor::new(&data);
    assert_eq!(U8Decoder.decode(&mut c), Err(InsufficientInput));
    assert_eq!(c.position(), 0);
}

#[test]
fn u32_be_reads_256() {
    let data = [0x00u8, 0x00, 0x01, 0x00];
    let mut c = Cursor::new(&data);
    assert_eq!(U32BeDecoder.decode(&mut c), Ok(256));
    assert_eq!(c.position(), 4);
}

#[test]
fn u32_be_commits_nothing_on_short_input() {
    let data = [0x00u8, 0x01, 0x00];
    let mut c = Cursor::new(&data);
    assert_eq!(U32BeDecoder.decode(&mut c), Err(InsufficientInput));
    assert_eq!(c.position(), 0);
    assert_eq!(c.remaining_len(), 3);
}

#[test]
fn u16_decoders_respect_byte_order() {
    let data = [0x12u8, 0x34];
    let mut c = Cursor::new(&data);
    assert_eq!(U16BeDecoder.decode(&mut c), Ok(0x1234));
    let mut c = Cursor::new(&data);
    assert_eq!(U16LeDecoder.decode(&mut c), Ok(0x3412));
}

#[test]
fn u32_le_reads_reversed_bytes() {
    let data = [0x78u8, 0x56, 0x34, 0x12];
    let mut c = Cursor::new(&data);
    assert_eq!(U32LeDecoder.decode(&mut c), Ok(0x12345678));
}

#[test]
fn u64_decoders_respect_byte_order() {
    let data = [0x01u8, 0x02, 0x03, 0x04, 0x05, 0x06, 0x07, 0x08];
    let mut c = Cursor::new(&data);
    assert_eq!(U64BeDecoder.decode(&mut c), Ok(0x0102030405060708));
    let mut c = Cursor::new(&data);
    assert_eq!(U64LeDecoder.decode(&mut c), Ok(0x0807060504030201));
}

#[test]
fn u64_be_fails_on_seven_bytes() {
    let data = [0u8; 7];
    let mut c = Cursor::new(&data);
    assert_eq!(U64BeDecoder.decode(&mut c), Err(InsufficientInput));
    assert_eq!(c.position(), 0);
}

#[test]
fn signed_decoders_read_twos_complement() {
    let data = [0xFFu8, 0xFE];
    let mut c = Cursor::new(&data);
    assert_eq!(I16BeDecoder.decode(&mut c), Ok(-2));
    let mut c = Cursor::new(&data);
    assert_eq!(I16LeDecoder.decode(&mut c), Ok(-257));
    let data = [0xFFu8, 0xFF, 0xFF, 0xFF];
    let mut c = Cursor::new(&data);
    assert_eq!(I32BeDecoder.decode(&mut c), Ok(-1));
    let mut c = Cursor::new(&data);
    assert_eq!(I32LeDecoder.decode(&mut c), Ok(-1));
    let data = [0x80u8, 0, 0, 0, 0, 0, 0, 0];
    let mut c = Cursor::new(&data);
    assert_eq!(I64BeDecoder.decode(&mut c), Ok(i64::MIN));
    let mut c = Cursor::new(&data);
    assert_eq!(I64LeDecoder.decode(&mut c), Ok(128));
}

#[test]
fn signed_decoders_fail_on_short_input() {
    let data = [0x01u8];
    let mut c = Cursor::new(&data);
    assert_eq!(I16BeDecoder.decode(&mut c), Err(InsufficientInput));
    assert_eq!(I32LeDecoder.decode(&mut c), Err(InsufficientInput));
    assert_eq!(I64BeDecoder.decode(&mut c), Err(InsufficientInput));
    assert_eq!(c.position(), 0);
}

#[test]
fn chain_decodes_two_bytes_in_order() {
    let data = [0x05u8, 0x09];
    let mut c = Cursor::new(&data);
    let chain = Chain::new(U8Decoder, U8Decoder);
    assert_eq!(chain.decode(&mut c), Ok((5, 9)));
    assert_eq!(c.position(), 2);
}

#[test]
fn chain_tags_second_stage_failure_right() {
    let data = [0x05u8];
    let mut c = Cursor::new(&data);
    let chain = Chain::new(U8Decoder, U8Decoder);
    assert_eq!(chain.decode(&mut c), Err(Either::Right(InsufficientInput)));
    assert_eq!(c.position(), 0);
}

#[test]
fn chain_tags_first_stage_failure_left() {
    let data: [u8; 0] = [];
    let mut c = Cursor::new(&data);
    let chain = Chain::new(U8Decoder, U8Decoder);
    assert_eq!(chain.decode(&mut c), Err(Either::Left(InsufficientInput)));
    assert_eq!(c.position(), 0);
}

#[test]
fn chain_nests_into_larger_pipelines() {
    let data = [0x01u8, 0x02, 0x03];
    let mut c = Cursor::new(&data);
    let chain = Chain::new(Chain::new(U8Decoder, U8Decoder), U8Decoder);
    assert_eq!(chain.decode(&mut c), Ok(((1, 2), 3)));
    assert_eq!(c.position(), 3);
}

#[test]
fn byte_array_decoder_leaves_the_rest() {
    let data = [0xAAu8, 0xBB, 0xCC];
    let mut c = Cursor::new(&data);
    let d = ByteArrayDecoder::new(2);
    assert_eq!(d.decode(&mut c), Ok(vec![0xAA, 0xBB]));
    assert_eq!(c.remaining_len(), 1);
    assert_eq!(U8Decoder.decode(&mut c), Ok(0xCC));
}

#[test]
fn byte_array_decoder_fails_on_short_input() {
    let data = [0x01u8, 0x02, 0x03];
    let mut c = Cursor::new(&data);
    let d = ByteArrayDecoder::new(4);
    assert_eq!(d.decode(&mut c), Err(InsufficientInput));
    assert_eq!(c.position(), 0);
}

#[test]
fn byte_vec_decoder_reads_length_prefixed_payload() {
    let data = [0x02u8, 0xAA, 0xBB, 0xCC];
    let mut c = Cursor::new(&data);
    assert_eq!(ByteVecDecoder.decode(&mut c), Ok(vec![0xAA, 0xBB]));
    assert_eq!(c.position(), 3);
    assert_eq!(c.remaining_len(), 1);
}

#[test]
fn byte_vec_decoder_commits_nothing_on_short_payload() {
    let data = [0x03u8, 0x01, 0x02];
    let mut c = Cursor::new(&data);
    assert_eq!(ByteVecDecoder.decode(&mut c), Err(InsufficientInput));
    assert_eq!(c.position(), 0);
}

#[test]
fn byte_vec_decoder_fails_on_empty_input() {
    let data: [u8; 0] = [];
    let mut c = Cursor::new(&data);
    assert_eq!(ByteVecDecoder.decode(&mut c), Err(InsufficientInput));
}

#[test]
fn then_applies_the_transformation() {
    let data = [0x01u8, 0x02];
    let mut c = Cursor::new(&data);
    let d = Then::new(Chain::new(U8Decoder, U8Decoder), U16FromPair);
    assert_eq!(d.decode(&mut c), Ok(0x0102));
    assert_eq!(c.position(), 2);
}

#[test]
fn then_passes_failures_through_unchanged() {
    let data = [0x01u8];
    let mut c = Cursor::new(&data);
    let d = Then::new(Chain::new(U8Decoder, U8Decoder), U16FromPair);
    assert_eq!(d.decode(&mut c), Err(Either::Right(InsufficientInput)));
    assert_eq!(c.position(), 0);
}

#[test]
fn then_try_accepts_the_expected_byte() {
    let data = [0x7Fu8];
    let mut c = Cursor::new(&data);
    let d = ThenTry::new(U8Decoder, ExpectByte { expected: 0x7F });
    assert_eq!(d.decode(&mut c), Ok(0x7F));
    assert_eq!(c.position(), 1);
}

#[test]
fn then_try_tags_a_rejection_right_and_rolls_back() {
    let data = [0x00u8];
    let mut c = Cursor::new(&data);
    let d = ThenTry::new(U8Decoder, ExpectByte { expected: 0x7F });
    assert_eq!(
        d.decode(&mut c),
        Err(Either::Right(UnexpectedByte { expected: 0x7F, found: 0x00 }))
    );
    assert_eq!(c.position(), 0);
}

#[test]
fn then_try_tags_a_decoder_failure_left() {
    let data: [u8; 0] = [];
    let mut c = Cursor::new(&data);
    let d = ThenTry::new(U8Decoder, ExpectByte { expected: 0x7F });
    assert_eq!(d.decode(&mut c), Err(Either::Left(InsufficientInput)));
}

#[test]
fn bool_from_byte_reads_zero_and_one() {
    let data = [0x00u8, 0x01, 0x02];
    let mut c = Cursor::new(&data);
    let d = ThenTry::new(U8Decoder, BoolFromByte);
    assert_eq!(d.decode(&mut c), Ok(false));
    assert_eq!(d.decode(&mut c), Ok(true));
    assert_eq!(d.decode(&mut c), Err(Either::Right(InvalidBoolByte { found: 2 })));
    assert_eq!(c.position(), 2);
}

#[test]
fn one_decoder_serves_many_inputs() {
    let d = U16BeDecoder;
    let first = [0x00u8, 0x2A];
    let second = [0xFFu8, 0xFF];
    let mut c1 = Cursor::new(&first);
    let mut c2 = Cursor::new(&second);
    assert_eq!(d.decode(&mut c1), Ok(42));
    assert_eq!(d.decode(&mut c2), Ok(0xFFFF));
}

#[test]
fn consecutive_decodes_walk_the_same_cursor() {
    let data = [0x00u8, 0x01, 0x02, 0x03];
    let mut c = Cursor::new(&data);
    assert_eq!(U16BeDecoder.decode(&mut c), Ok(1));
    assert_eq!(U16BeDecoder.decode(&mut c), Ok(0x0203));
    assert_eq!(c.remaining_len(), 0);
}
