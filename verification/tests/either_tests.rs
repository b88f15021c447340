use decoders::Either;

#[test]
fn left_is_left_and_keeps_value() {
    let e: Either<u8, u16> = Either::left(5);
    assert!(matches!(e, Either::Left(5)));
}

#[test]
fn right_is_right_and_keeps_value() {
    let e: Either<u8, u16> = Either::right(700);
    assert!(matches!(e, Either::Right(700)));
}

#[test]
fn left_values_equal_iff_payloads_equal() {
    assert_eq!(Either::<u8, u8>::left(3), Either::<u8, u8>::left(3));
    assert_ne!(Either::<u8, u8>::left(3), Either::<u8, u8>::left(4));
}

#[test]
fn right_values_equal_iff_payloads_equal() {
    assert_eq!(Either::<u8, u8>::right(9), Either::<u8, u8>::right(9));
    assert_ne!(Either::<u8, u8>::right(9), Either::<u8, u8>::right(8));
}

#[test]
fn different_variants_are_never_equal() {
    assert_ne!(Either::<u8, u8>::left(3), Either::<u8, u8>::right(3));
    assert_ne!(Either::<u8, u8>::right(0), Either::<u8, u8>::left(0));
}
