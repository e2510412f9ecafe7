use alfen_eve::bytes::{bytes_word, word_bytes};
use alfen_eve::ieee::{fraction_digits, is_greater, is_negligible};
use alfen_eve::words::{
    u32_to_words, u64_to_words, words_to_u32, words_to_u64, DecodeError, Endian,
};

const DOUBLES: [f64; 18] = [
    0.0,
    -0.0,
    1.0,
    -1.0,
    5.0,
    4.999999999999999,
    5.000000000000001,
    -5.0,
    0.000001,
    0.0000009999999,
    -0.000001,
    1e308,
    -1e308,
    5e-324,
    f64::INFINITY,
    f64::NEG_INFINITY,
    f64::NAN,
    f64::MIN_POSITIVE,
];

#[test]
fn doubles_compare_by_their_bits() {
    for a in DOUBLES {
        for b in DOUBLES {
            assert_eq!(is_greater(a.to_bits(), b.to_bits()), a > b, "{a} {b}");
        }
    }
    let negative_nan = f64::from_bits(f64::NAN.to_bits() ^ (1 << 63));
    assert!(!is_greater(1f64.to_bits(), negative_nan.to_bits()));
}

#[test]
fn fractions_decide_the_digits() {
    for a in DOUBLES {
        let digits = if a.abs() < 0.000_001 { 0 } else { 3 };
        assert_eq!(fraction_digits(a.to_bits()), digits, "{a}");
    }
}

#[test]
fn small_differences_are_negligible() {
    for a in [
        0.0f32,
        -0.0,
        0.01,
        -0.01,
        0.009999999,
        -0.009999999,
        0.010000001,
        2.0,
        f32::NAN,
        f32::INFINITY,
        f32::MIN_POSITIVE,
    ] {
        assert_eq!(is_negligible(a.to_bits()), a.abs() < 0.01, "{a}");
    }
}

#[test]
fn words_are_split_high_byte_first() {
    assert_eq!(word_bytes(0x1234), (0x12, 0x34));
    assert_eq!(bytes_word(0x12, 0x34), 0x1234);
    assert_eq!(word_bytes(0xFF00), (0xFF, 0x00));
}

#[test]
fn numbers_are_read_in_each_order() {
    let words = [0x0102, 0x0304, 0x0506, 0x0708];
    assert_eq!(words_to_u32(&words, Endian::Big), Ok(0x0102_0304));
    assert_eq!(words_to_u32(&words, Endian::WordSwap), Ok(0x0304_0102));
    assert_eq!(words_to_u32(&words, Endian::Little), Ok(0x0304_0102));
    assert_eq!(words_to_u64(&words, Endian::Big), Ok(0x0102_0304_0506_0708));
    assert_eq!(words_to_u64(&words, Endian::WordSwap), Ok(0x0708_0506_0304_0102));
    assert_eq!(words_to_u64(&words, Endian::Little), Ok(0x0708_0506_0304_0102));
}

#[test]
fn numbers_are_written_in_each_order() {
    assert_eq!(u32_to_words(0x0102_0304, Endian::Big), vec![0x0102, 0x0304]);
    assert_eq!(u32_to_words(0x0102_0304, Endian::WordSwap), vec![0x0304, 0x0102]);
    assert_eq!(u32_to_words(0x0102_0304, Endian::Little), vec![0x0403, 0x0201]);
    assert_eq!(
        u64_to_words(0x0102_0304_0506_0708, Endian::Big),
        vec![0x0102, 0x0304, 0x0506, 0x0708]
    );
    assert_eq!(
        u64_to_words(0x0102_0304_0506_0708, Endian::WordSwap),
        vec![0x0708, 0x0506, 0x0304, 0x0102]
    );
    assert_eq!(
        u64_to_words(0x0102_0304_0506_0708, Endian::Little),
        vec![0x0807, 0x0605, 0x0403, 0x0201]
    );
}

#[test]
fn too_few_words_are_an_error() {
    assert_eq!(words_to_u32(&[1], Endian::Big), Err(DecodeError::NeedTwoWords));
    assert_eq!(words_to_u32(&[], Endian::Little), Err(DecodeError::NeedTwoWords));
    assert_eq!(words_to_u64(&[1, 2, 3], Endian::Big), Err(DecodeError::NeedFourWords));
    assert_eq!(DecodeError::NeedTwoWords.message(), "Need 2 words for 32-bit value");
    assert_eq!(DecodeError::NeedFourWords.message(), "Need 4 words for 64-bit value");
}

#[test]
fn the_default_order_is_big() {
    assert_eq!(Endian::default(), Endian::Big);
}

#[test]
fn written_numbers_read_back() {
    for v in [0u32, 1, 0x4180_0000, 0xFFFF_0000, u32::MAX] {
        for endian in [Endian::Big, Endian::WordSwap] {
            assert_eq!(words_to_u32(&u32_to_words(v, endian), endian), Ok(v));
        }
    }
    for v in [0u64, 0x4014_0000_0000_0000, u64::MAX - 1] {
        for endian in [Endian::Big, Endian::WordSwap] {
            assert_eq!(words_to_u64(&u64_to_words(v, endian), endian), Ok(v));
        }
    }
    let swapped = words_to_u32(&u32_to_words(0x0102_0304, Endian::Little), Endian::Little);
    assert_eq!(swapped, Ok(0x0201_0403));
}
