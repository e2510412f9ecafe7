use alfen_eve::encoding::{bytes_to_words, encode_value, parse_bool, EncodeError, FloatText};
use alfen_eve::registers::{
    decode_value, effective_unit_id, register_word_count, string_value, words_to_bytes, DataType,
    RawNumber, Reading, RegisterConfig, RegisterType,
};
use alfen_eve::words::{DecodeError, Endian};

fn row(data_type: DataType) -> RegisterConfig {
    RegisterConfig {
        name: "Row".to_string(),
        address: 300,
        unit_id: None,
        unit: None,
        writable: true,
        scale: None,
        length: None,
        register_type: RegisterType::Holding,
        data_type,
        endian: Endian::Big,
    }
}

fn floats(text: &str) -> FloatText {
    FloatText {
        single: text.trim().parse::<f32>().ok().map(f32::to_bits),
        double: text.trim().parse::<f64>().ok().map(f64::to_bits),
    }
}

fn encode(reg: &RegisterConfig, text: &str) -> Result<Vec<u16>, EncodeError> {
    encode_value(reg, text, floats(text))
}

fn text(s: &str) -> Result<Reading, DecodeError> {
    Ok(Reading::Text(s.to_string()))
}

const ALL_TYPES: [DataType; 9] = [
    DataType::U16,
    DataType::I16,
    DataType::U32,
    DataType::I32,
    DataType::U64,
    DataType::F32,
    DataType::F64,
    DataType::Bool,
    DataType::String,
];

#[test]
fn word_counts_follow_the_type() {
    let counts = [1, 1, 2, 2, 4, 2, 4, 1, 1];
    for (data_type, count) in ALL_TYPES.into_iter().zip(counts) {
        assert_eq!(register_word_count(&row(data_type)), count);
    }
    let mut reg = row(DataType::String);
    reg.length = Some(8);
    assert_eq!(register_word_count(&reg), 8);
    reg.length = Some(0);
    assert_eq!(register_word_count(&reg), 1);
    reg.data_type = DataType::U32;
    reg.length = Some(8);
    assert_eq!(register_word_count(&reg), 2);
}

#[test]
fn a_row_may_name_its_own_unit() {
    let mut reg = row(DataType::U16);
    assert_eq!(effective_unit_id(&reg, 200), 200);
    reg.unit_id = Some(1);
    assert_eq!(effective_unit_id(&reg, 200), 1);
}

#[test]
fn the_default_table_holds_holding_registers() {
    assert_eq!(RegisterType::default(), RegisterType::Holding);
}

#[test]
fn integers_are_shown_in_decimal() {
    assert_eq!(decode_value(&row(DataType::U16), &[65535]), text("65535"));
    assert_eq!(decode_value(&row(DataType::U16), &[]), text("0"));
    assert_eq!(decode_value(&row(DataType::I16), &[65535]), text("-1"));
    assert_eq!(decode_value(&row(DataType::I16), &[0x8000]), text("-32768"));
    assert_eq!(decode_value(&row(DataType::I16), &[0x7FFF, 9]), text("32767"));
    assert_eq!(decode_value(&row(DataType::U32), &[1, 2]), text("65538"));
    assert_eq!(decode_value(&row(DataType::I32), &[0xFFFF, 0xFFFE]), text("-2"));
    assert_eq!(decode_value(&row(DataType::I32), &[0x8000, 0]), text("-2147483648"));
    assert_eq!(decode_value(&row(DataType::U64), &[0, 1, 0, 0]), text("4294967296"));
}

#[test]
fn large_integers_are_left_to_the_doubles() {
    let top = 1u64 << 53;
    let words = |v: u64| [(v >> 48) as u16, (v >> 32) as u16, (v >> 16) as u16, v as u16];
    assert_eq!(decode_value(&row(DataType::U64), &words(top)), text("9007199254740992"));
    assert_eq!(
        decode_value(&row(DataType::U64), &words(top + 1)),
        Ok(Reading::Number { raw: RawNumber::Unsigned(top + 1), scale: None })
    );
}

#[test]
fn a_scale_is_handed_on() {
    let scale = Some(0.1f64.to_bits());
    let mut reg = row(DataType::U16);
    reg.scale = scale;
    assert_eq!(
        decode_value(&reg, &[123]),
        Ok(Reading::Number { raw: RawNumber::Unsigned(123), scale })
    );
    reg.data_type = DataType::I16;
    assert_eq!(
        decode_value(&reg, &[65535]),
        Ok(Reading::Number { raw: RawNumber::Signed(-1), scale })
    );
}

#[test]
fn floating_point_rows_keep_their_bits() {
    let reading = decode_value(&row(DataType::F32), &[0x4180, 0x0000]);
    assert_eq!(
        reading,
        Ok(Reading::Number { raw: RawNumber::Single(16f32.to_bits()), scale: None })
    );
    let reading = decode_value(&row(DataType::F64), &[0x4014, 0, 0, 0]);
    assert_eq!(
        reading,
        Ok(Reading::Number { raw: RawNumber::Double(5f64.to_bits()), scale: None })
    );
}

#[test]
fn booleans_are_shown_as_words() {
    assert_eq!(decode_value(&row(DataType::Bool), &[0]), text("false"));
    assert_eq!(decode_value(&row(DataType::Bool), &[2]), text("true"));
    assert_eq!(decode_value(&row(DataType::Bool), &[]), text("false"));
}

#[test]
fn strings_lose_nul_and_margins() {
    let reg = row(DataType::String);
    assert_eq!(decode_value(&reg, &[0x414C, 0x4600]), text("ALF"));
    assert_eq!(decode_value(&reg, &[0x2041, 0x0020]), text("A"));
    assert_eq!(decode_value(&reg, &[0, 0]), text(" "));
    assert_eq!(decode_value(&reg, &[]), text(" "));
    assert_eq!(decode_value(&reg, &[0xC3A9]), text("é"));
    assert_eq!(decode_value(&reg, &[0xFF41]), text("\u{FFFD}A"));
    assert_eq!(string_value("\0 x\0y \0"), "x\0y".replace('\0', ""));
}

#[test]
fn decoding_needs_enough_words() {
    for data_type in [DataType::U32, DataType::I32, DataType::F32] {
        assert_eq!(decode_value(&row(data_type), &[1]), Err(DecodeError::NeedTwoWords));
    }
    for data_type in [DataType::U64, DataType::F64] {
        assert_eq!(decode_value(&row(data_type), &[1, 2, 3]), Err(DecodeError::NeedFourWords));
    }
}

#[test]
fn words_become_bytes_and_back() {
    assert_eq!(words_to_bytes(&[0x1234, 0x5600]), vec![0x12, 0x34, 0x56, 0x00]);
    assert_eq!(bytes_to_words(&[0x12, 0x34, 0x56], 2), vec![0x1234, 0x5600]);
    assert_eq!(bytes_to_words(&[0x12, 0x34, 0x56], 1), vec![0x1234]);
    assert_eq!(bytes_to_words(&[], 2), vec![0, 0]);
}

#[test]
fn texts_are_encoded_by_type() {
    assert_eq!(encode(&row(DataType::U16), " 65535 "), Ok(vec![65535]));
    assert_eq!(encode(&row(DataType::I16), "-1"), Ok(vec![0xFFFF]));
    assert_eq!(encode(&row(DataType::I16), "+5"), Ok(vec![5]));
    assert_eq!(encode(&row(DataType::U32), "65538"), Ok(vec![1, 2]));
    assert_eq!(encode(&row(DataType::I32), "-2"), Ok(vec![0xFFFF, 0xFFFE]));
    assert_eq!(encode(&row(DataType::U64), "4294967297"), Ok(vec![0, 1, 0, 1]));
    assert_eq!(encode(&row(DataType::F32), "16.0"), Ok(vec![0x4180, 0x0000]));
    assert_eq!(encode(&row(DataType::F64), " 5 "), Ok(vec![0x4014, 0, 0, 0]));
    let mut reg = row(DataType::U32);
    reg.endian = Endian::WordSwap;
    assert_eq!(encode(&reg, "65538"), Ok(vec![2, 1]));
    reg.endian = Endian::Little;
    assert_eq!(encode(&reg, "65538"), Ok(vec![0x0200, 0x0100]));
}

#[test]
fn booleans_are_read_from_words() {
    for s in ["1", "true", "TRUE", "On"] {
        assert_eq!(parse_bool(s), Some(true));
        assert_eq!(encode(&row(DataType::Bool), s), Ok(vec![1]));
    }
    for s in ["0", "false", "False", " OFF "] {
        assert_eq!(encode(&row(DataType::Bool), s), Ok(vec![0]));
    }
    assert_eq!(parse_bool("yes"), None);
    assert_eq!(parse_bool(" on"), None);
}

#[test]
fn strings_are_cut_or_filled() {
    let mut reg = row(DataType::String);
    reg.length = Some(2);
    assert_eq!(encode(&reg, "ABCDE"), Ok(vec![0x4142, 0x4344]));
    assert_eq!(encode(&reg, "A"), Ok(vec![0x4100, 0]));
    assert_eq!(encode(&reg, " A"), Ok(vec![0x2041, 0]));
    assert_eq!(encode(&reg, "é"), Ok(vec![0xC3A9, 0]));
}

#[test]
fn every_type_refuses_what_it_cannot_hold() {
    let cases = [
        (DataType::U16, "65536", EncodeError::ExpectedU16, "Expected u16"),
        (DataType::I16, "32768", EncodeError::ExpectedI16, "Expected i16"),
        (
            DataType::Bool,
            "2",
            EncodeError::ExpectedBool,
            "Expected bool: true/false/1/0/on/off",
        ),
        (DataType::U32, "-1", EncodeError::ExpectedU32, "Expected u32"),
        (DataType::I32, "2147483648", EncodeError::ExpectedI32, "Expected i32"),
        (DataType::U64, "", EncodeError::ExpectedU64, "Expected u64"),
        (DataType::F32, "abc", EncodeError::ExpectedF32, "Expected f32"),
        (DataType::F64, "1,5", EncodeError::ExpectedF64, "Expected f64"),
    ];
    for (data_type, s, error, message) in cases {
        assert_eq!(encode(&row(data_type), s), Err(error));
        assert_eq!(error.message(), message);
    }
}

#[test]
fn what_is_written_is_shown_again() {
    let cases = [
        (DataType::U16, "65535"),
        (DataType::I16, "-32768"),
        (DataType::U32, "4294967295"),
        (DataType::I32, "-2147483648"),
        (DataType::U64, "9007199254740992"),
        (DataType::Bool, "true"),
    ];
    for (data_type, s) in cases {
        for endian in [Endian::Big, Endian::WordSwap] {
            let mut reg = row(data_type);
            reg.endian = endian;
            let words = encode(&reg, s).unwrap();
            assert_eq!(words.len(), register_word_count(&reg) as usize);
            assert_eq!(decode_value(&reg, &words), text(s));
        }
    }
    let mut reg = row(DataType::String);
    reg.length = Some(4);
    let words = encode(&reg, "Eve é").unwrap();
    assert_eq!(decode_value(&reg, &words), text("Eve é"));
}

#[test]
fn little_endian_rows_swap_bytes_on_writing() {
    let mut reg = row(DataType::U32);
    reg.endian = Endian::Little;
    let words = encode(&reg, "1").unwrap();
    assert_eq!(decode_value(&reg, &words), text("256"));
}

#[test]
fn written_rows_always_decode() {
    for data_type in ALL_TYPES {
        let reg = row(data_type);
        let words = encode(&reg, "1").unwrap();
        assert!(decode_value(&reg, &words).is_ok());
    }
}

#[test]
fn floating_point_rows_read_back_bit_for_bit() {
    for endian in [Endian::Big, Endian::WordSwap] {
        let mut reg = row(DataType::F32);
        reg.endian = endian;
        let words = encode(&reg, "-0.1").unwrap();
        let raw = RawNumber::Single((-0.1f32).to_bits());
        assert_eq!(decode_value(&reg, &words), Ok(Reading::Number { raw, scale: None }));
        reg.data_type = DataType::F64;
        let words = encode(&reg, "-0.1").unwrap();
        let raw = RawNumber::Double((-0.1f64).to_bits());
        assert_eq!(decode_value(&reg, &words), Ok(Reading::Number { raw, scale: None }));
    }
}

#[test]
fn a_reading_can_be_copied() {
    let reading = Reading::Number { raw: RawNumber::Signed(-3), scale: Some(7) };
    assert_eq!(reading.duplicate(), reading);
}

#[test]
fn white_space_around_a_number_is_lost() {
    for data_type in ALL_TYPES {
        if data_type != DataType::String {
            let reg = row(data_type);
            assert_eq!(encode(&reg, "\t 1\n"), encode(&reg, "1"));
        }
    }
}
