//! What the explorer writes: from the text of a row to register words.

use crate::bytes::{big_endian, bytes_word};
use crate::registers::{register_word_count, word_count, DataType, RegisterConfig};
use crate::text::{integer_of, lowered, parse_integer, same_text, to_lower, trim, trimmed};
use crate::words::{u32_to_words, u64_to_words, words_of_u32, words_of_u64};
use vstd::prelude::*;
use vstd::utf8::encode_utf8;

verus! {

broadcast use vstd::string::group_string_axioms;

/// Why a text cannot be written to a row.
#[derive(Debug, Clone, Copy, PartialEq, Eq, Structural)]
pub enum EncodeError {
    ExpectedU16,
    ExpectedI16,
    ExpectedBool,
    ExpectedU32,
    ExpectedI32,
    ExpectedU64,
    ExpectedF32,
    ExpectedF64,
}

/// What an encoding error says.
pub open spec fn encode_error_text(error: EncodeError) -> Seq<char> {
    match error {
        EncodeError::ExpectedU16 => "Expected u16"@,
        EncodeError::ExpectedI16 => "Expected i16"@,
        EncodeError::ExpectedBool => "Expected bool: true/false/1/0/on/off"@,
        EncodeError::ExpectedU32 => "Expected u32"@,
        EncodeError::ExpectedI32 => "Expected i32"@,
        EncodeError::ExpectedU64 => "Expected u64"@,
        EncodeError::ExpectedF32 => "Expected f32"@,
        EncodeError::ExpectedF64 => "Expected f64"@,
    }
}

impl EncodeError {
    /// What the error says.
    pub fn message(&self) -> (text: String)
        ensures
            text@ == encode_error_text(*self),
    {
        match self {
            EncodeError::ExpectedU16 => "Expected u16".to_owned(),
            EncodeError::ExpectedI16 => "Expected i16".to_owned(),
            EncodeError::ExpectedBool => "Expected bool: true/false/1/0/on/off".to_owned(),
            EncodeError::ExpectedU32 => "Expected u32".to_owned(),
            EncodeError::ExpectedI32 => "Expected i32".to_owned(),
            EncodeError::ExpectedU64 => "Expected u64".to_owned(),
            EncodeError::ExpectedF32 => "Expected f32".to_owned(),
            EncodeError::ExpectedF64 => "Expected f64".to_owned(),
        }
    }
}

/// The floating-point numbers that a trimmed text denotes, as bit patterns.
#[derive(Debug, Clone, Copy, PartialEq, Eq, Structural)]
pub struct FloatText {
    /// The single-precision number, if the text denotes one.
    pub single: Option<u32>,
    /// The double-precision number, if the text denotes one.
    pub double: Option<u64>,
}

/// The truth value that a text denotes, in any ASCII case.
pub open spec fn bool_of(s: Seq<char>) -> Option<bool> {
    let low = lowered(s);
    if low == "1"@ || low == "true"@ || low == "on"@ {
        Some(true)
    } else if low == "0"@ || low == "false"@ || low == "off"@ {
        Some(false)
    } else {
        None
    }
}

/// Byte `i` of a text in UTF-8, or zero behind its end.
pub open spec fn padded_byte(bytes: Seq<u8>, i: int) -> u8 {
    if i < bytes.len() {
        bytes[i]
    } else {
        0
    }
}

/// `count` words that hold the bytes, cut or filled up with zeros.
pub open spec fn words_of_bytes(bytes: Seq<u8>, count: nat) -> Seq<u16> {
    Seq::new(
        count,
        |i: int| big_endian(padded_byte(bytes, 2 * i), padded_byte(bytes, 2 * i + 1)),
    )
}

/// The bit pattern of a two's complement number of 16 bits.
pub open spec fn bits16(n: int) -> u16 {
    if n < 0 {
        (n + 0x1_0000) as u16
    } else {
        n as u16
    }
}

/// The bit pattern of a two's complement number of 32 bits.
pub open spec fn bits32(n: int) -> u32 {
    if n < 0 {
        (n + 0x1_0000_0000) as u32
    } else {
        n as u32
    }
}

/// The words that a text is written as.
pub open spec fn encoded(reg: RegisterConfig, text: Seq<char>, floats: FloatText) -> Result<
    Seq<u16>,
    EncodeError,
> {
    let rest = trimmed(text);
    match reg.data_type {
        DataType::U16 => match integer_of(rest, false, 0, u16::MAX as int) {
            Some(n) => Ok(seq![n as u16]),
            None => Err(EncodeError::ExpectedU16),
        },
        DataType::I16 => match integer_of(rest, true, i16::MIN as int, i16::MAX as int) {
            Some(n) => Ok(seq![bits16(n)]),
            None => Err(EncodeError::ExpectedI16),
        },
        DataType::Bool => match bool_of(rest) {
            Some(b) => Ok(
                seq![
                    if b {
                        1u16
                    } else {
                        0u16
                    },
                ],
            ),
            None => Err(EncodeError::ExpectedBool),
        },
        DataType::U32 => match integer_of(rest, false, 0, u32::MAX as int) {
            Some(n) => Ok(words_of_u32(n as u32, reg.endian)),
            None => Err(EncodeError::ExpectedU32),
        },
        DataType::I32 => match integer_of(rest, true, i32::MIN as int, i32::MAX as int) {
            Some(n) => Ok(words_of_u32(bits32(n), reg.endian)),
            None => Err(EncodeError::ExpectedI32),
        },
        DataType::U64 => match integer_of(rest, false, 0, u64::MAX as int) {
            Some(n) => Ok(words_of_u64(n as u64, reg.endian)),
            None => Err(EncodeError::ExpectedU64),
        },
        DataType::F32 => match floats.single {
            Some(bits) => Ok(words_of_u32(bits, reg.endian)),
            None => Err(EncodeError::ExpectedF32),
        },
        DataType::F64 => match floats.double {
            Some(bits) => Ok(words_of_u64(bits, reg.endian)),
            None => Err(EncodeError::ExpectedF64),
        },
        DataType::String => Ok(words_of_bytes(encode_utf8(text), word_count(reg) as nat)),
    }
}

/// The truth value that a text denotes, in any ASCII case.
pub fn parse_bool(text: &str) -> (value: Option<bool>)
    ensures
        value == bool_of(text@),
{
    let low = to_lower(text);
    let low = low.as_str();
    if same_text(low, "1") || same_text(low, "true") || same_text(low, "on") {
        Some(true)
    } else if same_text(low, "0") || same_text(low, "false") || same_text(low, "off") {
        Some(false)
    } else {
        None
    }
}

/// `count` words that hold the bytes, cut or filled up with zeros.
pub fn bytes_to_words(bytes: &[u8], count: u16) -> (words: Vec<u16>)
    ensures
        words@ == words_of_bytes(bytes@, count as nat),
{
    let mut words: Vec<u16> = Vec::new();
    for i in 0..count
        invariant
            words@ == words_of_bytes(bytes@, i as nat),
    {
        let at: usize = i as usize * 2;
        let high: u8 = if at < bytes.len() {
            bytes[at]
        } else {
            0
        };
        let low: u8 = if at + 1 < bytes.len() {
            bytes[at + 1]
        } else {
            0
        };
        words.push(bytes_word(high, low));
        assert(words@ =~= words_of_bytes(bytes@, (i + 1) as nat));
    }
    words
}

/// Encodes a text for a row. `floats` is what the trimmed text denotes as a
/// floating-point number.
pub fn encode_value(reg: &RegisterConfig, text: &str, floats: FloatText) -> (words: Result<
    Vec<u16>,
    EncodeError,
>)
    ensures
        match words {
            Ok(w) => encoded(*reg, text@, floats) == Ok::<Seq<u16>, EncodeError>(w@),
            Err(e) => encoded(*reg, text@, floats) == Err::<Seq<u16>, EncodeError>(e),
        },
{
    let rest = trim(text);
    match reg.data_type {
        DataType::U16 => match parse_integer(rest, false, 0, u16::MAX as i128) {
            Some(n) => {
                let words: Vec<u16> = vec![n as u16];
                assert(words@ =~= seq![n as u16]);
                Ok(words)
            },
            None => Err(EncodeError::ExpectedU16),
        },
        DataType::I16 => match parse_integer(rest, true, i16::MIN as i128, i16::MAX as i128) {
            Some(n) => {
                let bits: u16 = if n < 0 {
                    (n + 0x1_0000) as u16
                } else {
                    n as u16
                };
                let words: Vec<u16> = vec![bits];
                assert(words@ =~= seq![bits]);
                Ok(words)
            },
            None => Err(EncodeError::ExpectedI16),
        },
        DataType::Bool => match parse_bool(rest) {
            Some(value) => {
                let bit: u16 = if value {
                    1
                } else {
                    0
                };
                let words: Vec<u16> = vec![bit];
                assert(words@ =~= seq![bit]);
                Ok(words)
            },
            None => Err(EncodeError::ExpectedBool),
        },
        DataType::U32 => match parse_integer(rest, false, 0, u32::MAX as i128) {
            Some(n) => Ok(u32_to_words(n as u32, reg.endian)),
            None => Err(EncodeError::ExpectedU32),
        },
        DataType::I32 => match parse_integer(rest, true, i32::MIN as i128, i32::MAX as i128) {
            Some(n) => {
                let bits: u32 = if n < 0 {
                    (n + 0x1_0000_0000) as u32
                } else {
                    n as u32
                };
                Ok(u32_to_words(bits, reg.endian))
            },
            None => Err(EncodeError::ExpectedI32),
        },
        DataType::U64 => match parse_integer(rest, false, 0, u64::MAX as i128) {
            Some(n) => Ok(u64_to_words(n as u64, reg.endian)),
            None => Err(EncodeError::ExpectedU64),
        },
        DataType::F32 => match floats.single {
            Some(bits) => Ok(u32_to_words(bits, reg.endian)),
            None => Err(EncodeError::ExpectedF32),
        },
        DataType::F64 => match floats.double {
            Some(bits) => Ok(u64_to_words(bits, reg.endian)),
            None => Err(EncodeError::ExpectedF64),
        },
        DataType::String => Ok(bytes_to_words(text.as_bytes(), register_word_count(reg))),
    }
}

} // verus!
