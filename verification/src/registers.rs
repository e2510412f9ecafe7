//! Registers of the explorer: what a row reads, shows and writes.

use crate::bytes::{high_byte, low_byte, text_from_utf8_lossy, utf8_lossy, word_bytes};
use crate::text::{
    chars_of, decimal_text, signed_decimal, signed_decimal_text, trim, trimmed,
};
use crate::words::{
    u32_of_words, u64_of_words, words_to_u32, words_to_u64, DecodeError, Endian,
};
use vstd::prelude::*;

verus! {

broadcast use vstd::string::group_string_axioms;

/// The type of value that a row holds.
#[derive(Debug, Clone, Copy, PartialEq, Eq, Structural)]
pub enum DataType {
    U16,
    I16,
    U32,
    I32,
    U64,
    F32,
    F64,
    Bool,
    String,
}

/// The register table that a row is read from.
#[derive(Debug, Clone, Copy, PartialEq, Eq, Structural)]
pub enum RegisterType {
    Holding,
    Input,
}

impl Default for RegisterType {
    fn default() -> (table: Self)
        ensures
            table == RegisterType::Holding,
    {
        RegisterType::Holding
    }
}

/// One row of the explorer.
#[derive(Debug)]
pub struct RegisterConfig {
    /// The label of the row.
    pub name: String,
    /// The 0-based register address.
    pub address: u16,
    /// The unit that is asked in place of the default one.
    pub unit_id: Option<u8>,
    /// The engineering unit.
    pub unit: Option<String>,
    /// Whether the row can be written.
    pub writable: bool,
    /// The factor applied after decoding, as the bit pattern of a double.
    pub scale: Option<u64>,
    /// The number of words of a string.
    pub length: Option<u16>,
    /// The register table.
    pub register_type: RegisterType,
    /// The type of the value.
    pub data_type: DataType,
    /// The order of the words.
    pub endian: Endian,
}

/// The number of words of a row.
pub open spec fn word_count(reg: RegisterConfig) -> u16 {
    match reg.data_type {
        DataType::U16 | DataType::I16 | DataType::Bool => 1,
        DataType::U32 | DataType::I32 | DataType::F32 => 2,
        DataType::U64 | DataType::F64 => 4,
        DataType::String => match reg.length {
            Some(n) => if n < 1 {
                1
            } else {
                n
            },
            None => 1,
        },
    }
}

/// The number of words of a row: at least one, for a string as many as configured.
pub fn register_word_count(reg: &RegisterConfig) -> (count: u16)
    ensures
        count == word_count(*reg),
{
    match reg.data_type {
        DataType::U16 | DataType::I16 | DataType::Bool => 1,
        DataType::U32 | DataType::I32 | DataType::F32 => 2,
        DataType::U64 | DataType::F64 => 4,
        DataType::String => match reg.length {
            Some(n) => if n < 1 {
                1
            } else {
                n
            },
            None => 1,
        },
    }
}

/// The unit that a row asks.
pub open spec fn unit_of(reg: RegisterConfig, default_unit_id: u8) -> u8 {
    match reg.unit_id {
        Some(id) => id,
        None => default_unit_id,
    }
}

/// The unit that a row asks: its own, or else the default one.
pub fn effective_unit_id(reg: &RegisterConfig, default_unit_id: u8) -> (unit: u8)
    ensures
        unit == unit_of(*reg, default_unit_id),
{
    match reg.unit_id {
        Some(id) => id,
        None => default_unit_id,
    }
}

/// A decoded number, before it is scaled. Floating-point numbers are bit patterns.
#[derive(Debug, Clone, Copy, PartialEq, Eq, Structural)]
pub enum RawNumber {
    Unsigned(u64),
    Signed(i64),
    Single(u32),
    Double(u64),
}

/// A decoded row.
#[derive(Debug, PartialEq, Eq)]
pub enum Reading {
    /// A text to be shown as it is.
    Text(String),
    /// A number to be multiplied by the scale and shown.
    Number { raw: RawNumber, scale: Option<u64> },
}

/// A decoded row, with its text as characters.
pub enum ReadingView {
    Text(Seq<char>),
    Number { raw: RawNumber, scale: Option<u64> },
}

impl View for Reading {
    type V = ReadingView;

    open spec fn view(&self) -> ReadingView {
        match self {
            Reading::Text(text) => ReadingView::Text(text@),
            Reading::Number { raw, scale } => ReadingView::Number { raw: *raw, scale: *scale },
        }
    }
}

impl Reading {
    /// A copy of the reading.
    pub fn duplicate(&self) -> (copy: Self)
        ensures
            copy@ == self@,
    {
        match self {
            Reading::Text(text) => Reading::Text(text.clone()),
            Reading::Number { raw, scale } => Reading::Number { raw: *raw, scale: *scale },
        }
    }
}

/// What an integer reads as. Without a scale, one that a double holds exactly
/// is shown in decimal.
pub open spec fn integer_reading(n: int, raw: RawNumber, scale: Option<u64>) -> ReadingView {
    if scale is None && -0x20_0000_0000_0000 <= n <= 0x20_0000_0000_0000 {
        ReadingView::Text(signed_decimal(n))
    } else {
        ReadingView::Number { raw, scale }
    }
}

/// The first word, or zero where there is none.
pub open spec fn first_word(words: Seq<u16>) -> u16 {
    if words.len() > 0 {
        words[0]
    } else {
        0
    }
}

/// A word as a two's complement number.
pub open spec fn signed16(word: u16) -> int {
    if word < 0x8000 {
        word as int
    } else {
        word - 0x1_0000
    }
}

/// A 32-bit value as a two's complement number.
pub open spec fn signed32(value: u32) -> int {
    if value < 0x8000_0000 {
        value as int
    } else {
        value - 0x1_0000_0000
    }
}

/// The bytes of words, the high byte of each first.
pub open spec fn bytes_of_words(words: Seq<u16>) -> Seq<u8> {
    Seq::new(
        words.len() * 2,
        |i: int|
            if i % 2 == 0 {
                high_byte(words[i / 2])
            } else {
                low_byte(words[i / 2])
            },
    )
}

/// The text without NUL characters.
pub open spec fn without_nul(s: Seq<char>) -> Seq<char>
    decreases s.len(),
{
    if s.len() == 0 {
        s
    } else if s.last() == '\0' {
        without_nul(s.drop_last())
    } else {
        without_nul(s.drop_last()).push(s.last())
    }
}

/// What is shown of a string: no NUL characters, no white space at the ends,
/// and a blank in place of nothing.
pub open spec fn shown_text(s: Seq<char>) -> Seq<char> {
    let rest = trimmed(without_nul(s));
    if rest.len() == 0 {
        seq![' ']
    } else {
        rest
    }
}

/// What the words of a row read as.
pub open spec fn decoded(reg: RegisterConfig, words: Seq<u16>) -> Result<ReadingView, DecodeError> {
    let first = first_word(words);
    match reg.data_type {
        DataType::U16 => Ok(
            integer_reading(first as int, RawNumber::Unsigned(first as u64), reg.scale),
        ),
        DataType::I16 => Ok(
            integer_reading(signed16(first), RawNumber::Signed(signed16(first) as i64), reg.scale),
        ),
        DataType::Bool => Ok(
            ReadingView::Text(
                if first == 0 {
                    "false"@
                } else {
                    "true"@
                },
            ),
        ),
        DataType::String => Ok(ReadingView::Text(shown_text(utf8_lossy(bytes_of_words(words))))),
        DataType::U32 | DataType::I32 | DataType::F32 => if words.len() < 2 {
            Err(DecodeError::NeedTwoWords)
        } else {
            let value = u32_of_words(words, reg.endian);
            Ok(
                match reg.data_type {
                    DataType::U32 => integer_reading(
                        value as int,
                        RawNumber::Unsigned(value as u64),
                        reg.scale,
                    ),
                    DataType::I32 => integer_reading(
                        signed32(value),
                        RawNumber::Signed(signed32(value) as i64),
                        reg.scale,
                    ),
                    _ => ReadingView::Number { raw: RawNumber::Single(value), scale: reg.scale },
                },
            )
        },
        DataType::U64 | DataType::F64 => if words.len() < 4 {
            Err(DecodeError::NeedFourWords)
        } else {
            let value = u64_of_words(words, reg.endian);
            Ok(
                match reg.data_type {
                    DataType::U64 => integer_reading(
                        value as int,
                        RawNumber::Unsigned(value),
                        reg.scale,
                    ),
                    _ => ReadingView::Number { raw: RawNumber::Double(value), scale: reg.scale },
                },
            )
        },
    }
}

/// What is shown of a string that a row holds.
pub fn string_value(text: &str) -> (shown: String)
    ensures
        shown@ == shown_text(text@),
{
    let chars = chars_of(text);
    let mut kept = String::new();
    for i in 0..chars.len()
        invariant
            chars@ == text@,
            kept@ == without_nul(text@.take(i as int)),
    {
        assert(text@.take(i + 1).drop_last() =~= text@.take(i as int));
        if chars[i] != '\0' {
            kept.push(chars[i]);
        }
    }
    assert(text@.take(text@.len() as int) =~= text@);
    let rest = trim(kept.as_str());
    if rest.is_empty() {
        let mut blank = String::new();
        blank.push(' ');
        assert(blank@ =~= seq![' ']);
        blank
    } else {
        rest.to_owned()
    }
}

fn unsigned_reading(value: u64, scale: Option<u64>) -> (reading: Reading)
    ensures
        reading@ == integer_reading(value as int, RawNumber::Unsigned(value), scale),
{
    if scale.is_none() && value <= 0x20_0000_0000_0000 {
        Reading::Text(decimal_text(value))
    } else {
        Reading::Number { raw: RawNumber::Unsigned(value), scale }
    }
}

fn signed_reading(value: i64, scale: Option<u64>) -> (reading: Reading)
    requires
        -0x20_0000_0000_0000 <= value <= 0x20_0000_0000_0000,
    ensures
        reading@ == integer_reading(value as int, RawNumber::Signed(value), scale),
{
    if scale.is_none() {
        Reading::Text(signed_decimal_text(value))
    } else {
        Reading::Number { raw: RawNumber::Signed(value), scale }
    }
}

/// The bytes of words, the high byte of each first.
pub fn words_to_bytes(words: &[u16]) -> (bytes: Vec<u8>)
    ensures
        bytes@ == bytes_of_words(words@),
{
    let mut bytes: Vec<u8> = Vec::new();
    for i in 0..words.len()
        invariant
            bytes@ == bytes_of_words(words@).take(2 * i),
    {
        let (high, low) = word_bytes(words[i]);
        bytes.push(high);
        bytes.push(low);
        assert(bytes@ =~= bytes_of_words(words@).take(2 * (i + 1)));
    }
    bytes
}

/// Decodes the words of a row.
pub fn decode_value(reg: &RegisterConfig, words: &[u16]) -> (reading: Result<Reading, DecodeError>)
    ensures
        match reading {
            Ok(r) => decoded(*reg, words@) == Ok::<ReadingView, DecodeError>(r@),
            Err(e) => decoded(*reg, words@) == Err::<ReadingView, DecodeError>(e),
        },
{
    let first: u16 = if words.len() > 0 {
        words[0]
    } else {
        0
    };
    match reg.data_type {
        DataType::U16 => Ok(unsigned_reading(first as u64, reg.scale)),
        DataType::I16 => {
            let value: i64 = if first < 0x8000 {
                first as i64
            } else {
                first as i64 - 0x1_0000
            };
            Ok(signed_reading(value, reg.scale))
        },
        DataType::Bool => Ok(
            Reading::Text(
                if first == 0 {
                    "false".to_owned()
                } else {
                    "true".to_owned()
                },
            ),
        ),
        DataType::U32 => match words_to_u32(words, reg.endian) {
            Ok(value) => Ok(unsigned_reading(value as u64, reg.scale)),
            Err(e) => Err(e),
        },
        DataType::I32 => match words_to_u32(words, reg.endian) {
            Ok(bits) => {
                let value: i64 = if bits < 0x8000_0000 {
                    bits as i64
                } else {
                    bits as i64 - 0x1_0000_0000
                };
                Ok(signed_reading(value, reg.scale))
            },
            Err(e) => Err(e),
        },
        DataType::U64 => match words_to_u64(words, reg.endian) {
            Ok(value) => Ok(unsigned_reading(value, reg.scale)),
            Err(e) => Err(e),
        },
        DataType::F32 => match words_to_u32(words, reg.endian) {
            Ok(bits) => Ok(Reading::Number { raw: RawNumber::Single(bits), scale: reg.scale }),
            Err(e) => Err(e),
        },
        DataType::F64 => match words_to_u64(words, reg.endian) {
            Ok(bits) => Ok(Reading::Number { raw: RawNumber::Double(bits), scale: reg.scale }),
            Err(e) => Err(e),
        },
        DataType::String => {
            let bytes = words_to_bytes(words);
            let text = text_from_utf8_lossy(bytes.as_slice());
            Ok(Reading::Text(string_value(text.as_str())))
        },
    }
}

} // verus!
