//! What a row reads, shows and writes, told by its type in plain arithmetic.

use crate::encoding::{bool_of, encoded, EncodeError, FloatText};
use crate::registers::{
    bytes_of_words, decoded, first_word, shown_text, unit_of, without_nul, word_count, DataType,
    RawNumber, Reading, ReadingView, RegisterConfig,
};
use crate::text::{decimal, integer_of, lowered, signed_decimal, trimmed};
use crate::word_laws::{
    law_bytes_of_words, law_four_words_of_number, law_two_words_of_number, law_words_of_bytes,
};
use crate::words::{words_of_u32, words_of_u64, DecodeError, Endian};
use vstd::prelude::*;
use vstd::utf8::{decode_utf8, encode_utf8, valid_utf8};

verus! {

/// A row asks its own unit where it names one, and the default one where not.
pub proof fn law_unit(reg: RegisterConfig, default_unit_id: u8)
    ensures
        reg.unit_id is Some ==> unit_of(reg, default_unit_id) == reg.unit_id->0,
        reg.unit_id is None ==> unit_of(reg, default_unit_id) == default_unit_id,
{
}

/// The width of a row in words: by the bits of its type, and for a string as
/// configured, but at least one.
pub proof fn law_width(reg: RegisterConfig)
    ensures
        match reg.data_type {
            DataType::U16 | DataType::I16 | DataType::Bool => word_count(reg) == 1,
            DataType::U32 | DataType::I32 | DataType::F32 => word_count(reg) == 2,
            DataType::U64 | DataType::F64 => word_count(reg) == 4,
            DataType::String => {
                &&& reg.length is None ==> word_count(reg) == 1
                &&& reg.length is Some && reg.length->0 == 0 ==> word_count(reg) == 1
                &&& reg.length is Some && reg.length->0 > 0 ==> word_count(reg) == reg.length->0
            },
        },
{
}

/// A number of more than one word does not decode from fewer words than it is
/// wide; every other row decodes from any words.
pub proof fn law_too_few_words(reg: RegisterConfig, words: Seq<u16>)
    ensures
        match reg.data_type {
            DataType::U32 | DataType::I32 | DataType::F32 => words.len() < 2 <==> decoded(
                reg,
                words,
            ) == Err::<ReadingView, DecodeError>(DecodeError::NeedTwoWords),
            DataType::U64 | DataType::F64 => words.len() < 4 <==> decoded(reg, words) == Err::<
                ReadingView,
                DecodeError,
            >(DecodeError::NeedFourWords),
            _ => true,
        },
        decoded(reg, words) is Err ==> words.len() < word_count(reg),
{
}

/// Whether the words of a row make up `value`, most significant word first with
/// `Endian::Big` and last with the other two. Missing words of a one-word row
/// count as zero.
pub open spec fn make_up(reg: RegisterConfig, words: Seq<u16>, value: int) -> bool {
    match reg.data_type {
        DataType::U16 | DataType::I16 | DataType::Bool => if words.len() > 0 {
            value == words[0]
        } else {
            value == 0
        },
        DataType::U32 | DataType::I32 | DataType::F32 => words.len() >= 2 && value == (if reg.endian
            == Endian::Big {
            words[0] * 0x1_0000 + words[1]
        } else {
            words[1] * 0x1_0000 + words[0]
        }),
        DataType::U64 | DataType::F64 => words.len() >= 4 && value == (if reg.endian
            == Endian::Big {
            words[0] * 0x1_0000_0000_0000 + words[1] * 0x1_0000_0000 + words[2] * 0x1_0000
                + words[3]
        } else {
            words[3] * 0x1_0000_0000_0000 + words[2] * 0x1_0000_0000 + words[1] * 0x1_0000
                + words[0]
        }),
        DataType::String => false,
    }
}

/// The first word is zero where there are none.
pub proof fn law_first_word(words: Seq<u16>)
    ensures
        words.len() > 0 ==> first_word(words) == words[0],
        words.len() == 0 ==> first_word(words) == 0,
{
}

/// A row of an unsigned type shows the number that its words make up: in
/// decimal where no scale is set and a double holds it, else to be scaled by
/// the scale of the row.
pub proof fn law_unsigned_shown(reg: RegisterConfig, words: Seq<u16>, value: int)
    requires
        reg.data_type == DataType::U16 || reg.data_type == DataType::U32 || reg.data_type
            == DataType::U64,
        make_up(reg, words, value),
    ensures
        reg.scale is None && value <= 0x20_0000_0000_0000 ==> decoded(reg, words) == Ok::<
            ReadingView,
            DecodeError,
        >(ReadingView::Text(decimal(value as nat))),
        reg.scale is Some || value > 0x20_0000_0000_0000 ==> decoded(reg, words) == Ok::<
            ReadingView,
            DecodeError,
        >(ReadingView::Number { raw: RawNumber::Unsigned(value as u64), scale: reg.scale }),
{
}

/// A row of a signed type shows the number in its range that differs from what
/// its words make up by nothing or by the whole range.
pub proof fn law_signed_shown(reg: RegisterConfig, words: Seq<u16>, pattern: int, value: int)
    requires
        make_up(reg, words, pattern),
        match reg.data_type {
            DataType::I16 => -0x8000 <= value < 0x8000 && (value == pattern || value == pattern
                - 0x1_0000),
            DataType::I32 => -0x8000_0000 <= value < 0x8000_0000 && (value == pattern || value
                == pattern - 0x1_0000_0000),
            _ => false,
        },
    ensures
        reg.scale is None ==> decoded(reg, words) == Ok::<ReadingView, DecodeError>(
            ReadingView::Text(signed_decimal(value)),
        ),
        reg.scale is Some ==> decoded(reg, words) == Ok::<ReadingView, DecodeError>(
            ReadingView::Number { raw: RawNumber::Signed(value as i64), scale: reg.scale },
        ),
{
}

/// A row of a floating-point type hands out the pattern that its words make up,
/// with the scale of the row.
pub proof fn law_float_shown(reg: RegisterConfig, words: Seq<u16>, pattern: int)
    requires
        reg.data_type == DataType::F32 || reg.data_type == DataType::F64,
        make_up(reg, words, pattern),
    ensures
        reg.data_type == DataType::F32 ==> decoded(reg, words) == Ok::<ReadingView, DecodeError>(
            ReadingView::Number { raw: RawNumber::Single(pattern as u32), scale: reg.scale },
        ),
        reg.data_type == DataType::F64 ==> decoded(reg, words) == Ok::<ReadingView, DecodeError>(
            ReadingView::Number { raw: RawNumber::Double(pattern as u64), scale: reg.scale },
        ),
{
}

/// A truth value is false exactly where its word is zero, or missing.
pub proof fn law_bool_shown(reg: RegisterConfig, words: Seq<u16>)
    requires
        reg.data_type == DataType::Bool,
    ensures
        words.len() == 0 || words[0] == 0 ==> decoded(reg, words) == Ok::<ReadingView, DecodeError>(
            ReadingView::Text("false"@),
        ),
        words.len() > 0 && words[0] != 0 ==> decoded(reg, words) == Ok::<ReadingView, DecodeError>(
            ReadingView::Text("true"@),
        ),
{
}

proof fn lemma_without_nul_is_filter(s: Seq<char>)
    ensures
        without_nul(s) == s.filter(|c: char| c != '\0'),
    decreases s.len(),
{
    reveal(Seq::filter);
    if s.len() > 0 {
        lemma_without_nul_is_filter(s.drop_last());
    }
}

/// What is shown of a text has no NUL characters and no white space at its
/// ends, and is a blank where nothing is left.
pub proof fn law_text_shown(s: Seq<char>)
    ensures
        ({
            let rest = trimmed(s.filter(|c: char| c != '\0'));
            &&& rest.len() > 0 ==> shown_text(s) == rest
            &&& rest.len() == 0 ==> shown_text(s) == seq![' ']
        }),
{
    lemma_without_nul_is_filter(s);
}

/// A string row shows the text whose bytes its words hold, without NUL
/// characters and white space at the ends, and a blank in place of nothing.
pub proof fn law_string_shown(reg: RegisterConfig, words: Seq<u16>, bytes: Seq<u8>)
    requires
        reg.data_type == DataType::String,
        bytes.len() == 2 * words.len(),
        forall|i: int|
            0 <= i < words.len() ==> bytes[2 * i] * 256 + bytes[2 * i + 1] == #[trigger] words[i],
        valid_utf8(bytes),
    ensures
        ({
            let shown = trimmed(decode_utf8(bytes).filter(|c: char| c != '\0'));
            decoded(reg, words) == Ok::<ReadingView, DecodeError>(
                ReadingView::Text(
                    if shown.len() > 0 {
                        shown
                    } else {
                        seq![' ']
                    },
                ),
            )
        }),
{
    law_bytes_of_words(words);
    let own = bytes_of_words(words);
    assert forall|k: int| 0 <= k < own.len() implies own[k] == bytes[k] by {
        let i = k / 2;
        assert(own[2 * i] * 256 + own[2 * i + 1] == words[i]);
        assert(bytes[2 * i] * 256 + bytes[2 * i + 1] == words[i]);
        assert(k == 2 * i || k == 2 * i + 1);
    }
    assert(own =~= bytes);
    lemma_without_nul_is_filter(decode_utf8(bytes));
}

/// Whether words that are written for a row make up `value`: as they are read,
/// except that with `Endian::Little` the bytes of each word of a longer number
/// are the other way round.
pub open spec fn written_up(reg: RegisterConfig, words: Seq<u16>, value: int) -> bool {
    &&& words.len() == word_count(reg)
    &&& if reg.endian == Endian::Little && words.len() > 1 {
        make_up(
            reg,
            Seq::new(words.len(), |i: int| (words[i] % 256 * 256 + words[i] / 256) as u16),
            value,
        )
    } else {
        make_up(reg, words, value)
    }
}

proof fn lemma_two_words_written(reg: RegisterConfig, value: u32)
    requires
        reg.data_type == DataType::U32 || reg.data_type == DataType::I32 || reg.data_type
            == DataType::F32,
    ensures
        written_up(reg, words_of_u32(value, reg.endian), value as int),
{
    law_two_words_of_number(value, reg.endian);
    let w = words_of_u32(value, reg.endian);
    let turned = Seq::new(w.len(), |i: int| (w[i] % 256 * 256 + w[i] / 256) as u16);
    assert(turned[0] == w[0] as int % 256 * 256 + w[0] as int / 256);
    assert(turned[1] == w[1] as int % 256 * 256 + w[1] as int / 256);
}

proof fn lemma_four_words_written(reg: RegisterConfig, value: u64)
    requires
        reg.data_type == DataType::U64 || reg.data_type == DataType::F64,
    ensures
        written_up(reg, words_of_u64(value, reg.endian), value as int),
{
    law_four_words_of_number(value, reg.endian);
    let w = words_of_u64(value, reg.endian);
    let turned = Seq::new(w.len(), |i: int| (w[i] % 256 * 256 + w[i] / 256) as u16);
    assert(turned[0] == w[0] as int % 256 * 256 + w[0] as int / 256);
    assert(turned[1] == w[1] as int % 256 * 256 + w[1] as int / 256);
    assert(turned[2] == w[2] as int % 256 * 256 + w[2] as int / 256);
    assert(turned[3] == w[3] as int % 256 * 256 + w[3] as int / 256);
}

/// A text for a row of an unsigned type is accepted exactly where it denotes
/// an integer of the type, and the words that are written make that integer up.
pub proof fn law_unsigned_written(reg: RegisterConfig, text: Seq<char>, floats: FloatText)
    requires
        reg.data_type == DataType::U16 || reg.data_type == DataType::U32 || reg.data_type
            == DataType::U64,
    ensures
        ({
            let max: int = match reg.data_type {
                DataType::U16 => 0xFFFF,
                DataType::U32 => 0xFFFF_FFFF,
                _ => 0xFFFF_FFFF_FFFF_FFFF,
            };
            match integer_of(trimmed(text), false, 0, max) {
                Some(n) => encoded(reg, text, floats) matches Ok(words) && written_up(
                    reg,
                    words,
                    n,
                ),
                None => encoded(reg, text, floats) == Err::<Seq<u16>, EncodeError>(
                    match reg.data_type {
                        DataType::U16 => EncodeError::ExpectedU16,
                        DataType::U32 => EncodeError::ExpectedU32,
                        _ => EncodeError::ExpectedU64,
                    },
                ),
            }
        }),
{
    let rest = trimmed(text);
    if reg.data_type == DataType::U32 {
        if let Some(n) = integer_of(rest, false, 0, 0xFFFF_FFFF) {
            lemma_two_words_written(reg, n as u32);
        }
    }
    if reg.data_type == DataType::U64 {
        if let Some(n) = integer_of(rest, false, 0, 0xFFFF_FFFF_FFFF_FFFF) {
            lemma_four_words_written(reg, n as u64);
        }
    }
}

/// A text for a row of a signed type is accepted exactly where it denotes an
/// integer of the type, and the words that are written make up that integer, or
/// it and the whole range where it is negative.
pub proof fn law_signed_written(reg: RegisterConfig, text: Seq<char>, floats: FloatText)
    requires
        reg.data_type == DataType::I16 || reg.data_type == DataType::I32,
    ensures
        ({
            let range: int = if reg.data_type == DataType::I16 {
                0x1_0000
            } else {
                0x1_0000_0000
            };
            match integer_of(trimmed(text), true, -range / 2, range / 2 - 1) {
                Some(n) => encoded(reg, text, floats) matches Ok(words) && written_up(
                    reg,
                    words,
                    if n < 0 {
                        n + range
                    } else {
                        n
                    },
                ),
                None => encoded(reg, text, floats) == Err::<Seq<u16>, EncodeError>(
                    if reg.data_type == DataType::I16 {
                        EncodeError::ExpectedI16
                    } else {
                        EncodeError::ExpectedI32
                    },
                ),
            }
        }),
{
    let rest = trimmed(text);
    if reg.data_type == DataType::I32 {
        if let Some(n) = integer_of(rest, true, -0x8000_0000, 0x7FFF_FFFF) {
            let bits = if n < 0 {
                n + 0x1_0000_0000
            } else {
                n
            };
            lemma_two_words_written(reg, bits as u32);
        }
    }
}

/// A text for a row of a floating-point type is accepted exactly where it
/// denotes a number of the type, and the words that are written make up the
/// pattern of that number.
pub proof fn law_float_written(reg: RegisterConfig, text: Seq<char>, floats: FloatText)
    ensures
        reg.data_type == DataType::F32 ==> match floats.single {
            Some(bits) => encoded(reg, text, floats) matches Ok(words) && written_up(
                reg,
                words,
                bits as int,
            ),
            None => encoded(reg, text, floats) == Err::<Seq<u16>, EncodeError>(
                EncodeError::ExpectedF32,
            ),
        },
        reg.data_type == DataType::F64 ==> match floats.double {
            Some(bits) => encoded(reg, text, floats) matches Ok(words) && written_up(
                reg,
                words,
                bits as int,
            ),
            None => encoded(reg, text, floats) == Err::<Seq<u16>, EncodeError>(
                EncodeError::ExpectedF64,
            ),
        },
{
    if reg.data_type == DataType::F32 && floats.single is Some {
        lemma_two_words_written(reg, floats.single->0);
    }
    if reg.data_type == DataType::F64 && floats.double is Some {
        lemma_four_words_written(reg, floats.double->0);
    }
}

/// The words for a truth value, in any letter case.
pub proof fn law_truth_words(s: Seq<char>)
    ensures
        ({
            let low = lowered(s);
            let yes = low == "1"@ || low == "true"@ || low == "on"@;
            let no = low == "0"@ || low == "false"@ || low == "off"@;
            &&& bool_of(s) == Some(true) <==> yes
            &&& bool_of(s) == Some(false) <==> no && !yes
        }),
{
}

/// A truth value is written as one for `1`, `true` and `on`, as zero for `0`,
/// `false` and `off`, in any letter case, and refused for anything else.
pub proof fn law_bool_written(reg: RegisterConfig, text: Seq<char>, floats: FloatText)
    requires
        reg.data_type == DataType::Bool,
    ensures
        ({
            let s = lowered(trimmed(text));
            let yes = s == "1"@ || s == "true"@ || s == "on"@;
            let no = s == "0"@ || s == "false"@ || s == "off"@;
            &&& yes ==> encoded(reg, text, floats) == Ok::<Seq<u16>, EncodeError>(seq![1u16])
            &&& no ==> encoded(reg, text, floats) == Ok::<Seq<u16>, EncodeError>(seq![0u16])
            &&& !yes && !no ==> encoded(reg, text, floats) == Err::<Seq<u16>, EncodeError>(
                EncodeError::ExpectedBool,
            )
        }),
{
    reveal_strlit("1");
    reveal_strlit("true");
    reveal_strlit("on");
    reveal_strlit("0");
    reveal_strlit("false");
    reveal_strlit("off");
    let s = lowered(trimmed(text));
    if s == "0"@ {
        assert(s[0] == '0');
    }
    if s == "false"@ {
        assert(s.len() == 5);
    }
    if s == "off"@ {
        assert(s.len() == 3);
    }
    assert(bool_of(trimmed(text)) == Some(true) ==> s != "0"@);
}

/// A text for a string row is always accepted; its bytes fill the words of the
/// row, high byte first, cut at their end and filled up with zeros. White space
/// at its ends is kept.
pub proof fn law_string_written(reg: RegisterConfig, text: Seq<char>, floats: FloatText)
    requires
        reg.data_type == DataType::String,
    ensures
        ({
            let bytes = encode_utf8(text);
            let count = word_count(reg) as int;
            encoded(reg, text, floats) matches Ok(words) && words.len() == count && (forall|i: int|
                0 <= i < count ==> (#[trigger] words[i]) == (if 2 * i < bytes.len() {
                    bytes[2 * i] * 256
                } else {
                    0
                }) + (if 2 * i + 1 < bytes.len() {
                    bytes[2 * i + 1] as int
                } else {
                    0
                }))
        }),
{
    law_words_of_bytes(encode_utf8(text), word_count(reg) as nat);
}

/// A reading is seen as it is: a text by its characters, a number by its
/// pattern and scale.
pub proof fn law_reading_seen(reading: Reading)
    ensures
        match reading {
            Reading::Text(text) => reading@ == ReadingView::Text(text@),
            Reading::Number { raw, scale } => reading@ == (ReadingView::Number { raw, scale }),
        },
{
}

} // verus!
