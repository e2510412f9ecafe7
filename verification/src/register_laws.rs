//! What reading and writing a row have to do with each other.

use crate::bytes::{big_endian, lemma_word_bytes};
use crate::encoding::{
    bits16, bits32, bool_of, encoded, padded_byte, words_of_bytes, FloatText,
};
use crate::registers::{
    bytes_of_words, decoded, integer_reading, shown_text, signed16, signed32,
    without_nul, word_count, DataType, RawNumber, ReadingView, RegisterConfig,
};
use crate::text::{
    lemma_decimal_round_trip, lemma_decimal_trimmed, lemma_stripped_idempotent, signed_decimal,
    trimmed, Margin,
};
use crate::words::{
    law_u32_read_back, law_u64_read_back, swapped_words32, swapped_words64, u32_of_words,
    u64_of_words, words_of_u32, words_of_u64, DecodeError, Endian,
};
use vstd::prelude::*;
use vstd::utf8::{
    encode_utf8, encode_utf8_decode_utf8, encode_utf8_valid_utf8, leading_byte_width_1,
};

verus! {

/// A row is written as many words as it is read as.
pub proof fn law_encoded_length(reg: RegisterConfig, text: Seq<char>, floats: FloatText)
    ensures
        encoded(reg, text, floats) matches Ok(words) ==> words.len() == word_count(reg),
{
}

/// As many words as are asked for always decode.
pub proof fn law_enough_words_decode(reg: RegisterConfig, words: Seq<u16>)
    requires
        words.len() >= word_count(reg),
    ensures
        decoded(reg, words) is Ok,
{
}

/// What is written for a row always reads back without an error.
pub proof fn law_written_row_decodes(reg: RegisterConfig, text: Seq<char>, floats: FloatText)
    ensures
        encoded(reg, text, floats) matches Ok(words) ==> decoded(reg, words) is Ok,
{
    law_encoded_length(reg, text, floats);
    if let Ok(words) = encoded(reg, text, floats) {
        law_enough_words_decode(reg, words);
    }
}

/// White space at the ends of a text makes no difference to what is written,
/// except to a row that holds strings.
pub proof fn law_margins_do_not_matter(reg: RegisterConfig, text: Seq<char>, floats: FloatText)
    requires
        reg.data_type != DataType::String,
    ensures
        encoded(reg, trimmed(text), floats) == encoded(reg, text, floats),
{
    lemma_stripped_idempotent(text, Margin::White);
}

/// The smallest integer that a row of an integer type holds.
pub open spec fn integer_min(data_type: DataType) -> int {
    match data_type {
        DataType::I16 => i16::MIN as int,
        DataType::I32 => i32::MIN as int,
        _ => 0,
    }
}

/// The largest integer that a row of an integer type holds.
pub open spec fn integer_max(data_type: DataType) -> int {
    match data_type {
        DataType::U16 => u16::MAX as int,
        DataType::I16 => i16::MAX as int,
        DataType::U32 => u32::MAX as int,
        DataType::I32 => i32::MAX as int,
        _ => u64::MAX as int,
    }
}

/// Whether a type holds integers.
pub open spec fn holds_integers(data_type: DataType) -> bool {
    match data_type {
        DataType::U16 | DataType::I16 | DataType::U32 | DataType::I32 | DataType::U64 => true,
        _ => false,
    }
}

/// What is read of a written integer: the integer itself, except that
/// `Endian::Little` swaps the bytes of each word of a longer number on writing only.
pub open spec fn read_back(reg: RegisterConfig, n: int) -> int {
    if reg.endian == Endian::Little {
        match reg.data_type {
            DataType::U32 => swapped_words32(n as u32) as int,
            DataType::I32 => signed32(swapped_words32(bits32(n))),
            DataType::U64 => swapped_words64(n as u64) as int,
            _ => n,
        }
    } else {
        n
    }
}

/// An integer as the raw number of a row.
pub open spec fn raw_integer(data_type: DataType, n: int) -> RawNumber {
    if data_type == DataType::I16 || data_type == DataType::I32 {
        RawNumber::Signed(n as i64)
    } else {
        RawNumber::Unsigned(n as u64)
    }
}

/// What an integer that is written to a row reads back as.
pub open spec fn integer_back(reg: RegisterConfig, n: int) -> ReadingView {
    let back = read_back(reg, n);
    integer_reading(back, raw_integer(reg.data_type, back), reg.scale)
}

proof fn lemma_u16_row(reg: RegisterConfig, n: int, floats: FloatText)
    requires
        reg.data_type == DataType::U16,
        integer_min(reg.data_type) <= n <= integer_max(reg.data_type),
    ensures
        encoded(reg, signed_decimal(n), floats) matches Ok(words) && decoded(reg, words) == Ok::<
            ReadingView,
            DecodeError,
        >(integer_back(reg, n)),
{
    lemma_decimal_trimmed(n);
    lemma_decimal_round_trip(n, false, 0, u16::MAX as int);
}

proof fn lemma_i16_row(reg: RegisterConfig, n: int, floats: FloatText)
    requires
        reg.data_type == DataType::I16,
        integer_min(reg.data_type) <= n <= integer_max(reg.data_type),
    ensures
        encoded(reg, signed_decimal(n), floats) matches Ok(words) && decoded(reg, words) == Ok::<
            ReadingView,
            DecodeError,
        >(integer_back(reg, n)),
{
    lemma_decimal_trimmed(n);
    lemma_decimal_round_trip(n, true, i16::MIN as int, i16::MAX as int);
    assert(signed16(bits16(n)) == n);
}

proof fn lemma_u32_row(reg: RegisterConfig, n: int, floats: FloatText)
    requires
        reg.data_type == DataType::U32,
        integer_min(reg.data_type) <= n <= integer_max(reg.data_type),
    ensures
        encoded(reg, signed_decimal(n), floats) matches Ok(words) && decoded(reg, words) == Ok::<
            ReadingView,
            DecodeError,
        >(integer_back(reg, n)),
{
    lemma_decimal_trimmed(n);
    lemma_decimal_round_trip(n, false, 0, u32::MAX as int);
    law_u32_read_back(n as u32, reg.endian);
    assert(u32_of_words(words_of_u32(n as u32, reg.endian), reg.endian) == read_back(reg, n));
}

proof fn lemma_i32_row(reg: RegisterConfig, n: int, floats: FloatText)
    requires
        reg.data_type == DataType::I32,
        integer_min(reg.data_type) <= n <= integer_max(reg.data_type),
    ensures
        encoded(reg, signed_decimal(n), floats) matches Ok(words) && decoded(reg, words) == Ok::<
            ReadingView,
            DecodeError,
        >(integer_back(reg, n)),
{
    lemma_decimal_trimmed(n);
    lemma_decimal_round_trip(n, true, i32::MIN as int, i32::MAX as int);
    law_u32_read_back(bits32(n), reg.endian);
    assert(signed32(u32_of_words(words_of_u32(bits32(n), reg.endian), reg.endian)) == read_back(
        reg,
        n,
    ));
}

proof fn lemma_u64_row(reg: RegisterConfig, n: int, floats: FloatText)
    requires
        reg.data_type == DataType::U64,
        integer_min(reg.data_type) <= n <= integer_max(reg.data_type),
    ensures
        encoded(reg, signed_decimal(n), floats) matches Ok(words) && decoded(reg, words) == Ok::<
            ReadingView,
            DecodeError,
        >(integer_back(reg, n)),
{
    lemma_decimal_trimmed(n);
    lemma_decimal_round_trip(n, false, 0, u64::MAX as int);
    law_u64_read_back(n as u64, reg.endian);
    assert(u64_of_words(words_of_u64(n as u64, reg.endian), reg.endian) == read_back(reg, n));
}

/// An integer that is written in decimal to a row that holds it reads back as
/// the same integer; with `Endian::Little`, with the bytes of its words swapped.
pub proof fn law_integer_row_read_back(reg: RegisterConfig, n: int, floats: FloatText)
    requires
        holds_integers(reg.data_type),
        integer_min(reg.data_type) <= n <= integer_max(reg.data_type),
    ensures
        encoded(reg, signed_decimal(n), floats) matches Ok(words) && decoded(reg, words) == Ok::<
            ReadingView,
            DecodeError,
        >(integer_back(reg, n)),
{
    match reg.data_type {
        DataType::U16 => lemma_u16_row(reg, n, floats),
        DataType::I16 => lemma_i16_row(reg, n, floats),
        DataType::U32 => lemma_u32_row(reg, n, floats),
        DataType::I32 => lemma_i32_row(reg, n, floats),
        _ => lemma_u64_row(reg, n, floats),
    }
}

/// An integer that a row holds is shown as the very text that it was written
/// as, where no scale is set, a double holds it, and the endianness does not
/// change it.
pub proof fn law_integer_text_round_trip(reg: RegisterConfig, n: int, floats: FloatText)
    requires
        holds_integers(reg.data_type),
        integer_min(reg.data_type) <= n <= integer_max(reg.data_type),
        n <= 0x20_0000_0000_0000,
        reg.scale is None,
        read_back(reg, n) == n,
    ensures
        encoded(reg, signed_decimal(n), floats) matches Ok(words) && decoded(reg, words) == Ok::<
            ReadingView,
            DecodeError,
        >(ReadingView::Text(signed_decimal(n))),
{
    law_integer_row_read_back(reg, n, floats);
}

/// A truth value that is written reads back as `true` or `false`.
pub proof fn law_bool_row_round_trip(reg: RegisterConfig, text: Seq<char>, floats: FloatText)
    requires
        reg.data_type == DataType::Bool,
    ensures
        encoded(reg, text, floats) matches Ok(words) ==> decoded(reg, words) == Ok::<
            ReadingView,
            DecodeError,
        >(
            ReadingView::Text(
                if bool_of(trimmed(text)) == Some(true) {
                    "true"@
                } else {
                    "false"@
                },
            ),
        ),
{
}

/// A floating-point number that is written reads back bit for bit; with
/// `Endian::Little`, with the bytes of its words swapped.
pub proof fn law_float_row_read_back(reg: RegisterConfig, text: Seq<char>, floats: FloatText)
    ensures
        reg.data_type == DataType::F32 && floats.single is Some ==> {
            let bits = floats.single->0;
            let raw = RawNumber::Single(
                if reg.endian == Endian::Little {
                    swapped_words32(bits)
                } else {
                    bits
                },
            );
            encoded(reg, text, floats) matches Ok(words) && decoded(reg, words) == Ok::<
                ReadingView,
                DecodeError,
            >(ReadingView::Number { raw, scale: reg.scale })
        },
        reg.data_type == DataType::F64 && floats.double is Some ==> {
            let bits = floats.double->0;
            let raw = RawNumber::Double(
                if reg.endian == Endian::Little {
                    swapped_words64(bits)
                } else {
                    bits
                },
            );
            encoded(reg, text, floats) matches Ok(words) && decoded(reg, words) == Ok::<
                ReadingView,
                DecodeError,
            >(ReadingView::Number { raw, scale: reg.scale })
        },
{
    if let Some(bits) = floats.single {
        law_u32_read_back(bits, reg.endian);
    }
    if let Some(bits) = floats.double {
        law_u64_read_back(bits, reg.endian);
    }
}

proof fn lemma_encode_utf8_push_nul(s: Seq<char>)
    ensures
        encode_utf8(s.push('\0')) == encode_utf8(s).push(0),
    decreases s.len(),
{
    let longer = s.push('\0');
    if s.len() == 0 {
        assert(longer.drop_first() =~= s);
        assert(leading_byte_width_1(0) == 0) by (bit_vector);
        assert(encode_utf8(longer) =~= encode_utf8(s).push(0));
    } else {
        assert(longer.drop_first() =~= s.drop_first().push('\0'));
        lemma_encode_utf8_push_nul(s.drop_first());
        assert(encode_utf8(longer) =~= encode_utf8(s).push(0));
    }
}

/// `count` NUL characters.
pub open spec fn nuls(count: nat) -> Seq<char> {
    Seq::new(count, |i: int| '\0')
}

proof fn lemma_encode_utf8_nuls(s: Seq<char>, count: nat)
    ensures
        encode_utf8(s + nuls(count)) == encode_utf8(s) + Seq::new(count, |i: int| 0u8),
    decreases count,
{
    let zeros = Seq::new(count, |i: int| 0u8);
    if count == 0 {
        assert(s + nuls(count) =~= s);
        assert(encode_utf8(s) + zeros =~= encode_utf8(s));
    } else {
        let fewer = (count - 1) as nat;
        lemma_encode_utf8_nuls(s, fewer);
        lemma_encode_utf8_push_nul(s + nuls(fewer));
        assert(s + nuls(count) =~= (s + nuls(fewer)).push('\0'));
        assert(encode_utf8(s) + zeros =~= (encode_utf8(s) + Seq::new(fewer, |i: int| 0u8)).push(0));
    }
}

proof fn lemma_without_nuls(s: Seq<char>, count: nat)
    ensures
        without_nul(s + nuls(count)) == without_nul(s),
    decreases count,
{
    if count == 0 {
        assert(s + nuls(count) =~= s);
    } else {
        lemma_without_nuls(s, (count - 1) as nat);
        assert((s + nuls(count)).drop_last() =~= s + nuls((count - 1) as nat));
    }
}

/// A text that fits into a string row is shown as what was written, without
/// NUL characters and without white space at its ends.
pub proof fn law_string_row_round_trip(reg: RegisterConfig, text: Seq<char>, floats: FloatText)
    requires
        reg.data_type == DataType::String,
        encode_utf8(text).len() <= 2 * word_count(reg),
    ensures
        encoded(reg, text, floats) matches Ok(words) && decoded(reg, words) == Ok::<
            ReadingView,
            DecodeError,
        >(ReadingView::Text(shown_text(text))),
{
    let bytes = encode_utf8(text);
    let count = word_count(reg) as nat;
    let words = words_of_bytes(bytes, count);
    let gap = (2 * count - bytes.len()) as nat;
    let padded = bytes + Seq::new(gap, |i: int| 0u8);
    assert forall|i: int| 0 <= i < 2 * count implies bytes_of_words(words)[i] == padded[i] by {
        let k = i / 2;
        lemma_word_bytes(0, padded_byte(bytes, 2 * k), padded_byte(bytes, 2 * k + 1));
        assert(words[k] == big_endian(padded_byte(bytes, 2 * k), padded_byte(bytes, 2 * k + 1)));
    }
    assert(bytes_of_words(words) =~= padded);
    lemma_encode_utf8_nuls(text, gap);
    encode_utf8_valid_utf8(text + nuls(gap));
    encode_utf8_decode_utf8(text + nuls(gap));
    lemma_without_nuls(text, gap);
}

} // verus!
