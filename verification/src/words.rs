//! Numbers spread over 16-bit registers.

use crate::bytes::{big_endian, bytes_word, high_byte, low_byte, word_bytes};
use vstd::prelude::*;

verus! {

/// How the words of a number follow each other.
#[derive(Debug, Clone, Copy, PartialEq, Eq, Structural)]
pub enum Endian {
    /// Most significant word first.
    Big,
    /// Least significant word first; written words also have their bytes swapped.
    Little,
    /// Least significant word first.
    WordSwap,
}

impl Default for Endian {
    fn default() -> (endian: Self)
        ensures
            endian == Endian::Big,
    {
        Endian::Big
    }
}

/// Too few words for a number.
#[derive(Debug, Clone, Copy, PartialEq, Eq, Structural)]
pub enum DecodeError {
    /// Fewer than two words for a 32-bit value.
    NeedTwoWords,
    /// Fewer than four words for a 64-bit value.
    NeedFourWords,
}

/// What is shown to the user for a decoding error.
pub open spec fn decode_error_text(error: DecodeError) -> Seq<char> {
    match error {
        DecodeError::NeedTwoWords => "Need 2 words for 32-bit value"@,
        DecodeError::NeedFourWords => "Need 4 words for 64-bit value"@,
    }
}

impl DecodeError {
    /// What is shown to the user.
    pub fn message(&self) -> (text: String)
        ensures
            text@ == decode_error_text(*self),
    {
        match self {
            DecodeError::NeedTwoWords => "Need 2 words for 32-bit value".to_owned(),
            DecodeError::NeedFourWords => "Need 4 words for 64-bit value".to_owned(),
        }
    }
}

/// The word with its bytes swapped.
pub open spec fn swapped(word: u16) -> u16 {
    big_endian(low_byte(word), high_byte(word))
}

/// The 32-bit value of two words.
pub open spec fn join32(high: u16, low: u16) -> u32 {
    (high * 0x1_0000 + low) as u32
}

/// The 64-bit value of four words, most significant first.
pub open spec fn join64(w3: u16, w2: u16, w1: u16, w0: u16) -> u64 {
    (w3 * 0x1_0000_0000_0000 + w2 * 0x1_0000_0000 + w1 * 0x1_0000 + w0) as u64
}

/// Word `i` of a number, counted from the least significant one.
pub open spec fn word_of(value: u64, i: nat) -> u16 {
    if i == 0 {
        (value % 0x1_0000) as u16
    } else if i == 1 {
        (value / 0x1_0000 % 0x1_0000) as u16
    } else if i == 2 {
        (value / 0x1_0000_0000 % 0x1_0000) as u16
    } else {
        (value / 0x1_0000_0000_0000) as u16
    }
}

/// The value of the first two words.
pub open spec fn u32_of_words(words: Seq<u16>, endian: Endian) -> u32 {
    match endian {
        Endian::Big => join32(words[0], words[1]),
        Endian::Little | Endian::WordSwap => join32(words[1], words[0]),
    }
}

/// The value of the first four words.
pub open spec fn u64_of_words(words: Seq<u16>, endian: Endian) -> u64 {
    match endian {
        Endian::Big => join64(words[0], words[1], words[2], words[3]),
        Endian::Little | Endian::WordSwap => join64(words[3], words[2], words[1], words[0]),
    }
}

/// The words that a 32-bit value is written as.
pub open spec fn words_of_u32(value: u32, endian: Endian) -> Seq<u16> {
    let high = word_of(value as u64, 1);
    let low = word_of(value as u64, 0);
    match endian {
        Endian::Big => seq![high, low],
        Endian::WordSwap => seq![low, high],
        Endian::Little => seq![swapped(low), swapped(high)],
    }
}

/// The words that a 64-bit value is written as.
pub open spec fn words_of_u64(value: u64, endian: Endian) -> Seq<u16> {
    let w3 = word_of(value, 3);
    let w2 = word_of(value, 2);
    let w1 = word_of(value, 1);
    let w0 = word_of(value, 0);
    match endian {
        Endian::Big => seq![w3, w2, w1, w0],
        Endian::WordSwap => seq![w0, w1, w2, w3],
        Endian::Little => seq![swapped(w0), swapped(w1), swapped(w2), swapped(w3)],
    }
}

/// Reads a 32-bit value from the first two words.
pub fn words_to_u32(words: &[u16], endian: Endian) -> (value: Result<u32, DecodeError>)
    ensures
        value == (if words@.len() < 2 {
            Err(DecodeError::NeedTwoWords)
        } else {
            Ok::<u32, DecodeError>(u32_of_words(words@, endian))
        }),
{
    if words.len() < 2 {
        return Err(DecodeError::NeedTwoWords);
    }
    let (first, second) = (words[0], words[1]);
    let value: u32 = match endian {
        Endian::Big => first as u32 * 0x1_0000 + second as u32,
        Endian::Little | Endian::WordSwap => second as u32 * 0x1_0000 + first as u32,
    };
    Ok(value)
}

/// Reads a 64-bit value from the first four words.
pub fn words_to_u64(words: &[u16], endian: Endian) -> (value: Result<u64, DecodeError>)
    ensures
        value == (if words@.len() < 4 {
            Err(DecodeError::NeedFourWords)
        } else {
            Ok::<u64, DecodeError>(u64_of_words(words@, endian))
        }),
{
    if words.len() < 4 {
        return Err(DecodeError::NeedFourWords);
    }
    let (w3, w2, w1, w0) = match endian {
        Endian::Big => (words[0], words[1], words[2], words[3]),
        Endian::Little | Endian::WordSwap => (words[3], words[2], words[1], words[0]),
    };
    let value: u64 = w3 as u64 * 0x1_0000_0000_0000 + w2 as u64 * 0x1_0000_0000 + w1 as u64
        * 0x1_0000 + w0 as u64;
    Ok(value)
}

fn swap_bytes(word: u16) -> (other: u16)
    ensures
        other == swapped(word),
{
    let (high, low) = word_bytes(word);
    bytes_word(low, high)
}

/// Writes a 32-bit value as two words.
pub fn u32_to_words(value: u32, endian: Endian) -> (words: Vec<u16>)
    ensures
        words@ == words_of_u32(value, endian),
{
    let high: u16 = (value / 0x1_0000) as u16;
    let low: u16 = (value % 0x1_0000) as u16;
    match endian {
        Endian::Big => vec![high, low],
        Endian::WordSwap => vec![low, high],
        Endian::Little => vec![swap_bytes(low), swap_bytes(high)],
    }
}

/// Writes a 64-bit value as four words.
pub fn u64_to_words(value: u64, endian: Endian) -> (words: Vec<u16>)
    ensures
        words@ == words_of_u64(value, endian),
{
    let w3: u16 = (value / 0x1_0000_0000_0000) as u16;
    let w2: u16 = (value / 0x1_0000_0000 % 0x1_0000) as u16;
    let w1: u16 = (value / 0x1_0000 % 0x1_0000) as u16;
    let w0: u16 = (value % 0x1_0000) as u16;
    match endian {
        Endian::Big => vec![w3, w2, w1, w0],
        Endian::WordSwap => vec![w0, w1, w2, w3],
        Endian::Little => vec![swap_bytes(w0), swap_bytes(w1), swap_bytes(w2), swap_bytes(w3)],
    }
}

/// A 32-bit value with the bytes of each of its words swapped.
pub open spec fn swapped_words32(value: u32) -> u32 {
    join32(swapped(word_of(value as u64, 1)), swapped(word_of(value as u64, 0)))
}

/// A 64-bit value with the bytes of each of its words swapped.
pub open spec fn swapped_words64(value: u64) -> u64 {
    join64(
        swapped(word_of(value, 3)),
        swapped(word_of(value, 2)),
        swapped(word_of(value, 1)),
        swapped(word_of(value, 0)),
    )
}

proof fn lemma_words_of_join64(w3: u16, w2: u16, w1: u16, w0: u16)
    ensures
        word_of(join64(w3, w2, w1, w0), 3) == w3,
        word_of(join64(w3, w2, w1, w0), 2) == w2,
        word_of(join64(w3, w2, w1, w0), 1) == w1,
        word_of(join64(w3, w2, w1, w0), 0) == w0,
{
    let total = w3 * 0x1_0000_0000_0000 + w2 * 0x1_0000_0000 + w1 * 0x1_0000 + w0;
    assert(total / 0x1_0000 == w3 * 0x1_0000_0000 + w2 * 0x1_0000 + w1 && total % 0x1_0000 == w0);
    assert(total / 0x1_0000_0000 == w3 * 0x1_0000 + w2);
    assert(total / 0x1_0000_0000_0000 == w3);
}

/// What is read of a written 32-bit value: the value itself, except that
/// `Endian::Little` swaps the bytes of each word on writing only.
pub proof fn law_u32_read_back(value: u32, endian: Endian)
    ensures
        endian != Endian::Little ==> u32_of_words(words_of_u32(value, endian), endian) == value,
        endian == Endian::Little ==> u32_of_words(words_of_u32(value, endian), endian)
            == swapped_words32(value),
{
}

proof fn lemma_join_words_of64(value: u64)
    ensures
        join64(word_of(value, 3), word_of(value, 2), word_of(value, 1), word_of(value, 0)) == value,
{
    let a = value / 0x1_0000;
    let b = a / 0x1_0000;
    let c = b / 0x1_0000;
    assert(b == value / 0x1_0000_0000);
    assert(c == value / 0x1_0000_0000_0000);
    assert(c == word_of(value, 3));
    assert(b == c * 0x1_0000 + word_of(value, 2));
    assert(a == b * 0x1_0000 + word_of(value, 1));
    assert(value == a * 0x1_0000 + word_of(value, 0));
}

/// What is read of a written 64-bit value: the value itself, except that
/// `Endian::Little` swaps the bytes of each word on writing only.
pub proof fn law_u64_read_back(value: u64, endian: Endian)
    ensures
        endian != Endian::Little ==> u64_of_words(words_of_u64(value, endian), endian) == value,
        endian == Endian::Little ==> u64_of_words(words_of_u64(value, endian), endian)
            == swapped_words64(value),
{
    lemma_join_words_of64(value);
}

/// Writing what was read of two words gives those words back, except that
/// `Endian::Little` swaps the bytes of each.
pub proof fn law_u32_written_back(words: Seq<u16>, endian: Endian)
    requires
        words.len() == 2,
    ensures
        words_of_u32(u32_of_words(words, endian), endian) == (if endian == Endian::Little {
            seq![swapped(words[0]), swapped(words[1])]
        } else {
            words
        }),
{
    assert(words =~= seq![words[0], words[1]]);
}

/// Writing what was read of four words gives those words back, except that
/// `Endian::Little` swaps the bytes of each.
pub proof fn law_u64_written_back(words: Seq<u16>, endian: Endian)
    requires
        words.len() == 4,
    ensures
        words_of_u64(u64_of_words(words, endian), endian) == (if endian == Endian::Little {
            seq![swapped(words[0]), swapped(words[1]), swapped(words[2]), swapped(words[3])]
        } else {
            words
        }),
{
    assert(words =~= seq![words[0], words[1], words[2], words[3]]);
    lemma_words_of_join64(words[0], words[1], words[2], words[3]);
    lemma_words_of_join64(words[3], words[2], words[1], words[0]);
}

} // verus!
