//! Words, bytes and bit patterns, told in plain arithmetic.

use crate::bytes::{big_endian, high_byte, low_byte, utf8_lossy};
use crate::encoding::words_of_bytes;
use crate::ieee::{abs_below32, abs_below64, greater64};
use crate::registers::bytes_of_words;
use crate::words::{
    join32, join64, swapped, u32_of_words, u64_of_words, word_of, words_of_u32, words_of_u64,
    Endian,
};
use vstd::prelude::*;
use vstd::utf8::{decode_utf8, valid_utf8};

verus! {

/// A word is its high byte times 256 and its low byte.
pub proof fn law_word_of_bytes(high: u8, low: u8, word: u16)
    ensures
        big_endian(high, low) == high * 256 + low,
        high_byte(word) * 256 + low_byte(word) == word,
{
}

/// Words are joined with the weights of their places, and a word with its bytes
/// the other way round has the low one count for more.
pub proof fn law_joining(w3: u16, w2: u16, w1: u16, w0: u16)
    ensures
        join32(w1, w0) == w1 * 0x1_0000 + w0,
        join64(w3, w2, w1, w0) == w3 * 0x1_0000_0000_0000 + w2 * 0x1_0000_0000 + w1 * 0x1_0000 + w0,
        swapped(w0) == w0 as int % 256 * 256 + w0 as int / 256,
{
}

/// Words become twice as many bytes, the high byte of each word first.
pub proof fn law_bytes_of_words(words: Seq<u16>)
    ensures
        bytes_of_words(words).len() == 2 * words.len(),
        forall|i: int|
            0 <= i < words.len() ==> bytes_of_words(words)[2 * i] * 256 + bytes_of_words(
                words,
            )[2 * i + 1] == #[trigger] words[i],
{
    assert forall|i: int| 0 <= i < words.len() implies bytes_of_words(words)[2 * i] * 256
        + bytes_of_words(words)[2 * i + 1] == #[trigger] words[i] by {
        assert((2 * i) / 2 == i);
        assert((2 * i + 1) / 2 == i);
    }
}

/// Bytes become the given number of words, with zeros where bytes are missing.
pub proof fn law_words_of_bytes(bytes: Seq<u8>, count: nat)
    ensures
        words_of_bytes(bytes, count).len() == count,
        forall|i: int|
            0 <= i < count ==> (#[trigger] words_of_bytes(bytes, count)[i]) == (if 2 * i
                < bytes.len() {
                bytes[2 * i] * 256
            } else {
                0
            }) + (if 2 * i + 1 < bytes.len() {
                bytes[2 * i + 1] as int
            } else {
                0
            }),
{
}

/// Well-formed UTF-8 is read as the text that it encodes.
pub proof fn law_lossy_reading(bytes: Seq<u8>)
    requires
        valid_utf8(bytes),
    ensures
        utf8_lossy(bytes) == decode_utf8(bytes),
{
}

/// The word at the front counts for more with `Endian::Big`, that at the back
/// with the other two.
pub proof fn law_number_of_two_words(words: Seq<u16>, endian: Endian)
    requires
        words.len() >= 2,
    ensures
        u32_of_words(words, endian) == (if endian == Endian::Big {
            words[0] * 0x1_0000 + words[1]
        } else {
            words[1] * 0x1_0000 + words[0]
        }),
{
}

/// The word at the front counts for more with `Endian::Big`, that at the back
/// with the other two.
pub proof fn law_number_of_four_words(words: Seq<u16>, endian: Endian)
    requires
        words.len() >= 4,
    ensures
        u64_of_words(words, endian) == (if endian == Endian::Big {
            words[0] * 0x1_0000_0000_0000 + words[1] * 0x1_0000_0000 + words[2] * 0x1_0000
                + words[3]
        } else {
            words[3] * 0x1_0000_0000_0000 + words[2] * 0x1_0000_0000 + words[1] * 0x1_0000
                + words[0]
        }),
{
}

/// A number is written as two words which make it up: the higher first with
/// `Endian::Big`, the lower first with the other two, and each with its bytes
/// the other way round with `Endian::Little`.
pub proof fn law_two_words_of_number(value: u32, endian: Endian)
    ensures
        ({
            let w = words_of_u32(value, endian);
            &&& w.len() == 2
            &&& match endian {
                Endian::Big => w[0] * 0x1_0000 + w[1] == value,
                Endian::WordSwap => w[1] * 0x1_0000 + w[0] == value,
                Endian::Little => (w[1] as int % 256 * 256 + w[1] as int / 256) * 0x1_0000 + (w[0]
                    as int % 256 * 256 + w[0] as int / 256) == value,
            }
        }),
{
    let (high, low) = (word_of(value as u64, 1), word_of(value as u64, 0));
    assert(high == value / 0x1_0000 && low == value % 0x1_0000);
    assert(high * 0x1_0000 + low == value);
    lemma_swapped_back(high);
    lemma_swapped_back(low);
}

proof fn lemma_four_words(value: u64, w3: int, w2: int, w1: int, w0: int)
    requires
        w0 == value % 0x1_0000,
        w1 == value / 0x1_0000 % 0x1_0000,
        w2 == value / 0x1_0000_0000 % 0x1_0000,
        w3 == value / 0x1_0000_0000_0000,
    ensures
        w3 * 0x1_0000_0000_0000 + w2 * 0x1_0000_0000 + w1 * 0x1_0000 + w0 == value,
{
    let a = value / 0x1_0000;
    let b = a / 0x1_0000;
    let c = b / 0x1_0000;
    assert(b == value / 0x1_0000_0000);
    assert(c == value / 0x1_0000_0000_0000);
    assert(b == c * 0x1_0000 + w2);
    assert(a == b * 0x1_0000 + w1);
    assert(value == a * 0x1_0000 + w0);
}

proof fn lemma_swapped_back(word: u16)
    ensures
        swapped(word) as int % 256 * 256 + swapped(word) as int / 256 == word,
{
}

/// A number is written as four words which make it up, in the same orders.
pub proof fn law_four_words_of_number(value: u64, endian: Endian)
    ensures
        ({
            let w = words_of_u64(value, endian);
            let turned = |i: int| w[i] as int % 256 * 256 + w[i] as int / 256;
            &&& w.len() == 4
            &&& match endian {
                Endian::Big => w[0] * 0x1_0000_0000_0000 + w[1] * 0x1_0000_0000 + w[2] * 0x1_0000
                    + w[3] == value,
                Endian::WordSwap => w[3] * 0x1_0000_0000_0000 + w[2] * 0x1_0000_0000 + w[1]
                    * 0x1_0000 + w[0] == value,
                Endian::Little => turned(3) * 0x1_0000_0000_0000 + turned(2) * 0x1_0000_0000
                    + turned(1) * 0x1_0000 + turned(0) == value,
            }
        }),
{
    let (w3, w2) = (word_of(value, 3), word_of(value, 2));
    let (w1, w0) = (word_of(value, 1), word_of(value, 0));
    lemma_four_words(value, w3 as int, w2 as int, w1 as int, w0 as int);
    lemma_swapped_back(w3);
    lemma_swapped_back(w2);
    lemma_swapped_back(w1);
    lemma_swapped_back(w0);
}

/// Of two positive doubles the one with the greater pattern is greater, of two
/// negative ones the one with the smaller; a positive one is greater than a
/// negative one unless both are zero. What is no number takes no part.
pub proof fn law_greater_by_pattern(a: u64, b: u64)
    ensures
        ({
            let sign: int = 0x8000_0000_0000_0000;
            let infinity: int = 0x7FF0_0000_0000_0000;
            let (x, y) = (a as int % sign, b as int % sign);
            &&& x > infinity || y > infinity ==> !greater64(a, b)
            &&& x <= infinity && y <= infinity ==> {
                &&& a < sign && b < sign ==> (greater64(a, b) <==> a > b)
                &&& a >= sign && b >= sign ==> (greater64(a, b) <==> a < b)
                &&& a < sign && b >= sign ==> (greater64(a, b) <==> a > 0 || b > sign)
                &&& a >= sign && b < sign ==> !greater64(a, b)
            }
        }),
{
}

/// A number is below a positive limit in size exactly where its pattern without
/// the sign is below that of the limit.
pub proof fn law_size_by_pattern(a: u64, b: u32, limit64: u64, limit32: u32)
    requires
        0 < limit64 <= 0x7FF0_0000_0000_0000,
        0 < limit32 <= 0x7F80_0000,
    ensures
        a < 0x8000_0000_0000_0000 ==> (abs_below64(a, limit64) <==> a < limit64),
        a >= 0x8000_0000_0000_0000 ==> (abs_below64(a, limit64) <==> a - 0x8000_0000_0000_0000
            < limit64),
        b < 0x8000_0000 ==> (abs_below32(b, limit32) <==> b < limit32),
        b >= 0x8000_0000 ==> (abs_below32(b, limit32) <==> b - 0x8000_0000 < limit32),
{
}

} // verus!
