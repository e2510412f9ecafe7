//! Bytes: UTF-8 text and big-endian words.

use byteorder::{BigEndian, ByteOrder};
use vstd::prelude::*;
use vstd::utf8::{decode_utf8, valid_utf8};

verus! {

/// The text that a lossy reading of ill-formed UTF-8 gives.
pub uninterp spec fn repaired_utf8(bytes: Seq<u8>) -> Seq<char>;

/// The text that a lossy reading of bytes as UTF-8 gives: what the bytes
/// encode, where they are well formed.
pub open spec fn utf8_lossy(bytes: Seq<u8>) -> Seq<char> {
    if valid_utf8(bytes) {
        decode_utf8(bytes)
    } else {
        repaired_utf8(bytes)
    }
}

/// The text that the bytes encode. Calls `std::str::from_utf8`, which accepts
/// exactly the well-formed UTF-8 and leaves the text unchanged.
#[verifier::external_body]
pub(crate) fn text_from_utf8(bytes: &[u8]) -> (text: Option<&str>)
    ensures
        match text {
            Some(s) => valid_utf8(bytes@) && s@ == decode_utf8(bytes@),
            None => !valid_utf8(bytes@),
        },
{
    std::str::from_utf8(bytes).ok()
}

/// The text that the bytes encode, with something in place of what is no
/// UTF-8. Calls `String::from_utf8_lossy`: the result depends on the bytes
/// alone, well-formed UTF-8 is taken as it is, and ill-formed bytes leave a
/// replacement character. How many of them stand for how many bytes is not
/// stated.
#[verifier::external_body]
pub(crate) fn text_from_utf8_lossy(bytes: &[u8]) -> (text: String)
    ensures
        valid_utf8(bytes@) ==> text@ == decode_utf8(bytes@),
        !valid_utf8(bytes@) ==> text@ == repaired_utf8(bytes@) && text@.contains('\u{fffd}'),
{
    String::from_utf8_lossy(bytes).into_owned()
}

/// The word whose high byte comes first.
pub open spec fn big_endian(high: u8, low: u8) -> u16 {
    (high * 256 + low) as u16
}

/// The high byte of a word.
pub open spec fn high_byte(word: u16) -> u8 {
    (word / 256) as u8
}

/// The low byte of a word.
pub open spec fn low_byte(word: u16) -> u8 {
    (word % 256) as u8
}

/// The word in the first two bytes. Calls `BigEndian::read_u16` of
/// `byteorder`, which takes the first byte as the high one and panics on fewer
/// than two bytes.
#[verifier::external_body]
pub(crate) fn read_word(bytes: &[u8]) -> (word: u16)
    requires
        bytes@.len() >= 2,
    ensures
        word == big_endian(bytes@[0], bytes@[1]),
{
    BigEndian::read_u16(bytes)
}

/// Puts the word into the two bytes from `at` on. Calls
/// `BigEndian::write_u16` of `byteorder`, which writes the high byte first,
/// leaves the other bytes alone and panics on fewer than two bytes.
#[verifier::external_body]
pub(crate) fn write_word(bytes: &mut Vec<u8>, at: usize, word: u16)
    requires
        at + 2 <= old(bytes)@.len(),
    ensures
        final(bytes)@ == old(bytes)@.update(at as int, high_byte(word)).update(
            at + 1,
            low_byte(word),
        ),
{
    BigEndian::write_u16(&mut bytes[at..], word)
}

/// A word split into its bytes, high byte first.
pub fn word_bytes(word: u16) -> (pair: (u8, u8))
    ensures
        pair == (high_byte(word), low_byte(word)),
{
    ((word / 256) as u8, (word % 256) as u8)
}

/// A word made of its bytes.
pub fn bytes_word(high: u8, low: u8) -> (word: u16)
    ensures
        word == big_endian(high, low),
{
    high as u16 * 256 + low as u16
}

/// A word is what its bytes make, and its bytes are what it was made of.
pub proof fn lemma_word_bytes(word: u16, high: u8, low: u8)
    ensures
        big_endian(high_byte(word), low_byte(word)) == word,
        high_byte(big_endian(high, low)) == high,
        low_byte(big_endian(high, low)) == low,
{
}

} // verus!
