//! What is asked of the device, told by the row it is asked for.

use crate::encoding::{encoded, EncodeError, FloatText};
use crate::registers::{
    decoded, word_count, DataType, RawNumber, ReadingView, RegisterConfig, RegisterType,
};
use crate::row_laws::{
    law_float_shown, law_float_written, law_signed_shown, law_signed_written, law_unsigned_shown,
    law_unsigned_written, written_up,
};
use crate::text::{contains_text, decimal, integer_of, lowered, signed_decimal, trimmed};
use crate::text_laws::law_parts;
use crate::transfer::{
    failure_text, planned_write, read_of, says_illegal_address, says_transport_error,
    second_failure_text, second_read_of, write_error_text, ReadRequest, WriteError, WriteErrorView,
    WriteRequest, WriteView,
};
use crate::words::{u32_of_words, u64_of_words, words_of_u32, words_of_u64, DecodeError, Endian};
use vstd::prelude::*;

verus! {

/// Every read for a row, the first as well as the second, is of the register
/// table of the row, asks its own unit or else the default one, and is as wide
/// as the row. The first is at the address of the row, the second at the next,
/// where there is one.
pub proof fn law_reads_of_row(reg: RegisterConfig, default_unit_id: u8)
    ensures
        forall|request: ReadRequest|
            request == read_of(reg, default_unit_id) || request == second_read_of(
                reg,
                default_unit_id,
            ) ==> {
                &&& (#[trigger] request.register_type) == reg.register_type
                &&& request.unit_id == (if reg.unit_id is Some {
                    reg.unit_id->0
                } else {
                    default_unit_id
                })
                &&& request.quantity == word_count(reg)
            },
        read_of(reg, default_unit_id).address == reg.address,
        reg.address < 0xFFFF ==> second_read_of(reg, default_unit_id).address == reg.address + 1,
        reg.address == 0xFFFF ==> second_read_of(reg, default_unit_id).address == reg.address,
{
}

/// Rows that differ in their register table are read from different tables, by
/// the first read as well as by the second.
pub proof fn law_tables_kept_apart(a: RegisterConfig, b: RegisterConfig, unit_a: u8, unit_b: u8)
    requires
        a.register_type != b.register_type,
    ensures
        read_of(a, unit_a).register_type != read_of(b, unit_b).register_type,
        second_read_of(a, unit_a).register_type != second_read_of(b, unit_b).register_type,
{
}

/// Whether a text holds a phrase in any letter case, with anything around it.
pub open spec fn holds_phrase(message: Seq<char>, phrase: Seq<char>) -> bool {
    exists|front: Seq<char>, middle: Seq<char>, back: Seq<char>|
        message == #[trigger] (front + middle + back) && lowered(middle) == phrase
}

proof fn lemma_holds_phrase(message: Seq<char>, phrase: Seq<char>)
    ensures
        contains_text(lowered(message), phrase) <==> holds_phrase(message, phrase),
{
    let low = lowered(message);
    law_parts(low, phrase);
    if contains_text(low, phrase) {
        let (front, back) = choose|front: Seq<char>, back: Seq<char>|
            low == #[trigger] (front + phrase + back);
        let at = front.len() as int;
        let end = at + phrase.len();
        let middle = message.subrange(at, end);
        assert(low.len() == message.len());
        assert(message =~= message.take(at) + middle + message.skip(end));
        assert forall|i: int| 0 <= i < phrase.len() implies lowered(middle)[i] == phrase[i] by {
            assert(low[at + i] == phrase[i]);
        }
        assert(lowered(middle) =~= phrase);
    }
    if holds_phrase(message, phrase) {
        let (front, middle, back) = choose|front: Seq<char>, middle: Seq<char>, back: Seq<char>|
            message == #[trigger] (front + middle + back) && lowered(middle) == phrase;
        assert(low =~= lowered(front) + phrase + lowered(back));
    }
}

/// An error is one of the transport exactly where it holds one of seven
/// phrases, and tells of a missing address where it holds another one; letter
/// case and what stands around do not matter.
pub proof fn law_error_phrases(message: Seq<char>)
    ensures
        says_illegal_address(message) <==> holds_phrase(message, "illegal data address"@),
        says_transport_error(message) <==> {
            ||| holds_phrase(message, "broken pipe"@)
            ||| holds_phrase(message, "connection reset"@)
            ||| holds_phrase(message, "connection refused"@)
            ||| holds_phrase(message, "connection aborted"@)
            ||| holds_phrase(message, "unexpected eof"@)
            ||| holds_phrase(message, "timed out"@)
            ||| holds_phrase(message, "not connected"@)
        },
{
    lemma_holds_phrase(message, "illegal data address"@);
    lemma_holds_phrase(message, "broken pipe"@);
    lemma_holds_phrase(message, "connection reset"@);
    lemma_holds_phrase(message, "connection refused"@);
    lemma_holds_phrase(message, "connection aborted"@);
    lemma_holds_phrase(message, "unexpected eof"@);
    lemma_holds_phrase(message, "timed out"@);
    lemma_holds_phrase(message, "not connected"@);
}

/// The message of a failure names the row, its address and the unit that was
/// asked; that of a second failure also the next address and the first error.
pub proof fn law_failure_messages(
    verb: Seq<char>,
    reg: RegisterConfig,
    default_unit_id: u8,
    first: Seq<char>,
)
    ensures
        ({
            let unit = if reg.unit_id is Some {
                reg.unit_id->0
            } else {
                default_unit_id
            };
            let next = if reg.address < 0xFFFF {
                reg.address + 1
            } else {
                0xFFFF
            };
            &&& failure_text(verb, reg, default_unit_id) == verb + " failed for '"@ + reg.name@
                + "' at "@ + decimal(reg.address as nat) + " (slave "@ + decimal(unit as nat) + ")"@
            &&& second_failure_text(reg, default_unit_id, first) == "Read"@ + " failed for '"@
                + reg.name@ + "' at "@ + decimal(reg.address as nat) + " and fallback "@ + decimal(
                next as nat,
            ) + " (slave "@ + decimal(unit as nat) + "): "@ + first
        }),
{
}

/// A write is refused where the row does not exist, else where it is not
/// writable, else where it is no holding register, else where it does not hold
/// the text; and never otherwise.
pub proof fn law_refusals(
    regs: Seq<RegisterConfig>,
    index: usize,
    text: Seq<char>,
    floats: FloatText,
    default_unit_id: u8,
)
    ensures
        ({
            let plan = planned_write(regs, index, text, floats, default_unit_id);
            let reg = regs[index as int];
            if index >= regs.len() {
                plan == Err::<WriteView, WriteErrorView>(WriteErrorView::InvalidIndex { index })
            } else if !reg.writable {
                plan == Err::<WriteView, WriteErrorView>(
                    WriteErrorView::NotWritable { name: reg.name@ },
                )
            } else if reg.register_type == RegisterType::Input {
                plan == Err::<WriteView, WriteErrorView>(
                    WriteErrorView::NotHolding { name: reg.name@ },
                )
            } else if let Err(error) = encoded(reg, text, floats) {
                plan == Err::<WriteView, WriteErrorView>(
                    WriteErrorView::NotEncodable { name: reg.name@, error },
                )
            } else {
                plan is Ok
            }
        }),
{
}

/// An accepted write is exactly the encoding of the text for the row, at the
/// address of the row, to its own unit or else the default one.
pub proof fn law_write_is_encoding(
    regs: Seq<RegisterConfig>,
    index: usize,
    text: Seq<char>,
    floats: FloatText,
    default_unit_id: u8,
)
    ensures
        planned_write(regs, index, text, floats, default_unit_id) matches Ok(request) ==> {
            let reg = regs[index as int];
            &&& encoded(reg, text, floats) matches Ok(words) && request.words == words
            &&& request.address == reg.address
            &&& request.unit_id == (if reg.unit_id is Some {
                reg.unit_id->0
            } else {
                default_unit_id
            })
        },
{
}

/// The words of an accepted write make up the number that the text denotes, in
/// the word order of the row.
pub proof fn law_write_makes_up_number(
    regs: Seq<RegisterConfig>,
    index: usize,
    text: Seq<char>,
    floats: FloatText,
    default_unit_id: u8,
)
    ensures
        planned_write(regs, index, text, floats, default_unit_id) matches Ok(request) ==> {
            let reg = regs[index as int];
            let s = trimmed(text);
            match reg.data_type {
                DataType::U16 => integer_of(s, false, 0, 0xFFFF) matches Some(n) && written_up(
                    reg,
                    request.words,
                    n,
                ),
                DataType::U32 => integer_of(s, false, 0, 0xFFFF_FFFF) matches Some(n) && written_up(
                    reg,
                    request.words,
                    n,
                ),
                DataType::U64 => integer_of(s, false, 0, 0xFFFF_FFFF_FFFF_FFFF) matches Some(n)
                    && written_up(reg, request.words, n),
                DataType::I16 => integer_of(s, true, -0x8000, 0x7FFF) matches Some(n) && written_up(
                    reg,
                    request.words,
                    if n < 0 {
                        n + 0x1_0000
                    } else {
                        n
                    },
                ),
                DataType::I32 => integer_of(s, true, -0x8000_0000, 0x7FFF_FFFF) matches Some(n)
                    && written_up(
                    reg,
                    request.words,
                    if n < 0 {
                        n + 0x1_0000_0000
                    } else {
                        n
                    },
                ),
                DataType::F32 => floats.single matches Some(bits) && written_up(
                    reg,
                    request.words,
                    bits as int,
                ),
                DataType::F64 => floats.double matches Some(bits) && written_up(
                    reg,
                    request.words,
                    bits as int,
                ),
                _ => true,
            }
        },
{
    if planned_write(regs, index, text, floats, default_unit_id) is Ok {
        let reg = regs[index as int];
        match reg.data_type {
            DataType::U16 | DataType::U32 | DataType::U64 => {
                law_unsigned_written(reg, text, floats);
            },
            DataType::I16 | DataType::I32 => {
                law_signed_written(reg, text, floats);
            },
            _ => {
                law_float_written(reg, text, floats);
            },
        }
    }
}

/// What an accepted write sets, the row reads back: the number that the text
/// denotes, pattern for pattern, in each word order but `Endian::Little`, which
/// turns the bytes of longer numbers on writing only.
pub proof fn law_write_reads_back(
    regs: Seq<RegisterConfig>,
    index: usize,
    text: Seq<char>,
    floats: FloatText,
    default_unit_id: u8,
)
    requires
        regs[index as int].endian != Endian::Little || word_count(regs[index as int]) == 1,
    ensures
        planned_write(regs, index, text, floats, default_unit_id) matches Ok(request) ==> {
            let reg = regs[index as int];
            let s = trimmed(text);
            let shown = decoded(reg, request.words);
            match reg.data_type {
                DataType::F32 => floats.single is Some && shown == Ok::<ReadingView, DecodeError>(
                    ReadingView::Number {
                        raw: RawNumber::Single(floats.single->0),
                        scale: reg.scale,
                    },
                ),
                DataType::F64 => floats.double is Some && shown == Ok::<ReadingView, DecodeError>(
                    ReadingView::Number {
                        raw: RawNumber::Double(floats.double->0),
                        scale: reg.scale,
                    },
                ),
                DataType::U16 | DataType::U32 | DataType::U64 => exists|n: int|
                    0 <= n <= 0xFFFF_FFFF_FFFF_FFFF && #[trigger] integer_of(
                        s,
                        false,
                        0,
                        n,
                    ) == Some(n) && shown == Ok::<ReadingView, DecodeError>(
                        if reg.scale is None && n <= 0x20_0000_0000_0000 {
                            ReadingView::Text(decimal(n as nat))
                        } else {
                            ReadingView::Number {
                                raw: RawNumber::Unsigned(n as u64),
                                scale: reg.scale,
                            }
                        },
                    ),
                DataType::I16 | DataType::I32 => exists|n: int|
                    -0x8000_0000 <= n <= 0x7FFF_FFFF && #[trigger] integer_of(s, true, n, n)
                        == Some(n) && shown == Ok::<ReadingView, DecodeError>(
                        if reg.scale is None {
                            ReadingView::Text(signed_decimal(n))
                        } else {
                            ReadingView::Number {
                                raw: RawNumber::Signed(n as i64),
                                scale: reg.scale,
                            }
                        },
                    ),
                _ => true,
            }
        },
{
    if let Ok(request) = planned_write(regs, index, text, floats, default_unit_id) {
        let reg = regs[index as int];
        let s = trimmed(text);
        law_write_makes_up_number(regs, index, text, floats, default_unit_id);
        match reg.data_type {
            DataType::F32 => {
                law_float_shown(reg, request.words, floats.single->0 as int);
            },
            DataType::F64 => {
                law_float_shown(reg, request.words, floats.double->0 as int);
            },
            DataType::U16 | DataType::U32 | DataType::U64 => {
                let max: int = match reg.data_type {
                    DataType::U16 => 0xFFFF,
                    DataType::U32 => 0xFFFF_FFFF,
                    _ => 0xFFFF_FFFF_FFFF_FFFF,
                };
                let n = integer_of(s, false, 0, max)->0;
                law_unsigned_shown(reg, request.words, n);
                assert(integer_of(s, false, 0, n) == Some(n));
            },
            DataType::I16 => {
                let n = integer_of(s, true, -0x8000, 0x7FFF)->0;
                let pattern = if n < 0 {
                    n + 0x1_0000
                } else {
                    n
                };
                law_signed_shown(reg, request.words, pattern, n);
                assert(integer_of(s, true, n, n) == Some(n));
            },
            DataType::I32 => {
                let n = integer_of(s, true, -0x8000_0000, 0x7FFF_FFFF)->0;
                let pattern = if n < 0 {
                    n + 0x1_0000_0000
                } else {
                    n
                };
                law_signed_shown(reg, request.words, pattern, n);
                assert(integer_of(s, true, n, n) == Some(n));
            },
            _ => {},
        }
    }
}

/// Numbers of more than one word are written and read in the word order of
/// their own row.
pub proof fn law_own_word_order(
    reg: RegisterConfig,
    text: Seq<char>,
    floats: FloatText,
    words: Seq<u16>,
)
    ensures
        reg.data_type == DataType::F32 && floats.single is Some ==> encoded(reg, text, floats)
            == Ok::<Seq<u16>, EncodeError>(words_of_u32(floats.single->0, reg.endian)),
        reg.data_type == DataType::F64 && floats.double is Some ==> encoded(reg, text, floats)
            == Ok::<Seq<u16>, EncodeError>(words_of_u64(floats.double->0, reg.endian)),
        reg.data_type == DataType::F32 && words.len() >= 2 ==> decoded(reg, words) == Ok::<
            ReadingView,
            DecodeError,
        >(
            ReadingView::Number {
                raw: RawNumber::Single(u32_of_words(words, reg.endian)),
                scale: reg.scale,
            },
        ),
        reg.data_type == DataType::F64 && words.len() >= 4 ==> decoded(reg, words) == Ok::<
            ReadingView,
            DecodeError,
        >(
            ReadingView::Number {
                raw: RawNumber::Double(u64_of_words(words, reg.endian)),
                scale: reg.scale,
            },
        ),
{
}

/// The message of a refused write names the row, or its index where there is none.
pub proof fn law_refusal_messages(error: WriteErrorView)
    ensures
        match error {
            WriteErrorView::InvalidIndex { index } => write_error_text(error)
                == "Invalid register index "@ + decimal(index as nat),
            WriteErrorView::NotWritable { name } => write_error_text(error) == "Register '"@ + name
                + "' is not writable"@,
            WriteErrorView::NotHolding { name } => write_error_text(error) == "Register '"@ + name
                + "' is writable only on holding registers"@,
            WriteErrorView::NotEncodable { name, error: cause } => write_error_text(error)
                == "Failed to encode '"@ + name + "'"@,
        },
{
}

/// Writes and refusals are seen as they are.
pub proof fn law_writes_seen(request: WriteRequest, error: WriteError)
    ensures
        request@.unit_id == request.unit_id,
        request@.address == request.address,
        request@.words == request.words@,
        match error {
            WriteError::InvalidIndex { index } => error@ == (WriteErrorView::InvalidIndex {
                index,
            }),
            WriteError::NotWritable { name } => error@ == (WriteErrorView::NotWritable {
                name: name@,
            }),
            WriteError::NotHolding { name } => error@ == (WriteErrorView::NotHolding {
                name: name@,
            }),
            WriteError::NotEncodable { name, error: cause } => error@ == (
            WriteErrorView::NotEncodable { name: name@, error: cause }),
        },
{
}

} // verus!
