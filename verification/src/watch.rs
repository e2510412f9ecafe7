//! Watching the maximum current of a charger: the registers, the numbers in
//! them, the arguments and what is printed. Singles are bit patterns.

use crate::bytes::{high_byte, lemma_word_bytes, low_byte, read_word, word_bytes, write_word};
use crate::explorer::{raw_text, show_words};
use crate::registers::first_word;
use crate::text::{decimal, decimal_text, integer_of, parse_integer};
use crate::words::{
    join32, law_u32_read_back, law_u32_written_back, u32_of_words, words_of_u32, Endian,
};
use vstd::prelude::*;
use vstd::slice::slice_subrange;
use vstd::string::StringExecFns;

verus! {

broadcast use vstd::string::group_string_axioms;

/// The register of the maximum current, a single in two words.
pub const REG_MAX_CURRENT: u16 = 1210;

/// The register that says whether the setpoint is accounted for, one word.
pub const REG_SETPOINT_ACCOUNTED: u16 = 1214;

/// The register of the time for which the setpoint is valid, a count in two words.
pub const REG_VALID_TIME: u16 = 1208;

/// The current that is written at the start: eleven amperes.
pub const FIRST_CURRENT: u32 = 0x4130_0000;

/// The bytes of a 32-bit value, most significant first.
pub open spec fn four_bytes(value: u32) -> Seq<u8> {
    let high = (value / 0x1_0000) as u16;
    let low = (value % 0x1_0000) as u16;
    seq![high_byte(high), low_byte(high), high_byte(low), low_byte(low)]
}

fn to_four_bytes(value: u32) -> (bytes: Vec<u8>)
    ensures
        bytes@ == four_bytes(value),
{
    let (b0, b1) = word_bytes((value / 0x1_0000) as u16);
    let (b2, b3) = word_bytes((value % 0x1_0000) as u16);
    let mut bytes: Vec<u8> = Vec::new();
    bytes.push(b0);
    bytes.push(b1);
    bytes.push(b2);
    bytes.push(b3);
    assert(bytes@ =~= four_bytes(value));
    bytes
}

/// The words of a single.
pub fn f32_to_regs(bits: u32) -> (regs: [u16; 2])
    ensures
        regs@ == words_of_u32(bits, Endian::Big),
{
    let bytes = to_four_bytes(bits);
    let front = slice_subrange(bytes.as_slice(), 0, 2);
    let back = slice_subrange(bytes.as_slice(), 2, 4);
    let regs = [read_word(front), read_word(back)];
    proof {
        let high = (bits / 0x1_0000) as u16;
        let low = (bits % 0x1_0000) as u16;
        lemma_word_bytes(high, 0, 0);
        lemma_word_bytes(low, 0, 0);
        assert(front@[0] == high_byte(high) && front@[1] == low_byte(high));
        assert(back@[0] == high_byte(low) && back@[1] == low_byte(low));
        assert(regs@ =~= seq![high, low]);
        assert(words_of_u32(bits, Endian::Big) =~= seq![high, low]);
    }
    regs
}

/// The single in the first two words.
pub fn regs_to_f32(regs: &[u16]) -> (bits: u32)
    requires
        regs@.len() >= 2,
    ensures
        bits == u32_of_words(regs@, Endian::Big),
{
    let mut buf: Vec<u8> = Vec::new();
    buf.push(0);
    buf.push(0);
    buf.push(0);
    buf.push(0);
    write_word(&mut buf, 0, regs[0]);
    write_word(&mut buf, 2, regs[1]);
    buf[0] as u32 * 0x100_0000 + buf[1] as u32 * 0x1_0000 + buf[2] as u32 * 0x100 + buf[3] as u32
}

/// The count in the first two words.
pub fn regs_to_u32(regs: &[u16]) -> (value: u32)
    requires
        regs@.len() >= 2,
    ensures
        value == join32(regs@[0], regs@[1]),
{
    regs[0] as u32 * 0x1_0000 + regs[1] as u32
}

/// A single is read back from the words it was written as, and two words are
/// written for the single read from them.
pub proof fn law_single_read_back(bits: u32, regs: Seq<u16>)
    requires
        regs.len() == 2,
    ensures
        u32_of_words(words_of_u32(bits, Endian::Big), Endian::Big) == bits,
        words_of_u32(u32_of_words(regs, Endian::Big), Endian::Big) == regs,
{
    law_u32_read_back(bits, Endian::Big);
    law_u32_written_back(regs, Endian::Big);
}

/// What to watch.
#[derive(Debug, PartialEq, Eq)]
pub struct WatchTarget {
    pub host: String,
    pub port: u16,
    pub slave: u8,
}

/// An argument that is no number in its range.
#[derive(Debug, Clone, Copy, PartialEq, Eq, Structural)]
pub enum WatchError {
    InvalidPort,
    InvalidSlave,
}

/// What is shown to the user for an argument that cannot be read.
pub open spec fn watch_error_text(error: WatchError) -> Seq<char> {
    match error {
        WatchError::InvalidPort => "Invalid port"@,
        WatchError::InvalidSlave => "Invalid slave"@,
    }
}

impl WatchError {
    /// What is shown to the user.
    pub fn message(&self) -> (text: String)
        ensures
            text@ == watch_error_text(*self),
    {
        match self {
            WatchError::InvalidPort => "Invalid port".to_owned(),
            WatchError::InvalidSlave => "Invalid slave".to_owned(),
        }
    }
}

/// An argument, or what stands in where it is missing.
pub open spec fn argument_or(argument: Option<String>, other: Seq<char>) -> Seq<char> {
    match argument {
        Some(text) => text@,
        None => other,
    }
}

fn argument_text(argument: &Option<String>, other: &str) -> (text: String)
    ensures
        text@ == argument_or(*argument, other@),
{
    match argument {
        Some(text) => text.clone(),
        None => other.to_owned(),
    }
}

/// The port that an argument names.
pub open spec fn port_of(argument: Option<String>) -> Option<int> {
    integer_of(argument_or(argument, "502"@), false, 0, 65535)
}

/// The slave that an argument names.
pub open spec fn slave_of(argument: Option<String>) -> Option<int> {
    integer_of(argument_or(argument, "200"@), false, 0, 255)
}

/// An argument that is given counts as it is; one that is missing counts as
/// the port 502, or the slave 200. A port has 16 bits, a slave 8.
pub proof fn law_arguments(given: String, other: Seq<char>)
    ensures
        argument_or(Some(given), other) == given@,
        argument_or(None, other) == other,
        port_of(Some(given)) == integer_of(given@, false, 0, 0xFFFF),
        port_of(None) == integer_of("502"@, false, 0, 0xFFFF),
        slave_of(Some(given)) == integer_of(given@, false, 0, 0xFF),
        slave_of(None) == integer_of("200"@, false, 0, 0xFF),
{
}

/// What the arguments name: a host, a port and a slave, each of which may be missing.
pub fn watch_target(
    host: &Option<String>,
    port: &Option<String>,
    slave: &Option<String>,
) -> (target: Result<WatchTarget, WatchError>)
    ensures
        match target {
            Ok(t) => {
                &&& t.host@ == argument_or(*host, "192.168.0.50"@)
                &&& port_of(*port) == Some(t.port as int)
                &&& slave_of(*slave) == Some(t.slave as int)
            },
            Err(WatchError::InvalidPort) => port_of(*port) is None,
            Err(WatchError::InvalidSlave) => port_of(*port) is Some && slave_of(*slave) is None,
        },
{
    let port_text = argument_text(port, "502");
    let port_number = match parse_integer(port_text.as_str(), false, 0, 65535) {
        Some(n) => n as u16,
        None => {
            return Err(WatchError::InvalidPort);
        },
    };
    let slave_text = argument_text(slave, "200");
    let slave_number = match parse_integer(slave_text.as_str(), false, 0, 255) {
        Some(n) => n as u8,
        None => {
            return Err(WatchError::InvalidSlave);
        },
    };
    Ok(
        WatchTarget {
            host: argument_text(host, "192.168.0.50"),
            port: port_number,
            slave: slave_number,
        },
    )
}

/// A read that is made in every round.
#[derive(Debug, Clone, Copy, PartialEq, Eq, Structural)]
pub struct WatchRead {
    pub address: u16,
    pub count: u16,
}

/// The reads of a round, in their order.
pub fn watch_reads() -> (reads: [WatchRead; 3])
    ensures
        reads@ == seq![
            WatchRead { address: REG_MAX_CURRENT, count: 2 },
            WatchRead { address: REG_SETPOINT_ACCOUNTED, count: 1 },
            WatchRead { address: REG_VALID_TIME, count: 2 },
        ],
{
    let reads = [
        WatchRead { address: REG_MAX_CURRENT, count: 2 },
        WatchRead { address: REG_SETPOINT_ACCOUNTED, count: 1 },
        WatchRead { address: REG_VALID_TIME, count: 2 },
    ];
    assert(reads@ =~= seq![
        WatchRead { address: REG_MAX_CURRENT, count: 2 },
        WatchRead { address: REG_SETPOINT_ACCOUNTED, count: 1 },
        WatchRead { address: REG_VALID_TIME, count: 2 },
    ]);
    reads
}

/// What is printed for a read that failed. The round ends with it.
pub fn failed_read_line(address: u16, cause: &str) -> (line: String)
    ensures
        line@ == "read "@ + decimal(address as nat) + " failed: "@ + cause@,
{
    let mut line = "read ".to_owned();
    line.append(decimal_text(address as u64).as_str());
    line.append(" failed: ");
    line.append(cause);
    line
}

/// What is printed for the write at the start.
pub fn written_line(regs: &Vec<u16>) -> (line: String)
    ensures
        line@ == "Wrote 11.0A to reg "@ + decimal(REG_MAX_CURRENT as nat) + " as raw "@ + raw_text(
            regs@,
        ),
{
    let mut line = "Wrote 11.0A to reg ".to_owned();
    line.append(decimal_text(REG_MAX_CURRENT as u64).as_str());
    line.append(" as raw ");
    line.append(show_words(regs).as_str());
    line
}

/// What is printed for a round. `amps` is the maximum current with two digits
/// behind the point.
pub fn watch_line(
    amps: &str,
    max_regs: &Vec<u16>,
    accounted_regs: &Vec<u16>,
    valid_regs: &Vec<u16>,
) -> (line: String)
    requires
        valid_regs@.len() >= 2,
    ensures
        line@ == "1210="@ + amps@ + "A (raw="@ + raw_text(max_regs@) + ") 1214="@ + decimal(
            first_word(accounted_regs@) as nat,
        ) + " 1208="@ + decimal(join32(valid_regs@[0], valid_regs@[1]) as nat) + "s"@,
{
    let accounted: u16 = if accounted_regs.len() > 0 {
        accounted_regs[0]
    } else {
        0
    };
    let valid_time = regs_to_u32(valid_regs.as_slice());
    let mut line = "1210=".to_owned();
    line.append(amps);
    line.append("A (raw=");
    line.append(show_words(max_regs).as_str());
    line.append(") 1214=");
    line.append(decimal_text(accounted as u64).as_str());
    line.append(" 1208=");
    line.append(decimal_text(valid_time as u64).as_str());
    line.append("s");
    line
}

} // verus!
