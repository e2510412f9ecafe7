//! What is asked of the device, and what its answers mean.

use crate::encoding::{encode_value, encoded, EncodeError, FloatText};
use crate::registers::{
    effective_unit_id, register_word_count, unit_of, word_count, RegisterConfig, RegisterType,
};
use crate::text::{contains, contains_text, decimal, decimal_text, lowered, to_lower};
use vstd::prelude::*;
use vstd::string::StringExecFns;

verus! {

broadcast use vstd::string::group_string_axioms;

/// A read of consecutive registers of one unit.
#[derive(Debug, Clone, Copy, PartialEq, Eq, Structural)]
pub struct ReadRequest {
    pub unit_id: u8,
    pub register_type: RegisterType,
    pub address: u16,
    pub quantity: u16,
}

/// The read that a row asks for.
pub open spec fn read_of(reg: RegisterConfig, default_unit_id: u8) -> ReadRequest {
    ReadRequest {
        unit_id: unit_of(reg, default_unit_id),
        register_type: reg.register_type,
        address: reg.address,
        quantity: word_count(reg),
    }
}

/// The address that is tried where the row's own is refused: the next one, if there is one.
pub open spec fn fallback_of(address: u16) -> u16 {
    if address < u16::MAX {
        (address + 1) as u16
    } else {
        address
    }
}

/// The second read of a row.
pub open spec fn second_read_of(reg: RegisterConfig, default_unit_id: u8) -> ReadRequest {
    ReadRequest { address: fallback_of(reg.address), ..read_of(reg, default_unit_id) }
}

/// The read that a row asks for.
pub fn read_request(reg: &RegisterConfig, default_unit_id: u8) -> (request: ReadRequest)
    ensures
        request == read_of(*reg, default_unit_id),
        request.register_type == reg.register_type,
        request.address == reg.address,
        request.unit_id == (match reg.unit_id {
            Some(id) => id,
            None => default_unit_id,
        }),
        request.quantity == word_count(*reg),
{
    ReadRequest {
        unit_id: effective_unit_id(reg, default_unit_id),
        register_type: reg.register_type,
        address: reg.address,
        quantity: register_word_count(reg),
    }
}

fn fallback_address(address: u16) -> (next: u16)
    ensures
        next == fallback_of(address),
{
    if address < u16::MAX {
        address + 1
    } else {
        address
    }
}

/// The second read of a row, at the next address.
pub fn second_read_request(reg: &RegisterConfig, default_unit_id: u8) -> (request: ReadRequest)
    ensures
        request == second_read_of(*reg, default_unit_id),
        request.register_type == reg.register_type,
        request.address == (if reg.address < u16::MAX {
            reg.address + 1
        } else {
            reg.address as int
        }),
        request.unit_id == (match reg.unit_id {
            Some(id) => id,
            None => default_unit_id,
        }),
        request.quantity == word_count(*reg),
{
    ReadRequest {
        unit_id: effective_unit_id(reg, default_unit_id),
        register_type: reg.register_type,
        address: fallback_address(reg.address),
        quantity: register_word_count(reg),
    }
}

/// Whether an error says that the address does not exist, in any ASCII case.
pub open spec fn says_illegal_address(message: Seq<char>) -> bool {
    contains_text(lowered(message), "illegal data address"@)
}

/// Whether an error says that the address does not exist.
pub fn is_illegal_address(message: &str) -> (found: bool)
    ensures
        found == says_illegal_address(message@),
{
    contains(to_lower(message).as_str(), "illegal data address")
}

/// Whether an error says that the connection is gone, in any ASCII case.
pub open spec fn says_transport_error(message: Seq<char>) -> bool {
    let low = lowered(message);
    ||| contains_text(low, "broken pipe"@)
    ||| contains_text(low, "connection reset"@)
    ||| contains_text(low, "connection refused"@)
    ||| contains_text(low, "connection aborted"@)
    ||| contains_text(low, "unexpected eof"@)
    ||| contains_text(low, "timed out"@)
    ||| contains_text(low, "not connected"@)
}

/// Whether an error says that the connection is gone.
pub fn is_transport_error(message: &str) -> (found: bool)
    ensures
        found == says_transport_error(message@),
{
    let low = to_lower(message);
    let low = low.as_str();
    contains(low, "broken pipe") || contains(low, "connection reset") || contains(
        low,
        "connection refused",
    ) || contains(low, "connection aborted") || contains(low, "unexpected eof") || contains(
        low,
        "timed out",
    ) || contains(low, "not connected")
}

/// A transfer of a row that failed, by the first words of its message.
pub open spec fn failure_place(verb: Seq<char>, reg: RegisterConfig) -> Seq<char> {
    verb + " failed for '"@ + reg.name@ + "' at "@ + decimal(reg.address as nat)
}

/// The message of a failed read or write.
pub open spec fn failure_text(verb: Seq<char>, reg: RegisterConfig, default_unit_id: u8) -> Seq<
    char,
> {
    failure_place(verb, reg) + " (slave "@ + decimal(unit_of(reg, default_unit_id) as nat) + ")"@
}

/// The message of a read that failed at both addresses.
pub open spec fn second_failure_text(
    reg: RegisterConfig,
    default_unit_id: u8,
    first: Seq<char>,
) -> Seq<char> {
    failure_place("Read"@, reg) + " and fallback "@ + decimal(fallback_of(reg.address) as nat)
        + " (slave "@ + decimal(unit_of(reg, default_unit_id) as nat) + "): "@ + first
}

fn place_text(verb: &str, reg: &RegisterConfig) -> (text: String)
    ensures
        text@ == failure_place(verb@, *reg),
{
    let mut text = verb.to_owned();
    text.append(" failed for '");
    text.append(reg.name.as_str());
    text.append("' at ");
    text.append(decimal_text(reg.address as u64).as_str());
    text
}

fn failure_message(verb: &str, reg: &RegisterConfig, default_unit_id: u8) -> (text: String)
    ensures
        text@ == failure_text(verb@, *reg, default_unit_id),
{
    let mut text = place_text(verb, reg);
    text.append(" (slave ");
    text.append(decimal_text(effective_unit_id(reg, default_unit_id) as u64).as_str());
    text.append(")");
    text
}

/// The message of a read that failed.
pub fn read_failure(reg: &RegisterConfig, default_unit_id: u8) -> (text: String)
    ensures
        text@ == failure_text("Read"@, *reg, default_unit_id),
{
    failure_message("Read", reg, default_unit_id)
}

/// The message of a write that failed.
pub fn write_failure(reg: &RegisterConfig, default_unit_id: u8) -> (text: String)
    ensures
        text@ == failure_text("Write"@, *reg, default_unit_id),
{
    failure_message("Write", reg, default_unit_id)
}

/// The message of a read that failed at both addresses; `first` is the error of the first read.
pub fn second_read_failure(reg: &RegisterConfig, default_unit_id: u8, first: &str) -> (text: String)
    ensures
        text@ == second_failure_text(*reg, default_unit_id, first@),
{
    let mut text = place_text("Read", reg);
    text.append(" and fallback ");
    text.append(decimal_text(fallback_address(reg.address) as u64).as_str());
    text.append(" (slave ");
    text.append(decimal_text(effective_unit_id(reg, default_unit_id) as u64).as_str());
    text.append("): ");
    text.append(first);
    text
}

/// A write of consecutive holding registers of one unit.
#[derive(Debug, PartialEq, Eq)]
pub struct WriteRequest {
    pub unit_id: u8,
    pub address: u16,
    pub words: Vec<u16>,
}

/// A write, with its words as a sequence.
pub struct WriteView {
    pub unit_id: u8,
    pub address: u16,
    pub words: Seq<u16>,
}

impl View for WriteRequest {
    type V = WriteView;

    open spec fn view(&self) -> WriteView {
        WriteView { unit_id: self.unit_id, address: self.address, words: self.words@ }
    }
}

/// Whether a write uses the function for a single register.
pub open spec fn is_single(request: WriteView) -> bool {
    request.words.len() == 1
}

impl WriteRequest {
    /// Whether the write uses the function for a single register.
    pub fn single(&self) -> (single: bool)
        ensures
            single == is_single(self@),
    {
        self.words.len() == 1
    }

    /// A copy of the request.
    pub fn duplicate(&self) -> (copy: Self)
        ensures
            copy@ == self@,
    {
        WriteRequest { unit_id: self.unit_id, address: self.address, words: self.words.clone() }
    }
}

/// Why a write is refused before the device is asked.
#[derive(Debug, PartialEq, Eq)]
pub enum WriteError {
    InvalidIndex { index: usize },
    NotWritable { name: String },
    NotHolding { name: String },
    NotEncodable { name: String, error: EncodeError },
}

/// Why a write is refused, with the names as characters.
pub enum WriteErrorView {
    InvalidIndex { index: usize },
    NotWritable { name: Seq<char> },
    NotHolding { name: Seq<char> },
    NotEncodable { name: Seq<char>, error: EncodeError },
}

impl View for WriteError {
    type V = WriteErrorView;

    open spec fn view(&self) -> WriteErrorView {
        match self {
            WriteError::InvalidIndex { index } => WriteErrorView::InvalidIndex { index: *index },
            WriteError::NotWritable { name } => WriteErrorView::NotWritable { name: name@ },
            WriteError::NotHolding { name } => WriteErrorView::NotHolding { name: name@ },
            WriteError::NotEncodable { name, error } => WriteErrorView::NotEncodable {
                name: name@,
                error: *error,
            },
        }
    }
}

/// What is shown to the user for a refused write.
pub open spec fn write_error_text(error: WriteErrorView) -> Seq<char> {
    match error {
        WriteErrorView::InvalidIndex { index } => "Invalid register index "@ + decimal(
            index as nat,
        ),
        WriteErrorView::NotWritable { name } => "Register '"@ + name + "' is not writable"@,
        WriteErrorView::NotHolding { name } => "Register '"@ + name
            + "' is writable only on holding registers"@,
        WriteErrorView::NotEncodable { name, .. } => "Failed to encode '"@ + name + "'"@,
    }
}

impl WriteError {
    /// What is shown to the user.
    pub fn message(&self) -> (text: String)
        ensures
            text@ == write_error_text(self@),
    {
        match self {
            WriteError::InvalidIndex { index } => {
                let mut text = "Invalid register index ".to_owned();
                text.append(decimal_text(*index as u64).as_str());
                text
            },
            WriteError::NotWritable { name } => {
                let mut text = "Register '".to_owned();
                text.append(name.as_str());
                text.append("' is not writable");
                text
            },
            WriteError::NotHolding { name } => {
                let mut text = "Register '".to_owned();
                text.append(name.as_str());
                text.append("' is writable only on holding registers");
                text
            },
            WriteError::NotEncodable { name, .. } => {
                let mut text = "Failed to encode '".to_owned();
                text.append(name.as_str());
                text.append("'");
                text
            },
        }
    }
}

/// What becomes of a request to write `text` to row `index`.
pub open spec fn planned_write(
    regs: Seq<RegisterConfig>,
    index: usize,
    text: Seq<char>,
    floats: FloatText,
    default_unit_id: u8,
) -> Result<WriteView, WriteErrorView> {
    if index >= regs.len() {
        Err(WriteErrorView::InvalidIndex { index })
    } else {
        let reg = regs[index as int];
        if !reg.writable {
            Err(WriteErrorView::NotWritable { name: reg.name@ })
        } else if reg.register_type != RegisterType::Holding {
            Err(WriteErrorView::NotHolding { name: reg.name@ })
        } else {
            match encoded(reg, text, floats) {
                Ok(words) => Ok(
                    WriteView {
                        unit_id: unit_of(reg, default_unit_id),
                        address: reg.address,
                        words,
                    },
                ),
                Err(error) => Err(WriteErrorView::NotEncodable { name: reg.name@, error }),
            }
        }
    }
}

/// Turns a request to write `text` to row `index` into a write, or refuses it:
/// the row has to exist, be writable and a holding register, and hold the text.
pub fn plan_write(
    regs: &Vec<RegisterConfig>,
    index: usize,
    text: &str,
    floats: FloatText,
    default_unit_id: u8,
) -> (plan: Result<WriteRequest, WriteError>)
    ensures
        match plan {
            Ok(request) => planned_write(regs@, index, text@, floats, default_unit_id) == Ok::<
                WriteView,
                WriteErrorView,
            >(request@),
            Err(error) => planned_write(regs@, index, text@, floats, default_unit_id) == Err::<
                WriteView,
                WriteErrorView,
            >(error@),
        },
        plan matches Ok(request) ==> {
            let reg = regs@[index as int];
            &&& index < regs@.len()
            &&& reg.writable
            &&& reg.register_type == RegisterType::Holding
            &&& request.address == reg.address
            &&& request.unit_id == (match reg.unit_id {
                Some(id) => id,
                None => default_unit_id,
            })
            &&& encoded(reg, text@, floats) == Ok::<Seq<u16>, EncodeError>(request.words@)
        },
{
    if index >= regs.len() {
        return Err(WriteError::InvalidIndex { index });
    }
    let reg = &regs[index];
    if !reg.writable {
        return Err(WriteError::NotWritable { name: reg.name.clone() });
    }
    if reg.register_type != RegisterType::Holding {
        return Err(WriteError::NotHolding { name: reg.name.clone() });
    }
    match encode_value(reg, text, floats) {
        Ok(words) => Ok(
            WriteRequest {
                unit_id: effective_unit_id(reg, default_unit_id),
                address: reg.address,
                words,
            },
        ),
        Err(error) => Err(WriteError::NotEncodable { name: reg.name.clone(), error }),
    }
}

/// Only a writable holding register is ever written, at its own address and
/// unit, with exactly the words that it is read as.
pub proof fn law_write_is_permitted(
    regs: Seq<RegisterConfig>,
    index: usize,
    text: Seq<char>,
    floats: FloatText,
    default_unit_id: u8,
)
    ensures
        planned_write(regs, index, text, floats, default_unit_id) matches Ok(request) ==> {
            let reg = regs[index as int];
            &&& index < regs.len()
            &&& reg.writable
            &&& reg.register_type == RegisterType::Holding
            &&& request.address == reg.address
            &&& request.unit_id == unit_of(reg, default_unit_id)
            &&& request.words.len() == word_count(reg)
        },
{
}

/// A write uses the function for a single register exactly where the type of
/// the row is one word wide.
pub proof fn law_write_function_by_width(
    regs: Seq<RegisterConfig>,
    index: usize,
    text: Seq<char>,
    floats: FloatText,
    default_unit_id: u8,
)
    ensures
        planned_write(regs, index, text, floats, default_unit_id) matches Ok(request) ==> (
        is_single(request) <==> word_count(regs[index as int]) == 1),
{
}

} // verus!
