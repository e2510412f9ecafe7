//! The window of the explorer: what it shows, and what it asks of the worker.

use crate::explorer_config::{endpoint, endpoint_text, ExplorerConfig};
use crate::registers::{
    effective_unit_id, unit_of, DataType, Reading, ReadingView, RegisterConfig, RegisterType,
};
use crate::rows::{
    blank_row, blank_rows, rows_view, EventView, RowState, RowView, WorkerEvent,
};
use crate::text::{decimal, decimal_text, trim, trimmed};
use vstd::prelude::*;
use vstd::string::StringExecFns;

verus! {

broadcast use vstd::string::group_string_axioms;

/// The state of the window.
#[derive(Debug)]
pub struct ExplorerApp {
    pub cfg: ExplorerConfig,
    pub rows: Vec<RowState>,
    /// What the user has typed, one text for each register.
    pub write_inputs: Vec<String>,
    pub status_line: String,
    pub status_error: bool,
}

/// The state of the window, with texts as characters.
pub struct ExplorerView {
    pub cfg: ExplorerConfig,
    pub rows: Seq<RowView>,
    pub write_inputs: Seq<Seq<char>>,
    pub status_line: Seq<char>,
    pub status_error: bool,
}

/// Texts as characters.
pub open spec fn texts_view(texts: Seq<String>) -> Seq<Seq<char>> {
    Seq::new(texts.len(), |i: int| texts[i]@)
}

impl View for ExplorerApp {
    type V = ExplorerView;

    open spec fn view(&self) -> ExplorerView {
        ExplorerView {
            cfg: self.cfg,
            rows: rows_view(self.rows@),
            write_inputs: texts_view(self.write_inputs@),
            status_line: self.status_line@,
            status_error: self.status_error,
        }
    }
}

/// The window at its start.
pub open spec fn new_window(cfg: ExplorerConfig) -> ExplorerView {
    let count = cfg.registers@.len();
    ExplorerView {
        cfg,
        rows: Seq::new(count, |i: int| blank_row()),
        write_inputs: Seq::new(count, |i: int| Seq::empty()),
        status_line: "Connecting..."@,
        status_error: false,
    }
}

/// What an event of the worker does to the window. A snapshot without rows
/// leaves the rows as they are.
pub open spec fn after_event(v: ExplorerView, event: EventView) -> ExplorerView {
    match event {
        EventView::Snapshot { rows, connection_error } => ExplorerView {
            rows: if rows.len() == 0 {
                v.rows
            } else {
                rows
            },
            status_line: match connection_error {
                Some(error) => "Connection/Read issue: "@ + error,
                None => "Connected and polling"@,
            },
            status_error: connection_error is Some,
            ..v
        },
        EventView::WriteResult { register_name, result } => ExplorerView {
            status_line: match result {
                Ok(()) => "Write OK: "@ + register_name,
                Err(error) => "Write FAILED: "@ + register_name + ": "@ + error,
            },
            status_error: result is Err,
            ..v
        },
    }
}

/// The line about the device.
pub open spec fn heading_text(cfg: ExplorerConfig) -> Seq<char> {
    "Target: "@ + endpoint_text(cfg.tcp.host@, cfg.tcp.port) + " | Slave: "@ + decimal(
        cfg.tcp.unit_id as nat,
    ) + " | Poll: "@ + decimal(cfg.tcp.poll_interval_ms as nat) + " ms"@
}

/// The name of a data type.
pub open spec fn data_type_name(data_type: DataType) -> Seq<char> {
    match data_type {
        DataType::U16 => "U16"@,
        DataType::I16 => "I16"@,
        DataType::U32 => "U32"@,
        DataType::I32 => "I32"@,
        DataType::U64 => "U64"@,
        DataType::F32 => "F32"@,
        DataType::F64 => "F64"@,
        DataType::Bool => "Bool"@,
        DataType::String => "String"@,
    }
}

/// The name of a register table.
pub open spec fn register_type_name(register_type: RegisterType) -> Seq<char> {
    match register_type {
        RegisterType::Holding => "Holding"@,
        RegisterType::Input => "Input"@,
    }
}

/// Words in decimal, with commas between them.
pub open spec fn words_listed(words: Seq<u16>) -> Seq<char>
    decreases words.len(),
{
    if words.len() == 0 {
        Seq::empty()
    } else if words.len() == 1 {
        decimal(words[0] as nat)
    } else {
        words_listed(words.drop_last()) + ", "@ + decimal(words.last() as nat)
    }
}

/// The raw words of a row as they are shown.
pub open spec fn raw_text(words: Seq<u16>) -> Seq<char> {
    "["@ + words_listed(words) + "]"@
}

/// What the table shows of a row.
#[derive(Debug, PartialEq, Eq)]
pub struct RowCells {
    pub name: String,
    pub address: String,
    pub data_type: String,
    pub register_type: String,
    pub slave: String,
    pub unit: String,
    pub value: Reading,
    /// The error, or else the raw words.
    pub detail: String,
    pub detail_is_error: bool,
    pub writable: bool,
}

/// What the table shows of a row, with texts as characters.
pub struct CellsView {
    pub name: Seq<char>,
    pub address: Seq<char>,
    pub data_type: Seq<char>,
    pub register_type: Seq<char>,
    pub slave: Seq<char>,
    pub unit: Seq<char>,
    pub value: ReadingView,
    pub detail: Seq<char>,
    pub detail_is_error: bool,
    pub writable: bool,
}

impl View for RowCells {
    type V = CellsView;

    open spec fn view(&self) -> CellsView {
        CellsView {
            name: self.name@,
            address: self.address@,
            data_type: self.data_type@,
            register_type: self.register_type@,
            slave: self.slave@,
            unit: self.unit@,
            value: self.value@,
            detail: self.detail@,
            detail_is_error: self.detail_is_error,
            writable: self.writable,
        }
    }
}

/// What the table shows of a register and its row.
pub open spec fn cells_of(reg: RegisterConfig, row: RowView, default_unit_id: u8) -> CellsView {
    CellsView {
        name: reg.name@,
        address: decimal(reg.address as nat),
        data_type: data_type_name(reg.data_type),
        register_type: register_type_name(reg.register_type),
        slave: decimal(unit_of(reg, default_unit_id) as nat),
        unit: match reg.unit {
            Some(unit) => unit@,
            None => "-"@,
        },
        value: row.value,
        detail: match row.error {
            Some(error) => error,
            None => raw_text(row.raw),
        },
        detail_is_error: row.error is Some,
        writable: reg.writable,
    }
}

/// Row `index`, or a blank one where there is none.
pub open spec fn row_at(rows: Seq<RowView>, index: int) -> RowView {
    if index < rows.len() {
        rows[index]
    } else {
        blank_row()
    }
}

impl DataType {
    /// The name of the type.
    pub fn label(&self) -> (name: String)
        ensures
            name@ == data_type_name(*self),
    {
        match self {
            DataType::U16 => "U16".to_owned(),
            DataType::I16 => "I16".to_owned(),
            DataType::U32 => "U32".to_owned(),
            DataType::I32 => "I32".to_owned(),
            DataType::U64 => "U64".to_owned(),
            DataType::F32 => "F32".to_owned(),
            DataType::F64 => "F64".to_owned(),
            DataType::Bool => "Bool".to_owned(),
            DataType::String => "String".to_owned(),
        }
    }
}

impl RegisterType {
    /// The name of the table.
    pub fn label(&self) -> (name: String)
        ensures
            name@ == register_type_name(*self),
    {
        match self {
            RegisterType::Holding => "Holding".to_owned(),
            RegisterType::Input => "Input".to_owned(),
        }
    }
}

/// The raw words of a row as they are shown.
pub fn show_words(words: &Vec<u16>) -> (text: String)
    ensures
        text@ == raw_text(words@),
{
    let mut list = String::new();
    for i in 0..words.len()
        invariant
            list@ == words_listed(words@.take(i as int)),
    {
        if i > 0 {
            list.append(", ");
        }
        list.append(decimal_text(words[i] as u64).as_str());
        assert(words@.take(i + 1).drop_last() =~= words@.take(i as int));
        assert(i == 0 ==> list@ =~= words_listed(words@.take(1)));
    }
    assert(words@.take(words@.len() as int) =~= words@);
    let mut text = "[".to_owned();
    text.append(list.as_str());
    text.append("]");
    text
}

impl ExplorerApp {
    /// A window that has heard nothing from the worker yet.
    pub fn new(cfg: ExplorerConfig) -> (app: Self)
        ensures
            app@ == new_window(cfg),
    {
        let count = cfg.registers.len();
        let mut write_inputs: Vec<String> = Vec::new();
        for i in 0..count
            invariant
                write_inputs@.len() == i,
                forall|j: int| 0 <= j < i ==> (#[trigger] write_inputs@[j])@ == Seq::<char>::empty(),
        {
            write_inputs.push(String::new());
        }
        let app = ExplorerApp {
            cfg,
            rows: blank_rows(count),
            write_inputs,
            status_line: "Connecting...".to_owned(),
            status_error: false,
        };
        assert(app@.write_inputs =~= new_window(cfg).write_inputs);
        app
    }

    /// Takes in an event of the worker.
    pub fn apply(&mut self, event: WorkerEvent)
        ensures
            final(self)@ == after_event(old(self)@, event@),
    {
        match event {
            WorkerEvent::Snapshot { rows, connection_error } => {
                if rows.len() > 0 {
                    self.rows = rows;
                }
                match connection_error {
                    Some(error) => {
                        let mut line = "Connection/Read issue: ".to_owned();
                        line.append(error.as_str());
                        self.status_line = line;
                        self.status_error = true;
                    },
                    None => {
                        self.status_line = "Connected and polling".to_owned();
                        self.status_error = false;
                    },
                }
            },
            WorkerEvent::WriteResult { register_name, result } => match result {
                Ok(()) => {
                    let mut line = "Write OK: ".to_owned();
                    line.append(register_name.as_str());
                    self.status_line = line;
                    self.status_error = false;
                },
                Err(error) => {
                    let mut line = "Write FAILED: ".to_owned();
                    line.append(register_name.as_str());
                    line.append(": ");
                    line.append(error.as_str());
                    self.status_line = line;
                    self.status_error = true;
                },
            },
        }
    }

    /// The text to be written to row `index`, if the user typed any; otherwise
    /// the status line says that there is none.
    pub fn request_write(&mut self, index: usize) -> (text: Option<String>)
        requires
            index < old(self)@.write_inputs.len(),
            index < old(self)@.cfg.registers@.len(),
        ensures
            ({
                let typed = trimmed(old(self)@.write_inputs[index as int]);
                let name = old(self)@.cfg.registers@[index as int].name@;
                if typed.len() == 0 {
                    &&& text is None
                    &&& final(self)@ == ExplorerView {
                        status_line: "Write skipped for "@ + name + ": empty value"@,
                        status_error: true,
                        ..old(self)@
                    }
                } else {
                    &&& text matches Some(t) && t@ == typed
                    &&& final(self)@ == old(self)@
                }
            }),
    {
        let typed = trim(self.write_inputs[index].as_str());
        if typed.is_empty() {
            let mut line = "Write skipped for ".to_owned();
            line.append(self.cfg.registers[index].name.as_str());
            line.append(": empty value");
            self.status_line = line;
            self.status_error = true;
            None
        } else {
            Some(typed.to_owned())
        }
    }

    /// The line about the device.
    pub fn heading(&self) -> (text: String)
        ensures
            text@ == heading_text(self@.cfg),
    {
        let tcp = &self.cfg.tcp;
        let mut text = "Target: ".to_owned();
        text.append(endpoint(tcp.host.as_str(), tcp.port).as_str());
        text.append(" | Slave: ");
        text.append(decimal_text(tcp.unit_id as u64).as_str());
        text.append(" | Poll: ");
        text.append(decimal_text(tcp.poll_interval_ms).as_str());
        text.append(" ms");
        text
    }

    /// What the table shows of row `index`.
    pub fn cells(&self, index: usize) -> (cells: RowCells)
        requires
            index < self@.cfg.registers@.len(),
        ensures
            cells@ == cells_of(
                self@.cfg.registers@[index as int],
                row_at(self@.rows, index as int),
                self@.cfg.tcp.unit_id,
            ),
    {
        let reg = &self.cfg.registers[index];
        let row = if index < self.rows.len() {
            self.rows[index].duplicate()
        } else {
            RowState::default()
        };
        let detail_is_error = row.error.is_some();
        let detail = match &row.error {
            Some(error) => error.clone(),
            None => show_words(&row.raw),
        };
        RowCells {
            name: reg.name.clone(),
            address: decimal_text(reg.address as u64),
            data_type: reg.data_type.label(),
            register_type: reg.register_type.label(),
            slave: decimal_text(effective_unit_id(reg, self.cfg.tcp.unit_id) as u64),
            unit: match &reg.unit {
                Some(unit) => unit.clone(),
                None => "-".to_owned(),
            },
            value: row.value,
            detail,
            detail_is_error,
            writable: reg.writable,
        }
    }
}

/// The window after a number of events.
pub open spec fn after_events(v: ExplorerView, events: Seq<EventView>) -> ExplorerView
    decreases events.len(),
{
    if events.len() == 0 {
        v
    } else {
        after_event(after_events(v, events.drop_last()), events.last())
    }
}

/// Whether an event has a row for each of `count` registers, or no rows.
pub open spec fn event_fits(event: EventView, count: nat) -> bool {
    match event {
        EventView::Snapshot { rows, .. } => rows.len() == 0 || rows.len() == count,
        EventView::WriteResult { .. } => true,
    }
}

/// The window keeps a row and an input for each register, whatever the worker
/// tells it, and events touch neither the inputs nor the configuration.
pub proof fn law_window_stays_complete(cfg: ExplorerConfig, events: Seq<EventView>)
    requires
        forall|i: int|
            0 <= i < events.len() ==> event_fits(#[trigger] events[i], cfg.registers@.len()),
    ensures
        ({
            let v = after_events(new_window(cfg), events);
            &&& v.cfg == cfg
            &&& v.rows.len() == cfg.registers@.len()
            &&& v.write_inputs == new_window(cfg).write_inputs
        }),
    decreases events.len(),
{
    if events.len() > 0 {
        let before = events.drop_last();
        assert forall|i: int| 0 <= i < before.len() implies event_fits(
            #[trigger] before[i],
            cfg.registers@.len(),
        ) by {
            assert(event_fits(events[i], cfg.registers@.len()));
        }
        assert(event_fits(events[events.len() - 1], cfg.registers@.len()));
        law_window_stays_complete(cfg, before);
    }
}

} // verus!
