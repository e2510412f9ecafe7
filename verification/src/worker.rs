//! The worker of the explorer: connects, polls the rows, writes, and reports.

use crate::encoding::FloatText;
use crate::explorer_config::{poll_wait, poll_wait_ms, ExplorerConfig};
use crate::registers::{decode_value, decoded, RegisterConfig};
use crate::rows::{
    blank_row, blank_rows, copy_rows, copy_text, rows_view, text_view, EventView, RowState,
    RowView, WorkerEvent,
};
use crate::text::{decimal, decimal_text};
use crate::transfer::{
    failure_text, is_illegal_address, is_transport_error, plan_write, planned_write, read_failure,
    read_of, read_request, says_illegal_address, says_transport_error, second_failure_text,
    second_read_failure, second_read_of, second_read_request, write_error_text, write_failure,
    ReadRequest, WriteRequest, WriteView,
};
use crate::words::decode_error_text;
use vstd::prelude::*;
use vstd::string::StringExecFns;

verus! {

broadcast use vstd::string::group_string_axioms;

/// Why no connection could be made.
#[derive(Debug, Clone, Copy, PartialEq, Eq, Structural)]
pub enum ConnectError {
    InvalidEndpoint,
    Timeout,
    Failed,
}

/// What is shown to the user where no connection could be made.
pub open spec fn connect_error_text(error: ConnectError) -> Seq<char> {
    match error {
        ConnectError::InvalidEndpoint => "Invalid host/port in config"@,
        ConnectError::Timeout => "Connection timeout"@,
        ConnectError::Failed => "Modbus connect failed"@,
    }
}

impl ConnectError {
    /// What is shown to the user.
    pub fn message(&self) -> (text: String)
        ensures
            text@ == connect_error_text(*self),
    {
        match self {
            ConnectError::InvalidEndpoint => "Invalid host/port in config".to_owned(),
            ConnectError::Timeout => "Connection timeout".to_owned(),
            ConnectError::Failed => "Modbus connect failed".to_owned(),
        }
    }
}

/// What happened to the worker.
#[derive(Debug, PartialEq, Eq)]
pub enum WorkerInput {
    /// The window asks for a write. `floats` is what the trimmed text denotes
    /// as a floating-point number.
    Command { index: usize, value_text: String, floats: FloatText },
    /// No command came in time.
    PollDue,
    /// The window is gone.
    Closed,
    /// The connection stands.
    Connected,
    /// No connection could be made.
    ConnectFailed { error: ConnectError },
    /// A read gave these words, at this time.
    Words { words: Vec<u16>, now: u64 },
    /// A read failed, with this error.
    ReadFailed { message: String },
    /// A write was done.
    WriteDone,
    /// A write failed.
    WriteFailed,
}

/// What happened to the worker, with texts as characters.
pub enum InputView {
    Command { index: usize, value_text: Seq<char>, floats: FloatText },
    PollDue,
    Closed,
    Connected,
    ConnectFailed { error: ConnectError },
    Words { words: Seq<u16>, now: u64 },
    ReadFailed { message: Seq<char> },
    WriteDone,
    WriteFailed,
}

impl View for WorkerInput {
    type V = InputView;

    open spec fn view(&self) -> InputView {
        match self {
            WorkerInput::Command { index, value_text, floats } => InputView::Command {
                index: *index,
                value_text: value_text@,
                floats: *floats,
            },
            WorkerInput::PollDue => InputView::PollDue,
            WorkerInput::Closed => InputView::Closed,
            WorkerInput::Connected => InputView::Connected,
            WorkerInput::ConnectFailed { error } => InputView::ConnectFailed { error: *error },
            WorkerInput::Words { words, now } => InputView::Words { words: words@, now: *now },
            WorkerInput::ReadFailed { message } => InputView::ReadFailed { message: message@ },
            WorkerInput::WriteDone => InputView::WriteDone,
            WorkerInput::WriteFailed => InputView::WriteFailed,
        }
    }
}

/// What the worker has to do next.
#[derive(Debug, PartialEq, Eq)]
pub enum WorkerAction {
    /// Wait for a command, for at most this time.
    Wait { timeout_ms: u64 },
    /// Connect to the device.
    Connect,
    /// Read registers.
    Read(ReadRequest),
    /// Write registers.
    Write(WriteRequest),
    /// End.
    Stop,
}

/// What the worker has to do next, with words as sequences.
pub enum ActionView {
    Wait { timeout_ms: u64 },
    Connect,
    Read(ReadRequest),
    Write(WriteView),
    Stop,
}

impl View for WorkerAction {
    type V = ActionView;

    open spec fn view(&self) -> ActionView {
        match self {
            WorkerAction::Wait { timeout_ms } => ActionView::Wait { timeout_ms: *timeout_ms },
            WorkerAction::Connect => ActionView::Connect,
            WorkerAction::Read(request) => ActionView::Read(*request),
            WorkerAction::Write(request) => ActionView::Write(request@),
            WorkerAction::Stop => ActionView::Stop,
        }
    }
}

/// What the worker is waiting for.
#[derive(Debug)]
enum Phase {
    Waiting,
    ConnectingToWrite { index: usize, value_text: String, floats: FloatText },
    ConnectingToPoll,
    Writing { index: usize, request: WriteRequest },
    Reading { index: usize, first_error: Option<String>, lost: bool },
    Stopped,
}

/// What the worker is waiting for, with texts as characters.
pub enum PhaseView {
    /// A command, or the time to poll.
    Waiting,
    /// The connection, for a write.
    ConnectingToWrite { index: usize, value_text: Seq<char>, floats: FloatText },
    /// The connection, for a poll.
    ConnectingToPoll,
    /// The end of a write to row `index`.
    Writing { index: usize, request: WriteView },
    /// The words of row `index`. `first_error` is the error of the first read
    /// where this is the second; `lost` tells whether a read of this poll
    /// found the connection gone.
    Reading { index: usize, first_error: Option<Seq<char>>, lost: bool },
    /// Nothing more.
    Stopped,
}

impl View for Phase {
    type V = PhaseView;

    closed spec fn view(&self) -> PhaseView {
        match self {
            Phase::Waiting => PhaseView::Waiting,
            Phase::ConnectingToWrite { index, value_text, floats } => PhaseView::ConnectingToWrite {
                index: *index,
                value_text: value_text@,
                floats: *floats,
            },
            Phase::ConnectingToPoll => PhaseView::ConnectingToPoll,
            Phase::Writing { index, request } => PhaseView::Writing {
                index: *index,
                request: request@,
            },
            Phase::Reading { index, first_error, lost } => PhaseView::Reading {
                index: *index,
                first_error: text_view(*first_error),
                lost: *lost,
            },
            Phase::Stopped => PhaseView::Stopped,
        }
    }
}

/// The worker.
#[derive(Debug)]
pub struct Worker {
    cfg: ExplorerConfig,
    rows: Vec<RowState>,
    connected: bool,
    connection_error: Option<String>,
    phase: Phase,
}

/// The state of the worker.
pub struct WorkerView {
    /// The configuration, which never changes.
    pub cfg: ExplorerConfig,
    /// One row for each register.
    pub rows: Seq<RowView>,
    /// Whether there is a connection.
    pub connected: bool,
    /// What is wrong with the connection.
    pub connection_error: Option<Seq<char>>,
    /// What the worker is waiting for.
    pub phase: PhaseView,
}

impl View for Worker {
    type V = WorkerView;

    closed spec fn view(&self) -> WorkerView {
        WorkerView {
            cfg: self.cfg,
            rows: rows_view(self.rows@),
            connected: self.connected,
            connection_error: text_view(self.connection_error),
            phase: self.phase@,
        }
    }
}

impl WorkerView {
    /// Every register has its row, and the transfer under way belongs to a register.
    pub open spec fn wf(self) -> bool {
        &&& self.rows.len() == self.cfg.registers@.len()
        &&& match self.phase {
            PhaseView::Reading { index, .. } => index < self.rows.len() && self.connected,
            PhaseView::Writing { index, .. } => index < self.rows.len() && self.connected,
            PhaseView::ConnectingToPoll => !self.connected,
            PhaseView::ConnectingToWrite { .. } => !self.connected,
            _ => true,
        }
    }
}

/// The worker at its start.
pub open spec fn new_worker(cfg: ExplorerConfig) -> WorkerView {
    WorkerView {
        cfg,
        rows: Seq::new(cfg.registers@.len(), |i: int| blank_row()),
        connected: false,
        connection_error: None,
        phase: PhaseView::Waiting,
    }
}

/// What the worker has to do next.
pub open spec fn action_of(w: WorkerView) -> ActionView {
    match w.phase {
        PhaseView::Waiting => ActionView::Wait { timeout_ms: poll_wait(w.cfg.tcp) },
        PhaseView::ConnectingToWrite { .. } | PhaseView::ConnectingToPoll => ActionView::Connect,
        PhaseView::Writing { request, .. } => ActionView::Write(request),
        PhaseView::Reading { index, first_error, .. } => ActionView::Read(
            if first_error is None {
                read_of(w.cfg.registers@[index as int], w.cfg.tcp.unit_id)
            } else {
                second_read_of(w.cfg.registers@[index as int], w.cfg.tcp.unit_id)
            },
        ),
        PhaseView::Stopped => ActionView::Stop,
    }
}

/// A state of the worker, and what it reports on the way there.
pub type Outcome = (WorkerView, Option<EventView>);

/// The name by which a row is reported.
pub open spec fn row_name(regs: Seq<RegisterConfig>, index: usize) -> Seq<char> {
    if index < regs.len() {
        regs[index as int].name@
    } else {
        "#"@ + decimal(index as nat)
    }
}

/// The report on a write.
pub open spec fn write_report(w: WorkerView, index: usize, result: Result<(), Seq<char>>) -> Option<
    EventView,
> {
    Some(
        EventView::WriteResult { register_name: row_name(w.cfg.registers@, index), result },
    )
}

/// A write begins, or is refused.
pub open spec fn begin_write(
    w: WorkerView,
    index: usize,
    value_text: Seq<char>,
    floats: FloatText,
) -> Outcome {
    match planned_write(w.cfg.registers@, index, value_text, floats, w.cfg.tcp.unit_id) {
        Ok(request) => (WorkerView { phase: PhaseView::Writing { index, request }, ..w }, None),
        Err(error) => (
            WorkerView { phase: PhaseView::Waiting, ..w },
            write_report(w, index, Err(write_error_text(error))),
        ),
    }
}

/// The worker waits again, after a poll whose rows it reports.
pub open spec fn report_rows(w: WorkerView) -> Outcome {
    (
        WorkerView { phase: PhaseView::Waiting, ..w },
        Some(EventView::Snapshot { rows: w.rows, connection_error: w.connection_error }),
    )
}

/// A poll ends. The connection is given up only where it was found gone.
pub open spec fn end_poll(w: WorkerView, lost: bool) -> Outcome {
    if lost {
        report_rows(
            WorkerView {
                connected: false,
                connection_error: Some("Transport read error; reconnecting"@),
                ..w
            },
        )
    } else {
        report_rows(WorkerView { connection_error: None, ..w })
    }
}

/// The rows from `index` on are read.
pub open spec fn read_from(w: WorkerView, index: int, lost: bool) -> Outcome {
    if index < w.cfg.registers@.len() {
        (
            WorkerView {
                phase: PhaseView::Reading { index: index as usize, first_error: None, lost },
                ..w
            },
            None,
        )
    } else {
        end_poll(w, lost)
    }
}

/// A row after its words were read: a value that does not decode stays as it was.
pub open spec fn row_read(reg: RegisterConfig, row: RowView, words: Seq<u16>, now: u64) -> RowView {
    match decoded(reg, words) {
        Ok(value) => RowView { value, raw: words, error: None, last_updated: Some(now) },
        Err(error) => RowView {
            value: row.value,
            raw: words,
            error: Some(decode_error_text(error)),
            last_updated: Some(now),
        },
    }
}

/// The state with another row.
pub open spec fn with_row(w: WorkerView, index: int, row: RowView) -> WorkerView {
    WorkerView { rows: w.rows.update(index, row), ..w }
}

/// Whether a row that could not be read tells that the connection is gone: by
/// the last error, or by that of the first read where there were two.
pub open spec fn read_lost(first_error: Option<Seq<char>>, message: Seq<char>) -> bool {
    says_transport_error(message) || (first_error is Some && says_transport_error(first_error->0))
}

/// What an input does to the worker. One that the worker is not waiting for does nothing.
pub open spec fn stepped(w: WorkerView, input: InputView) -> Outcome {
    match (w.phase, input) {
        (PhaseView::Waiting, InputView::Command { index, value_text, floats }) => if w.connected {
            begin_write(w, index, value_text, floats)
        } else {
            (
                WorkerView {
                    phase: PhaseView::ConnectingToWrite { index, value_text, floats },
                    ..w
                },
                None,
            )
        },
        (PhaseView::Waiting, InputView::PollDue) => if w.connected {
            read_from(w, 0, false)
        } else {
            (WorkerView { phase: PhaseView::ConnectingToPoll, ..w }, None)
        },
        (PhaseView::Waiting, InputView::Closed) => (
            WorkerView { phase: PhaseView::Stopped, ..w },
            None,
        ),
        (PhaseView::ConnectingToWrite { index, value_text, floats }, InputView::Connected) => {
            begin_write(
                WorkerView { connected: true, connection_error: None, ..w },
                index,
                value_text,
                floats,
            )
        },
        (PhaseView::ConnectingToWrite { index, .. }, InputView::ConnectFailed { error }) => (
            WorkerView {
                connection_error: Some(connect_error_text(error)),
                phase: PhaseView::Waiting,
                ..w
            },
            write_report(w, index, Err(connect_error_text(error))),
        ),
        (PhaseView::ConnectingToPoll, InputView::Connected) => read_from(
            WorkerView { connected: true, connection_error: None, ..w },
            0,
            false,
        ),
        (PhaseView::ConnectingToPoll, InputView::ConnectFailed { error }) => report_rows(
            WorkerView { connection_error: Some(connect_error_text(error)), ..w },
        ),
        (PhaseView::Writing { index, .. }, InputView::WriteDone) => (
            WorkerView { phase: PhaseView::Waiting, ..w },
            write_report(w, index, Ok(())),
        ),
        (PhaseView::Writing { index, .. }, InputView::WriteFailed) => (
            WorkerView { phase: PhaseView::Waiting, ..w },
            write_report(
                w,
                index,
                Err(failure_text("Write"@, w.cfg.registers@[index as int], w.cfg.tcp.unit_id)),
            ),
        ),
        (PhaseView::Reading { index, lost, .. }, InputView::Words { words, now }) => {
            let reg = w.cfg.registers@[index as int];
            let row = row_read(reg, w.rows[index as int], words, now);
            read_from(with_row(w, index as int, row), index + 1, lost)
        },
        (PhaseView::Reading { index, first_error, lost }, InputView::ReadFailed { message }) => {
            let reg = w.cfg.registers@[index as int];
            if first_error is None && says_illegal_address(message) {
                (
                    WorkerView {
                        phase: PhaseView::Reading { index, first_error: Some(message), lost },
                        ..w
                    },
                    None,
                )
            } else {
                let text = match first_error {
                    Some(first) => second_failure_text(reg, w.cfg.tcp.unit_id, first),
                    None => failure_text("Read"@, reg, w.cfg.tcp.unit_id),
                };
                let row = RowView { error: Some(text), ..w.rows[index as int] };
                read_from(
                    with_row(w, index as int, row),
                    index + 1,
                    lost || read_lost(first_error, message),
                )
            }
        },
        _ => (w, None),
    }
}

/// The characters of an optional event.
pub open spec fn event_view(event: Option<WorkerEvent>) -> Option<EventView> {
    match event {
        Some(e) => Some(e@),
        None => None,
    }
}

/// The event of a worker that cannot start, which has no rows.
pub fn start_failure(cause: &str) -> (event: WorkerEvent)
    ensures
        event@ == (EventView::Snapshot {
            rows: Seq::empty(),
            connection_error: Some("Failed to start worker runtime: "@ + cause@),
        }),
{
    let mut text = "Failed to start worker runtime: ".to_owned();
    text.append(cause);
    let rows: Vec<RowState> = Vec::new();
    assert(rows_view(rows@) =~= Seq::<RowView>::empty());
    WorkerEvent::Snapshot { rows, connection_error: Some(text) }
}

impl Worker {
    /// A worker that is not connected yet.
    pub fn new(cfg: ExplorerConfig) -> (worker: Self)
        ensures
            worker@ == new_worker(cfg),
            worker@.wf(),
    {
        let count = cfg.registers.len();
        Worker {
            cfg,
            rows: blank_rows(count),
            connected: false,
            connection_error: None,
            phase: Phase::Waiting,
        }
    }

    /// What has to be done next.
    pub fn next_action(&self) -> (action: WorkerAction)
        requires
            self@.wf(),
        ensures
            action@ == action_of(self@),
    {
        match &self.phase {
            Phase::Waiting => WorkerAction::Wait { timeout_ms: poll_wait_ms(&self.cfg.tcp) },
            Phase::ConnectingToWrite { .. } | Phase::ConnectingToPoll => WorkerAction::Connect,
            Phase::Writing { request, .. } => WorkerAction::Write(request.duplicate()),
            Phase::Reading { index, first_error, .. } => {
                let reg = &self.cfg.registers[*index];
                if first_error.is_none() {
                    WorkerAction::Read(read_request(reg, self.cfg.tcp.unit_id))
                } else {
                    WorkerAction::Read(second_read_request(reg, self.cfg.tcp.unit_id))
                }
            },
            Phase::Stopped => WorkerAction::Stop,
        }
    }

    /// Whether there is a connection.
    pub fn is_connected(&self) -> (connected: bool)
        ensures
            connected == self@.connected,
    {
        self.connected
    }

    fn report_write(&self, index: usize, result: Result<(), String>) -> (event: Option<WorkerEvent>)
        ensures
            event_view(event) == write_report(
                self@,
                index,
                match result {
                    Ok(()) => Ok(()),
                    Err(message) => Err(message@),
                },
            ),
    {
        let register_name = if index < self.cfg.registers.len() {
            self.cfg.registers[index].name.clone()
        } else {
            let mut name = "#".to_owned();
            name.append(decimal_text(index as u64).as_str());
            name
        };
        Some(WorkerEvent::WriteResult { register_name, result })
    }

    fn start_write(&mut self, index: usize, value_text: &str, floats: FloatText) -> (event: Option<
        WorkerEvent,
    >)
        requires
            old(self)@.rows.len() == old(self)@.cfg.registers@.len(),
            old(self)@.connected,
        ensures
            (final(self)@, event_view(event)) == begin_write(
                old(self)@,
                index,
                value_text@,
                floats,
            ),
            final(self)@.wf(),
    {
        match plan_write(&self.cfg.registers, index, value_text, floats, self.cfg.tcp.unit_id) {
            Ok(request) => {
                self.phase = Phase::Writing { index, request };
                None
            },
            Err(error) => {
                self.phase = Phase::Waiting;
                self.report_write(index, Err(error.message()))
            },
        }
    }

    fn finish_poll(&mut self) -> (event: Option<WorkerEvent>)
        requires
            old(self)@.rows.len() == old(self)@.cfg.registers@.len(),
        ensures
            (final(self)@, event_view(event)) == report_rows(old(self)@),
            final(self)@.wf(),
    {
        self.phase = Phase::Waiting;
        Some(
            WorkerEvent::Snapshot {
                rows: copy_rows(&self.rows),
                connection_error: copy_text(&self.connection_error),
            },
        )
    }

    fn continue_poll(&mut self, index: usize, lost: bool) -> (event: Option<WorkerEvent>)
        requires
            old(self)@.rows.len() == old(self)@.cfg.registers@.len(),
            old(self)@.connected,
        ensures
            (final(self)@, event_view(event)) == read_from(old(self)@, index as int, lost),
            final(self)@.wf(),
    {
        if index < self.cfg.registers.len() {
            self.phase = Phase::Reading { index, first_error: None, lost };
            None
        } else {
            if lost {
                self.connected = false;
                self.connection_error = Some("Transport read error; reconnecting".to_owned());
            } else {
                self.connection_error = None;
            }
            self.finish_poll()
        }
    }

    /// Takes in what happened, and reports what the window has to know. An
    /// input that the worker is not waiting for does nothing.
    pub fn step(&mut self, input: WorkerInput) -> (event: Option<WorkerEvent>)
        requires
            old(self)@.wf(),
        ensures
            (final(self)@, event_view(event)) == stepped(old(self)@, input@),
            final(self)@.wf(),
    {
        match input {
            WorkerInput::Command { index, value_text, floats } => self.on_command(
                index,
                value_text,
                floats,
            ),
            WorkerInput::PollDue => self.on_poll_due(),
            WorkerInput::Closed => {
                if let Phase::Waiting = self.phase {
                    self.phase = Phase::Stopped;
                }
                None
            },
            WorkerInput::Connected => self.on_connected(),
            WorkerInput::ConnectFailed { error } => self.on_connect_failed(error),
            WorkerInput::Words { words, now } => self.on_words(words, now),
            WorkerInput::ReadFailed { message } => self.on_read_failed(message),
            WorkerInput::WriteDone => self.on_write_end(true),
            WorkerInput::WriteFailed => self.on_write_end(false),
        }
    }

    fn on_command(&mut self, index: usize, value_text: String, floats: FloatText) -> (event: Option<
        WorkerEvent,
    >)
        requires
            old(self)@.wf(),
        ensures
            (final(self)@, event_view(event)) == stepped(
                old(self)@,
                InputView::Command { index, value_text: value_text@, floats },
            ),
            final(self)@.wf(),
    {
        if let Phase::Waiting = self.phase {
            if self.connected {
                self.start_write(index, value_text.as_str(), floats)
            } else {
                self.phase = Phase::ConnectingToWrite { index, value_text, floats };
                None
            }
        } else {
            None
        }
    }

    fn on_poll_due(&mut self) -> (event: Option<WorkerEvent>)
        requires
            old(self)@.wf(),
        ensures
            (final(self)@, event_view(event)) == stepped(old(self)@, InputView::PollDue),
            final(self)@.wf(),
    {
        if let Phase::Waiting = self.phase {
            if self.connected {
                self.continue_poll(0, false)
            } else {
                self.phase = Phase::ConnectingToPoll;
                None
            }
        } else {
            None
        }
    }

    fn on_connected(&mut self) -> (event: Option<WorkerEvent>)
        requires
            old(self)@.wf(),
        ensures
            (final(self)@, event_view(event)) == stepped(old(self)@, InputView::Connected),
            final(self)@.wf(),
    {
        let (write, poll) = match &self.phase {
            Phase::ConnectingToWrite { index, value_text, floats } => (
                Some((*index, value_text.clone(), *floats)),
                false,
            ),
            Phase::ConnectingToPoll => (None, true),
            _ => (None, false),
        };
        if let Some((index, value_text, floats)) = write {
            self.connected = true;
            self.connection_error = None;
            self.start_write(index, value_text.as_str(), floats)
        } else if poll {
            self.connected = true;
            self.connection_error = None;
            self.continue_poll(0, false)
        } else {
            None
        }
    }

    fn on_connect_failed(&mut self, error: ConnectError) -> (event: Option<WorkerEvent>)
        requires
            old(self)@.wf(),
        ensures
            (final(self)@, event_view(event)) == stepped(
                old(self)@,
                InputView::ConnectFailed { error },
            ),
            final(self)@.wf(),
    {
        let (write, poll) = match &self.phase {
            Phase::ConnectingToWrite { index, .. } => (Some(*index), false),
            Phase::ConnectingToPoll => (None, true),
            _ => (None, false),
        };
        if let Some(index) = write {
            self.connection_error = Some(error.message());
            self.phase = Phase::Waiting;
            self.report_write(index, Err(error.message()))
        } else if poll {
            self.connection_error = Some(error.message());
            self.finish_poll()
        } else {
            None
        }
    }

    fn on_write_end(&mut self, done: bool) -> (event: Option<WorkerEvent>)
        requires
            old(self)@.wf(),
        ensures
            (final(self)@, event_view(event)) == stepped(
                old(self)@,
                if done {
                    InputView::WriteDone
                } else {
                    InputView::WriteFailed
                },
            ),
            final(self)@.wf(),
    {
        let index: usize = match &self.phase {
            Phase::Writing { index, .. } => *index,
            _ => {
                return None;
            },
        };
        let result = if done {
            Ok(())
        } else {
            Err(write_failure(&self.cfg.registers[index], self.cfg.tcp.unit_id))
        };
        self.phase = Phase::Waiting;
        self.report_write(index, result)
    }

    fn on_words(&mut self, words: Vec<u16>, now: u64) -> (event: Option<WorkerEvent>)
        requires
            old(self)@.wf(),
        ensures
            (final(self)@, event_view(event)) == stepped(
                old(self)@,
                InputView::Words { words: words@, now },
            ),
            final(self)@.wf(),
    {
        let (index, lost) = match &self.phase {
            Phase::Reading { index, lost, .. } => (*index, *lost),
            _ => {
                return None;
            },
        };
        let row = match decode_value(&self.cfg.registers[index], words.as_slice()) {
            Ok(value) => RowState { value, raw: words, error: None, last_updated: Some(now) },
            Err(error) => RowState {
                value: self.rows[index].value.duplicate(),
                raw: words,
                error: Some(error.message()),
                last_updated: Some(now),
            },
        };
        self.rows.set(index, row);
        assert(index < self.rows.len());
        assert(rows_view(self.rows@) =~= old(self)@.rows.update(index as int, row@));
        self.continue_poll(index + 1, lost)
    }

    fn on_read_failed(&mut self, message: String) -> (event: Option<WorkerEvent>)
        requires
            old(self)@.wf(),
        ensures
            (final(self)@, event_view(event)) == stepped(
                old(self)@,
                InputView::ReadFailed { message: message@ },
            ),
            final(self)@.wf(),
    {
        let (index, first_error, lost) = match &self.phase {
            Phase::Reading { index, first_error, lost } => (*index, copy_text(first_error), *lost),
            _ => {
                return None;
            },
        };
        if first_error.is_none() && is_illegal_address(message.as_str()) {
            self.phase = Phase::Reading { index, first_error: Some(message), lost };
            return None;
        }
        let first_lost = match &first_error {
            Some(first) => is_transport_error(first.as_str()),
            None => false,
        };
        let lost_now = lost || is_transport_error(message.as_str()) || first_lost;
        let reg = &self.cfg.registers[index];
        let text = match &first_error {
            Some(first) => second_read_failure(reg, self.cfg.tcp.unit_id, first.as_str()),
            None => read_failure(reg, self.cfg.tcp.unit_id),
        };
        let mut row = self.rows[index].duplicate();
        row.error = Some(text);
        self.rows.set(index, row);
        assert(index < self.rows.len());
        assert(rows_view(self.rows@) =~= old(self)@.rows.update(index as int, row@));
        self.continue_poll(index + 1, lost_now)
    }
}

} // verus!
