//! What each step of the worker does, told of the states before and after.

use crate::encoding::FloatText;
use crate::explorer_config::{poll_wait, ExplorerConfig};
use crate::registers::{decoded, word_count, ReadingView, RegisterConfig};
use crate::rows::{text_view, EventView, RowState, RowView, WorkerEvent};
use crate::text::decimal;
use crate::transfer::{
    planned_write, says_illegal_address, says_transport_error, write_error_text,
};
use crate::words::DecodeError;
use crate::worker::{
    action_of, event_view, new_worker, row_name, stepped, ActionView, ConnectError, InputView,
    PhaseView, WorkerAction, WorkerInput, WorkerView,
};
use vstd::prelude::*;

verus! {

/// A worker begins without a connection or an error, waits, and has a row for
/// each register, of which nothing is known.
pub proof fn law_worker_begins(cfg: ExplorerConfig)
    ensures
        ({
            let w = new_worker(cfg);
            &&& w.cfg == cfg
            &&& !w.connected
            &&& w.connection_error is None
            &&& w.phase is Waiting
            &&& w.rows.len() == cfg.registers@.len()
            &&& forall|i: int|
                0 <= i < w.rows.len() ==> {
                    &&& (#[trigger] w.rows[i]).value == ReadingView::Text("-"@)
                    &&& w.rows[i].raw.len() == 0
                    &&& w.rows[i].error is None
                    &&& w.rows[i].last_updated is None
                }
        }),
{
}

/// Between two polls the worker waits for the configured interval, and for a
/// tenth of a second where that is shorter.
pub proof fn law_waiting_time(w: WorkerView)
    requires
        w.phase is Waiting,
    ensures
        w.cfg.tcp.poll_interval_ms >= 100 ==> action_of(w) == (ActionView::Wait {
            timeout_ms: w.cfg.tcp.poll_interval_ms,
        }),
        w.cfg.tcp.poll_interval_ms < 100 ==> action_of(w) == (ActionView::Wait { timeout_ms: 100 }),
        poll_wait(w.cfg.tcp) >= w.cfg.tcp.poll_interval_ms,
{
}

/// Every read that the worker asks for is for the row that is its turn, with
/// the register table, the unit and the width of that row; the first read is at
/// the address of the row, the second at the next, where there is one.
pub proof fn law_reads_asked_for(w: WorkerView, index: usize, second: bool)
    requires
        w.phase is Reading,
        w.phase->Reading_index == index,
        w.phase->Reading_first_error is Some == second,
    ensures
        ({
            let reg = w.cfg.registers@[index as int];
            &&& action_of(w) is Read
            &&& action_of(w)->Read_0.register_type == reg.register_type
            &&& action_of(w)->Read_0.unit_id == (if reg.unit_id is Some {
                reg.unit_id->0
            } else {
                w.cfg.tcp.unit_id
            })
            &&& action_of(w)->Read_0.quantity == word_count(reg)
            &&& action_of(w)->Read_0.address == (if second && reg.address < 0xFFFF {
                reg.address + 1
            } else {
                reg.address as int
            })
        }),
{
}

/// While it connects the worker asks for the connection, while it writes for
/// the write it has planned, and after its end for nothing more.
pub proof fn law_other_actions(w: WorkerView)
    ensures
        w.phase is ConnectingToWrite || w.phase is ConnectingToPoll ==> action_of(w)
            == ActionView::Connect,
        w.phase matches PhaseView::Writing { request, .. } ==> action_of(w) == ActionView::Write(
            request,
        ),
        w.phase is Stopped ==> action_of(w) == ActionView::Stop,
{
}

/// Whether a step from the reading of row `index` goes on to the next row, or
/// ends the poll with one report of all rows. The connection is given up at the
/// end, and only there, where it was found gone.
pub open spec fn goes_on(
    w: WorkerView,
    after: WorkerView,
    event: Option<EventView>,
    index: int,
    lost: bool,
) -> bool {
    &&& after.cfg == w.cfg
    &&& after.rows.len() == w.rows.len()
    &&& if index + 1 < w.rows.len() {
        &&& event is None
        &&& after.connected == w.connected
        &&& after.connection_error == w.connection_error
        &&& after.phase is Reading
        &&& after.phase->Reading_index == index + 1
        &&& after.phase->Reading_first_error is None
        &&& after.phase->lost == lost
    } else {
        &&& after.phase is Waiting
        &&& after.connected == (w.connected && !lost)
        &&& after.connection_error == (if lost {
            Some("Transport read error; reconnecting"@)
        } else {
            None
        })
        &&& event == Some(
            EventView::Snapshot { rows: after.rows, connection_error: after.connection_error },
        )
    }
}

/// Words that were read become the raw words of the row whose turn it is, with
/// their time. Where they decode, the row shows their value and has no error,
/// whatever error it had before; where not, it keeps its value and has the
/// error of decoding. No other row changes.
pub proof fn law_words_taken_in(w: WorkerView, words: Seq<u16>, now: u64)
    requires
        w.wf(),
        w.phase is Reading,
    ensures
        ({
            let index = w.phase->Reading_index as int;
            let (after, event) = stepped(w, InputView::Words { words, now });
            let row = after.rows[index];
            &&& goes_on(w, after, event, index, w.phase->lost)
            &&& row.raw == words
            &&& row.last_updated == Some(now)
            &&& match decoded(w.cfg.registers@[index], words) {
                Ok(value) => row.value == value && row.error is None,
                Err(DecodeError::NeedTwoWords) => row.value == w.rows[index].value && row.error
                    == Some("Need 2 words for 32-bit value"@),
                Err(DecodeError::NeedFourWords) => row.value == w.rows[index].value && row.error
                    == Some("Need 4 words for 64-bit value"@),
            }
            &&& forall|j: int|
                0 <= j < w.rows.len() && j != index ==> #[trigger] after.rows[j] == w.rows[j]
        }),
{
    assert(w.cfg.registers.len() <= usize::MAX);
}

/// A row after its words were read does not depend on the error that it had.
pub proof fn law_old_errors_are_forgotten(w: WorkerView, words: Seq<u16>, now: u64, before: RowView)
    requires
        w.wf(),
        w.phase is Reading,
        before.value == w.rows[w.phase->Reading_index as int].value,
    ensures
        ({
            let index = w.phase->Reading_index as int;
            let other = WorkerView { rows: w.rows.update(index, before), ..w };
            let input = InputView::Words { words, now };
            stepped(w, input).0.rows[index] == stepped(other, input).0.rows[index]
        }),
{
}

/// An address that does not exist makes the worker read the same row once more
/// and changes nothing else.
pub proof fn law_second_read_begins(w: WorkerView, message: Seq<char>)
    requires
        w.wf(),
        w.phase is Reading,
        w.phase->Reading_first_error is None,
        says_illegal_address(message),
    ensures
        ({
            let (after, event) = stepped(w, InputView::ReadFailed { message });
            &&& event is None
            &&& after.rows == w.rows
            &&& after.cfg == w.cfg
            &&& after.connected == w.connected
            &&& after.connection_error == w.connection_error
            &&& after.phase is Reading
            &&& after.phase->Reading_index == w.phase->Reading_index
            &&& after.phase->Reading_first_error == Some(message)
            &&& after.phase->lost == w.phase->lost
        }),
{
}

/// A row that could not be read has an error that says so and keeps all the
/// rest; no other row changes. The connection counts as gone where one of the
/// errors of the row is one of the transport.
pub proof fn law_failure_taken_in(w: WorkerView, message: Seq<char>)
    requires
        w.wf(),
        w.phase is Reading,
        w.phase->Reading_first_error is Some || !says_illegal_address(message),
    ensures
        ({
            let index = w.phase->Reading_index as int;
            let reg = w.cfg.registers@[index];
            let (after, event) = stepped(w, InputView::ReadFailed { message });
            let row = after.rows[index];
            let unit = decimal(
                (if reg.unit_id is Some {
                    reg.unit_id->0
                } else {
                    w.cfg.tcp.unit_id
                }) as nat,
            );
            let place = "Read failed for '"@ + reg.name@ + "' at "@ + decimal(reg.address as nat);
            let gone = says_transport_error(message) || (w.phase->Reading_first_error is Some
                && says_transport_error(w.phase->Reading_first_error->0));
            &&& goes_on(w, after, event, index, w.phase->lost || gone)
            &&& row.value == w.rows[index].value
            &&& row.raw == w.rows[index].raw
            &&& row.last_updated == w.rows[index].last_updated
            &&& row.error == Some(
                match w.phase->Reading_first_error {
                    None => place + " (slave "@ + unit + ")"@,
                    Some(first) => place + " and fallback "@ + decimal(
                        (if reg.address < 0xFFFF {
                            reg.address + 1
                        } else {
                            0xFFFF
                        }) as nat,
                    ) + " (slave "@ + unit + "): "@ + first,
                },
            )
            &&& forall|j: int|
                0 <= j < w.rows.len() && j != index ==> #[trigger] after.rows[j] == w.rows[j]
        }),
{
    assert(w.cfg.registers.len() <= usize::MAX);
    reveal_strlit("Read failed for '");
    reveal_strlit("Read");
    reveal_strlit(" failed for '");
    assert("Read failed for '"@ =~= "Read"@ + " failed for '"@);
}

/// When the time for a poll has come, a worker that is connected reads the
/// first row, and one that is not connects; rows and errors stay as they are.
pub proof fn law_poll_begins(w: WorkerView)
    requires
        w.wf(),
        w.phase is Waiting,
        w.rows.len() > 0,
    ensures
        ({
            let (after, event) = stepped(w, InputView::PollDue);
            &&& event is None
            &&& after.rows == w.rows
            &&& after.cfg == w.cfg
            &&& after.connected == w.connected
            &&& after.connection_error == w.connection_error
            &&& w.connected ==> after.phase == (PhaseView::Reading {
                index: 0,
                first_error: None,
                lost: false,
            })
            &&& !w.connected ==> after.phase is ConnectingToPoll
        }),
{
}

/// A command to a connected worker is planned at once: it is written as
/// planned, or refused with the reason. Rows and connection stay as they are.
pub proof fn law_command_planned(
    w: WorkerView,
    index: usize,
    value_text: Seq<char>,
    floats: FloatText,
)
    requires
        w.wf(),
        w.phase is Waiting,
        w.connected,
    ensures
        ({
            let plan = planned_write(
                w.cfg.registers@,
                index,
                value_text,
                floats,
                w.cfg.tcp.unit_id,
            );
            let (after, event) = stepped(w, InputView::Command { index, value_text, floats });
            &&& after.rows == w.rows
            &&& after.cfg == w.cfg
            &&& after.connected
            &&& after.connection_error == w.connection_error
            &&& plan matches Ok(request) ==> event is None && action_of(after) == ActionView::Write(
                request,
            ) && after.phase->Writing_index == index
            &&& plan matches Err(error) ==> after.phase is Waiting && event == Some(
                EventView::WriteResult {
                    register_name: row_name(w.cfg.registers@, index),
                    result: Err(write_error_text(error)),
                },
            )
        }),
{
}

/// A command to a worker without a connection waits for it: once connected, the
/// worker does what it would have done with the connection from the start.
pub proof fn law_command_after_connecting(
    w: WorkerView,
    index: usize,
    value_text: Seq<char>,
    floats: FloatText,
)
    requires
        w.wf(),
        w.phase is Waiting,
        !w.connected,
    ensures
        ({
            let command = InputView::Command { index, value_text, floats };
            let (waiting, event) = stepped(w, command);
            let ready = WorkerView { connected: true, connection_error: None, ..w };
            &&& event is None
            &&& action_of(waiting) == ActionView::Connect
            &&& waiting.rows == w.rows
            &&& !waiting.connected
            &&& stepped(waiting, InputView::Connected) == stepped(ready, command)
        }),
{
}

/// A poll of a worker without a connection waits for it in the same way.
pub proof fn law_poll_after_connecting(w: WorkerView)
    requires
        w.wf(),
        w.phase is Waiting,
        !w.connected,
    ensures
        ({
            let (waiting, event) = stepped(w, InputView::PollDue);
            let ready = WorkerView { connected: true, connection_error: None, ..w };
            &&& event is None
            &&& stepped(waiting, InputView::Connected) == stepped(ready, InputView::PollDue)
        }),
{
}

/// Where no connection can be made, the reason becomes the error of the
/// connection: a command is answered with it, and a poll reports it with the
/// rows as they were.
pub proof fn law_no_connection(w: WorkerView, error: ConnectError)
    requires
        w.wf(),
        w.phase is ConnectingToWrite || w.phase is ConnectingToPoll,
    ensures
        ({
            let reason = match error {
                ConnectError::InvalidEndpoint => "Invalid host/port in config"@,
                ConnectError::Timeout => "Connection timeout"@,
                ConnectError::Failed => "Modbus connect failed"@,
            };
            let (after, event) = stepped(w, InputView::ConnectFailed { error });
            &&& after.phase is Waiting
            &&& !after.connected
            &&& after.connection_error == Some(reason)
            &&& after.rows == w.rows
            &&& after.cfg == w.cfg
            &&& event == Some(
                match w.phase {
                    PhaseView::ConnectingToWrite { index, .. } => EventView::WriteResult {
                        register_name: row_name(w.cfg.registers@, index),
                        result: Err(reason),
                    },
                    _ => EventView::Snapshot { rows: w.rows, connection_error: Some(reason) },
                },
            )
        }),
{
}

/// A write that ended is answered under the name of its row: with success, or
/// with a message that names the row, its address and its unit. Rows and
/// connection stay as they are.
pub proof fn law_write_answered(w: WorkerView, done: bool)
    requires
        w.wf(),
        w.phase is Writing,
    ensures
        ({
            let reg = w.cfg.registers@[w.phase->Writing_index as int];
            let unit = if reg.unit_id is Some {
                reg.unit_id->0
            } else {
                w.cfg.tcp.unit_id
            };
            let input = if done {
                InputView::WriteDone
            } else {
                InputView::WriteFailed
            };
            let (after, event) = stepped(w, input);
            &&& after == WorkerView { phase: PhaseView::Waiting, ..w }
            &&& event == Some(
                EventView::WriteResult {
                    register_name: reg.name@,
                    result: if done {
                        Ok(())
                    } else {
                        Err(
                            "Write"@ + " failed for '"@ + reg.name@ + "' at "@ + decimal(
                                reg.address as nat,
                            ) + " (slave "@ + decimal(unit as nat) + ")"@,
                        )
                    },
                },
            )
        }),
{
}

/// A row is reported by its name, or by its index where there is none.
pub proof fn law_row_names(regs: Seq<RegisterConfig>, index: usize)
    ensures
        index < regs.len() ==> row_name(regs, index) == regs[index as int].name@,
        index >= regs.len() ==> row_name(regs, index) == "#"@ + decimal(index as nat),
{
}

/// A closed window ends a waiting worker, for good.
pub proof fn law_closing(w: WorkerView, input: InputView)
    requires
        w.phase is Waiting,
    ensures
        ({
            let (after, event) = stepped(w, InputView::Closed);
            &&& event is None
            &&& action_of(after) == ActionView::Stop
            &&& stepped(after, input).0 == after
            &&& stepped(after, input).1 is None
        }),
{
}

/// What the worker is not waiting for does nothing.
pub proof fn law_out_of_turn(w: WorkerView, input: InputView)
    requires
        match w.phase {
            PhaseView::Waiting => !(input is Command) && !(input is PollDue) && !(input is Closed),
            PhaseView::ConnectingToWrite { .. } | PhaseView::ConnectingToPoll => !(
            input is Connected) && !(input is ConnectFailed),
            PhaseView::Writing { .. } => !(input is WriteDone) && !(input is WriteFailed),
            PhaseView::Reading { .. } => !(input is Words) && !(input is ReadFailed),
            PhaseView::Stopped => true,
        },
    ensures
        stepped(w, input).0 == w,
        stepped(w, input).1 is None,
{
}

/// What happens to the worker is seen as it is.
pub proof fn law_inputs_seen(input: WorkerInput)
    ensures
        match input {
            WorkerInput::Command { index, value_text, floats } => input@ == (InputView::Command {
                index,
                value_text: value_text@,
                floats,
            }),
            WorkerInput::PollDue => input@ == InputView::PollDue,
            WorkerInput::Closed => input@ == InputView::Closed,
            WorkerInput::Connected => input@ == InputView::Connected,
            WorkerInput::ConnectFailed { error } => input@ == (InputView::ConnectFailed { error }),
            WorkerInput::Words { words, now } => input@ == (InputView::Words {
                words: words@,
                now,
            }),
            WorkerInput::ReadFailed { message } => input@ == (InputView::ReadFailed {
                message: message@,
            }),
            WorkerInput::WriteDone => input@ == InputView::WriteDone,
            WorkerInput::WriteFailed => input@ == InputView::WriteFailed,
        },
{
}

/// What the worker has to do is seen as it is.
pub proof fn law_actions_seen(action: WorkerAction)
    ensures
        match action {
            WorkerAction::Wait { timeout_ms } => action@ == (ActionView::Wait { timeout_ms }),
            WorkerAction::Connect => action@ == ActionView::Connect,
            WorkerAction::Read(request) => action@ == ActionView::Read(request),
            WorkerAction::Write(request) => action@ == ActionView::Write(request@),
            WorkerAction::Stop => action@ == ActionView::Stop,
        },
{
}

/// Optional texts and reports are seen as they are.
pub proof fn law_options_seen(text: String, event: WorkerEvent)
    ensures
        text_view(Some(text)) == Some(text@),
        text_view(None) is None,
        event_view(Some(event)) == Some(event@),
        event_view(None) is None,
{
}

/// Rows and reports are seen as they are.
pub proof fn law_reports_seen(row: RowState, event: WorkerEvent)
    ensures
        row@.value == row.value@,
        row@.raw == row.raw@,
        row@.error is Some == row.error is Some,
        row.error is Some ==> row@.error->0 == row.error->0@,
        row@.last_updated == row.last_updated,
        match event {
            WorkerEvent::Snapshot { rows, connection_error } => {
                &&& event@ is Snapshot
                &&& event@->rows.len() == rows@.len()
                &&& forall|i: int| 0 <= i < rows@.len() ==> #[trigger] event@->rows[i] == rows@[i]@
                &&& event@->connection_error is Some == connection_error is Some
                &&& connection_error is Some ==> event@->connection_error->0
                    == connection_error->0@
            },
            WorkerEvent::WriteResult { register_name, result } => {
                &&& event@ is WriteResult
                &&& event@->register_name == register_name@
                &&& event@->result is Ok == result is Ok
                &&& result matches Err(message) ==> event@->result == Err::<(), Seq<char>>(
                    message@,
                )
            },
        },
{
}

} // verus!
