//! What the window shows, told by what it is given.

use crate::explorer::{
    after_event, cells_of, heading_text, new_window, raw_text, row_at, ExplorerApp, ExplorerView,
    RowCells,
};
use crate::explorer_config::{endpoint_text, ExplorerConfig};
use crate::registers::{ReadingView, RegisterConfig, RegisterType};
use crate::rows::{EventView, RowView};
use crate::text::decimal;
use vstd::prelude::*;

verus! {

/// A window begins with a row and an empty input for each register.
pub proof fn law_window_begins(cfg: ExplorerConfig)
    ensures
        ({
            let v = new_window(cfg);
            &&& v.cfg == cfg
            &&& v.rows.len() == cfg.registers@.len()
            &&& v.write_inputs.len() == cfg.registers@.len()
            &&& v.status_line == "Connecting..."@
            &&& !v.status_error
            &&& forall|i: int|
                0 <= i < v.rows.len() ==> {
                    &&& (#[trigger] v.rows[i]).value == ReadingView::Text("-"@)
                    &&& v.rows[i].raw.len() == 0
                    &&& v.rows[i].error is None
                    &&& v.rows[i].last_updated is None
                }
            &&& forall|i: int|
                0 <= i < v.write_inputs.len() ==> (#[trigger] v.write_inputs[i]).len() == 0
        }),
{
}

/// A snapshot replaces the rows, all at once, unless it has none; the status
/// line tells its connection error, or that all is well.
pub proof fn law_snapshot_shown(
    v: ExplorerView,
    rows: Seq<RowView>,
    connection_error: Option<Seq<char>>,
)
    ensures
        ({
            let after = after_event(v, EventView::Snapshot { rows, connection_error });
            &&& rows.len() > 0 ==> after.rows == rows
            &&& rows.len() == 0 ==> after.rows == v.rows
            &&& after.status_error == connection_error is Some
            &&& connection_error is None ==> after.status_line == "Connected and polling"@
            &&& connection_error is Some ==> after.status_line == "Connection/Read issue: "@
                + connection_error->0
            &&& after.cfg == v.cfg
            &&& after.write_inputs == v.write_inputs
        }),
{
}

/// The answer to a write is told under its name, with its error if it has one;
/// nothing else changes.
pub proof fn law_answer_shown(v: ExplorerView, name: Seq<char>, result: Result<(), Seq<char>>)
    ensures
        ({
            let after = after_event(v, EventView::WriteResult { register_name: name, result });
            &&& after.rows == v.rows
            &&& after.cfg == v.cfg
            &&& after.write_inputs == v.write_inputs
            &&& after.status_error == result is Err
            &&& result is Ok ==> after.status_line == "Write OK: "@ + name
            &&& result matches Err(error) ==> after.status_line == "Write FAILED: "@ + name + ": "@
                + error
        }),
{
}

/// The table shows of each register its own name, address, type, table, unit
/// and engineering unit, and of its row the value, and the error in place of
/// the raw words where there is one.
pub proof fn law_cells(reg: RegisterConfig, row: RowView, default_unit_id: u8)
    ensures
        ({
            let cells = cells_of(reg, row, default_unit_id);
            &&& cells.name == reg.name@
            &&& cells.address == decimal(reg.address as nat)
            &&& cells.register_type == (if reg.register_type == RegisterType::Input {
                "Input"@
            } else {
                "Holding"@
            })
            &&& cells.slave == decimal(
                (if reg.unit_id is Some {
                    reg.unit_id->0
                } else {
                    default_unit_id
                }) as nat,
            )
            &&& reg.unit is Some ==> cells.unit == reg.unit->0@
            &&& reg.unit is None ==> cells.unit == "-"@
            &&& cells.value == row.value
            &&& cells.detail_is_error == row.error is Some
            &&& row.error is Some ==> cells.detail == row.error->0
            &&& row.error is None ==> cells.detail == raw_text(row.raw)
            &&& cells.writable == reg.writable
        }),
{
}

/// Rows that differ in their type show different types.
pub proof fn law_types_told_apart(
    a: RegisterConfig,
    b: RegisterConfig,
    row: RowView,
    default_unit_id: u8,
)
    requires
        a.data_type != b.data_type,
    ensures
        cells_of(a, row, default_unit_id).data_type != cells_of(b, row, default_unit_id).data_type,
{
    reveal_strlit("U16");
    reveal_strlit("I16");
    reveal_strlit("U32");
    reveal_strlit("I32");
    reveal_strlit("U64");
    reveal_strlit("F32");
    reveal_strlit("F64");
    reveal_strlit("Bool");
    reveal_strlit("String");
    let (s, t) = (
        cells_of(a, row, default_unit_id).data_type,
        cells_of(b, row, default_unit_id).data_type,
    );
    if s == t {
        assert(s.len() == t.len() && s[0] == t[0] && s[1] == t[1]);
    }
}

/// A register has its own row, or a blank one where the window has none.
pub proof fn law_row_of_register(rows: Seq<RowView>, index: int)
    requires
        0 <= index,
    ensures
        index < rows.len() ==> row_at(rows, index) == rows[index],
        index >= rows.len() ==> row_at(rows, index).value == ReadingView::Text("-"@) && row_at(
            rows,
            index,
        ).raw.len() == 0 && row_at(rows, index).error is None,
{
}

/// Raw words are listed in decimal between brackets, with a comma and a blank
/// before each but the first.
pub proof fn law_words_listed(words: Seq<u16>, word: u16)
    ensures
        raw_text(Seq::empty()) == "["@ + "]"@,
        raw_text(seq![word]) == "["@ + decimal(word as nat) + "]"@,
        words.len() > 0 ==> exists|inside: Seq<char>|
            raw_text(words) == #[trigger] ("["@ + inside + "]"@) && raw_text(words.push(word))
                == "["@ + (inside + ", "@ + decimal(word as nat)) + "]"@,
{
    let none = Seq::<u16>::empty();
    assert("["@ + crate::explorer::words_listed(none) + "]"@ =~= "["@ + "]"@);
    if words.len() > 0 {
        let inside = crate::explorer::words_listed(words);
        assert(words.push(word).drop_last() =~= words);
        assert(raw_text(words) == "["@ + inside + "]"@);
    }
}

/// The line about the device tells its host, its port, the default unit and
/// the interval as configured.
pub proof fn law_heading(cfg: ExplorerConfig)
    ensures
        heading_text(cfg) == "Target: "@ + (cfg.tcp.host@ + ":"@ + decimal(cfg.tcp.port as nat))
            + " | Slave: "@ + decimal(cfg.tcp.unit_id as nat) + " | Poll: "@ + decimal(
            cfg.tcp.poll_interval_ms as nat,
        ) + " ms"@,
        endpoint_text(cfg.tcp.host@, cfg.tcp.port) == cfg.tcp.host@ + ":"@ + decimal(
            cfg.tcp.port as nat,
        ),
{
}

/// The window and its cells are seen as they are.
pub proof fn law_window_seen(app: ExplorerApp, cells: RowCells)
    ensures
        app@.cfg == app.cfg,
        app@.rows.len() == app.rows@.len(),
        forall|i: int| 0 <= i < app.rows@.len() ==> #[trigger] app@.rows[i] == app.rows@[i]@,
        app@.write_inputs.len() == app.write_inputs@.len(),
        forall|i: int|
            0 <= i < app.write_inputs@.len() ==> #[trigger] app@.write_inputs[i]
                == app.write_inputs@[i]@,
        app@.status_line == app.status_line@,
        app@.status_error == app.status_error,
        cells@.name == cells.name@,
        cells@.address == cells.address@,
        cells@.data_type == cells.data_type@,
        cells@.register_type == cells.register_type@,
        cells@.slave == cells.slave@,
        cells@.unit == cells.unit@,
        cells@.value == cells.value@,
        cells@.detail == cells.detail@,
        cells@.detail_is_error == cells.detail_is_error,
        cells@.writable == cells.writable,
{
}

} // verus!
