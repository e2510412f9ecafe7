//! The state of the rows, and what the worker tells the window about them.

use crate::registers::{Reading, ReadingView};
use vstd::prelude::*;

verus! {

broadcast use vstd::string::group_string_axioms;

/// The characters of an optional text.
pub open spec fn text_view(text: Option<String>) -> Option<Seq<char>> {
    match text {
        Some(s) => Some(s@),
        None => None,
    }
}

/// A copy of an optional text.
pub fn copy_text(text: &Option<String>) -> (copy: Option<String>)
    ensures
        text_view(copy) == text_view(*text),
{
    match text {
        Some(s) => Some(s.clone()),
        None => None,
    }
}

/// What is known of a row.
#[derive(Debug, PartialEq, Eq)]
pub struct RowState {
    /// The value that was last decoded.
    pub value: Reading,
    /// The words that were last read.
    pub raw: Vec<u16>,
    /// What went wrong the last time.
    pub error: Option<String>,
    /// When the words were read.
    pub last_updated: Option<u64>,
}

/// What is known of a row, with texts as characters.
pub struct RowView {
    pub value: ReadingView,
    pub raw: Seq<u16>,
    pub error: Option<Seq<char>>,
    pub last_updated: Option<u64>,
}

impl View for RowState {
    type V = RowView;

    open spec fn view(&self) -> RowView {
        RowView {
            value: self.value@,
            raw: self.raw@,
            error: text_view(self.error),
            last_updated: self.last_updated,
        }
    }
}

/// A row of which nothing has been read.
pub open spec fn blank_row() -> RowView {
    RowView {
        value: ReadingView::Text("-"@),
        raw: Seq::empty(),
        error: None,
        last_updated: None,
    }
}

impl Default for RowState {
    fn default() -> (row: Self)
        ensures
            row@ == blank_row(),
    {
        let row = RowState {
            value: Reading::Text("-".to_owned()),
            raw: Vec::new(),
            error: None,
            last_updated: None,
        };
        assert(row@.raw =~= blank_row().raw);
        row
    }
}

impl RowState {
    /// A copy of the row.
    pub fn duplicate(&self) -> (copy: Self)
        ensures
            copy@ == self@,
    {
        let copy = RowState {
            value: self.value.duplicate(),
            raw: self.raw.clone(),
            error: copy_text(&self.error),
            last_updated: self.last_updated,
        };
        assert(copy@.raw =~= self@.raw);
        copy
    }
}

/// Rows, with texts as characters.
pub open spec fn rows_view(rows: Seq<RowState>) -> Seq<RowView> {
    Seq::new(rows.len(), |i: int| rows[i]@)
}

/// A copy of rows.
pub fn copy_rows(rows: &Vec<RowState>) -> (copy: Vec<RowState>)
    ensures
        rows_view(copy@) == rows_view(rows@),
{
    let mut copy: Vec<RowState> = Vec::new();
    for i in 0..rows.len()
        invariant
            copy@.len() == i,
            forall|j: int| 0 <= j < i ==> (#[trigger] copy@[j])@ == rows@[j]@,
    {
        copy.push(rows[i].duplicate());
    }
    assert(rows_view(copy@) =~= rows_view(rows@));
    copy
}

/// `count` rows of which nothing has been read.
pub fn blank_rows(count: usize) -> (rows: Vec<RowState>)
    ensures
        rows_view(rows@) == Seq::new(count as nat, |i: int| blank_row()),
{
    let mut rows: Vec<RowState> = Vec::new();
    for i in 0..count
        invariant
            rows@.len() == i,
            forall|j: int| 0 <= j < i ==> (#[trigger] rows@[j])@ == blank_row(),
    {
        rows.push(RowState::default());
    }
    assert(rows_view(rows@) =~= Seq::new(count as nat, |i: int| blank_row()));
    rows
}

/// What the worker tells the window.
#[derive(Debug, PartialEq, Eq)]
pub enum WorkerEvent {
    /// The rows after a poll.
    Snapshot { rows: Vec<RowState>, connection_error: Option<String> },
    /// What became of a write.
    WriteResult { register_name: String, result: Result<(), String> },
}

/// What the worker tells the window, with texts as characters.
pub enum EventView {
    Snapshot { rows: Seq<RowView>, connection_error: Option<Seq<char>> },
    WriteResult { register_name: Seq<char>, result: Result<(), Seq<char>> },
}

impl View for WorkerEvent {
    type V = EventView;

    open spec fn view(&self) -> EventView {
        match self {
            WorkerEvent::Snapshot { rows, connection_error } => EventView::Snapshot {
                rows: rows_view(rows@),
                connection_error: text_view(*connection_error),
            },
            WorkerEvent::WriteResult { register_name, result } => EventView::WriteResult {
                register_name: register_name@,
                result: match result {
                    Ok(()) => Ok(()),
                    Err(message) => Err(message@),
                },
            },
        }
    }
}

} // verus!
