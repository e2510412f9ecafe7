//! What holds of the worker over many steps.

use crate::encoding::FloatText;
use crate::explorer_config::ExplorerConfig;
use crate::registers::{decoded, unit_of, word_count, RegisterConfig, RegisterType};
use crate::rows::{EventView, RowView};
use crate::transfer::{
    failure_text, law_write_is_permitted, planned_write, read_of, says_illegal_address,
    says_transport_error, second_failure_text, second_read_of, write_error_text,
};
use crate::worker::{
    action_of, new_worker, read_from, read_lost, row_name, row_read, stepped, with_row, ActionView,
    InputView, PhaseView, WorkerView,
};
use vstd::prelude::*;

verus! {

/// The state after a series of inputs.
pub open spec fn run(w: WorkerView, inputs: Seq<InputView>) -> WorkerView
    decreases inputs.len(),
{
    if inputs.len() == 0 {
        w
    } else {
        stepped(run(w, inputs.drop_last()), inputs.last()).0
    }
}

/// The reports during a series of inputs.
pub open spec fn reports(w: WorkerView, inputs: Seq<InputView>) -> Seq<EventView>
    decreases inputs.len(),
{
    if inputs.len() == 0 {
        Seq::empty()
    } else {
        let before = reports(w, inputs.drop_last());
        match stepped(run(w, inputs.drop_last()), inputs.last()).1 {
            Some(event) => before.push(event),
            None => before,
        }
    }
}

/// Every state that inputs lead to has one row for each register of the
/// configuration that the worker began with.
pub proof fn law_rows_match_registers(w: WorkerView, inputs: Seq<InputView>)
    requires
        w.wf(),
    ensures
        run(w, inputs).wf(),
        run(w, inputs).cfg == w.cfg,
        run(w, inputs).rows.len() == w.cfg.registers@.len(),
    decreases inputs.len(),
{
    if inputs.len() > 0 {
        law_rows_match_registers(w, inputs.drop_last());
    }
}

/// Whether an input says that the connection is gone.
pub open spec fn reports_loss(input: InputView) -> bool {
    match input {
        InputView::ReadFailed { message } => says_transport_error(message),
        _ => false,
    }
}

/// Whether the poll under way has found the connection gone.
pub open spec fn poll_lost(w: WorkerView) -> bool {
    match w.phase {
        PhaseView::Reading { lost, .. } => lost,
        _ => false,
    }
}

/// Whether the first read of the row under way has found the connection gone.
pub open spec fn row_doubtful(w: WorkerView) -> bool {
    match w.phase {
        PhaseView::Reading { first_error: Some(first), .. } => says_transport_error(first),
        _ => false,
    }
}

/// A connection is given up only on transport errors: it stands as long as no
/// read fails with one.
pub proof fn law_connection_kept(w: WorkerView, inputs: Seq<InputView>)
    requires
        w.wf(),
        w.connected,
        !poll_lost(w),
        !row_doubtful(w),
        forall|i: int| 0 <= i < inputs.len() ==> !reports_loss(#[trigger] inputs[i]),
    ensures
        run(w, inputs).connected,
        !poll_lost(run(w, inputs)),
        !row_doubtful(run(w, inputs)),
    decreases inputs.len(),
{
    if inputs.len() > 0 {
        let before = inputs.drop_last();
        assert forall|i: int| 0 <= i < before.len() implies !reports_loss(
            #[trigger] before[i],
        ) by {
            assert(!reports_loss(inputs[i]));
        }
        assert(!reports_loss(inputs[inputs.len() - 1]));
        law_connection_kept(w, before);
        law_rows_match_registers(w, before);
    }
}

/// Whether an input makes the worker read the same row at the next address.
pub open spec fn retried(w: WorkerView, input: InputView) -> bool {
    match (w.phase, input) {
        (PhaseView::Reading { first_error, .. }, InputView::ReadFailed { message }) => {
            first_error is None && says_illegal_address(message)
        },
        _ => false,
    }
}

/// Whether a poll is under way that has lost the connection, or loses it with this input.
pub open spec fn loses(w: WorkerView, input: InputView) -> bool {
    ||| poll_lost(w)
    ||| w.phase is Reading && !retried(w, input) && (reports_loss(input) || (input is ReadFailed
        && row_doubtful(w)))
}

/// A read that fails with a transport error ends the connection with the poll:
/// once the worker waits again, it is not connected and says so.
pub proof fn law_connection_given_up(w: WorkerView, input: InputView)
    requires
        w.wf(),
        loses(w, input),
    ensures
        ({
            let after = stepped(w, input).0;
            ||| poll_lost(after)
            ||| after.phase is Waiting && !after.connected && after.connection_error == Some(
                "Transport read error; reconnecting"@,
            )
        }),
{
}

/// A poll that lost the connection goes on without a report until its snapshot.
/// The snapshot carries the transport error; after it, the next poll and the
/// next command begin by connecting.
pub proof fn law_lost_poll_ends_unconnected(w: WorkerView, inputs: Seq<InputView>)
    requires
        w.wf(),
        inputs.len() > 0,
        loses(w, inputs[0]),
        reports(w, inputs.drop_last()).len() == 0,
    ensures
        ({
            let after = run(w, inputs);
            if reports(w, inputs).len() == 0 {
                poll_lost(after)
            } else {
                &&& reports(w, inputs) == seq![
                    EventView::Snapshot {
                        rows: after.rows,
                        connection_error: Some("Transport read error; reconnecting"@),
                    },
                ]
                &&& after.phase is Waiting
                &&& !after.connected
                &&& action_of(stepped(after, InputView::PollDue).0) == ActionView::Connect
                &&& forall|index: usize, value_text: Seq<char>, floats: FloatText|
                    action_of(
                        #[trigger] stepped(
                            after,
                            InputView::Command { index, value_text, floats },
                        ).0,
                    ) == ActionView::Connect
            }
        }),
    decreases inputs.len(),
{
    let before = inputs.drop_last();
    let state = run(w, before);
    law_rows_match_registers(w, before);
    assert(state.cfg.registers.len() <= usize::MAX);
    if before.len() > 0 {
        let earlier = before.drop_last();
        assert(reports(w, earlier).len() == 0);
        law_lost_poll_ends_unconnected(w, before);
    }
    assert(loses(state, inputs.last()));
    if let Some(event) = stepped(state, inputs.last()).1 {
        assert(reports(w, inputs) =~= seq![event]);
    }
}

/// A read that fails changes nothing of the rows but the error of the one it was for.
pub proof fn law_failed_read_keeps_values(w: WorkerView, message: Seq<char>, i: int)
    requires
        w.wf(),
        0 <= i < w.rows.len(),
    ensures
        ({
            let after = stepped(w, InputView::ReadFailed { message }).0.rows[i];
            &&& after.value == w.rows[i].value
            &&& after.raw == w.rows[i].raw
            &&& after.last_updated == w.rows[i].last_updated
            &&& !(w.phase is Reading && w.phase->Reading_index == i) ==> after.error
                == w.rows[i].error
        }),
{
}

/// A read at an address that does not exist is tried once more, at the next
/// address; whatever comes of that, the row is not read again in this poll.
pub proof fn law_illegal_address_retried_once(w: WorkerView, message: Seq<char>, again: InputView)
    requires
        w.wf(),
        w.phase is Reading,
        w.phase->Reading_first_error is None,
        says_illegal_address(message),
        again is ReadFailed || again is Words,
    ensures
        ({
            let reg = w.cfg.registers@[w.phase->Reading_index as int];
            let retry = stepped(w, InputView::ReadFailed { message }).0;
            let next = stepped(retry, again).0;
            &&& action_of(w) == ActionView::Read(read_of(reg, w.cfg.tcp.unit_id))
            &&& action_of(retry) == ActionView::Read(second_read_of(reg, w.cfg.tcp.unit_id))
            &&& retry.rows == w.rows
            &&& next.phase matches PhaseView::Reading { index, .. } ==> index
                > w.phase->Reading_index
        }),
{
    assert(w.cfg.registers.len() <= usize::MAX);
}

/// A worker without a connection connects before it polls, and then reads from
/// the first row on.
pub proof fn law_connection_renewed(w: WorkerView)
    requires
        w.wf(),
        w.phase is Waiting,
        !w.connected,
        w.rows.len() > 0,
    ensures
        ({
            let due = stepped(w, InputView::PollDue).0;
            let on = stepped(due, InputView::Connected).0;
            &&& action_of(due) == ActionView::Connect
            &&& on.connected
            &&& on.connection_error is None
            &&& action_of(on) == ActionView::Read(
                read_of(w.cfg.registers@[0], w.cfg.tcp.unit_id),
            )
        }),
{
}

/// A command that is refused is answered at once with the reason, and nothing
/// is written for it.
pub proof fn law_refused_command(
    w: WorkerView,
    index: usize,
    value_text: Seq<char>,
    floats: FloatText,
)
    requires
        w.wf(),
        w.phase is Waiting,
        w.connected,
    ensures
        ({
            let regs = w.cfg.registers@;
            let plan = planned_write(regs, index, value_text, floats, w.cfg.tcp.unit_id);
            let (after, event) = stepped(w, InputView::Command { index, value_text, floats });
            plan matches Err(error) ==> after == w && event == Some(
                EventView::WriteResult {
                    register_name: row_name(regs, index),
                    result: Err(write_error_text(error)),
                },
            )
        }),
{
}

/// A poll visits the rows one after the other, whether or not a read succeeds,
/// and reports them all after the last.
pub proof fn law_poll_visits_rows(w: WorkerView, input: InputView)
    requires
        w.wf(),
        w.phase is Reading,
        input is Words || input is ReadFailed,
        !retried(w, input),
    ensures
        ({
            let index = w.phase->Reading_index;
            let (after, event) = stepped(w, input);
            if index + 1 < w.rows.len() {
                &&& after.phase is Reading
                &&& after.phase->Reading_index == index + 1
                &&& after.phase->Reading_first_error is None
                &&& event is None
            } else {
                &&& after.phase is Waiting
                &&& event == Some(
                    EventView::Snapshot {
                        rows: after.rows,
                        connection_error: after.connection_error,
                    },
                )
            }
        }),
{
    assert(w.cfg.registers.len() <= usize::MAX);
}

/// A write is only ever under way to a writable holding register, at its own
/// address and unit, with as many words as it is read as.
pub open spec fn write_permitted(w: WorkerView) -> bool {
    w.phase matches PhaseView::Writing { index, request } ==> {
        let reg = w.cfg.registers@[index as int];
        &&& index < w.cfg.registers@.len()
        &&& reg.writable
        &&& reg.register_type == RegisterType::Holding
        &&& request.address == reg.address
        &&& request.unit_id == unit_of(reg, w.cfg.tcp.unit_id)
        &&& request.words.len() == word_count(reg)
    }
}

/// From its start on, the worker writes to writable holding registers only.
pub proof fn law_only_permitted_writes(cfg: ExplorerConfig, inputs: Seq<InputView>)
    ensures
        write_permitted(run(new_worker(cfg), inputs)),
        action_of(run(new_worker(cfg), inputs)) is Write ==> run(
            new_worker(cfg),
            inputs,
        ).phase is Writing,
    decreases inputs.len(),
{
    if inputs.len() > 0 {
        let w = run(new_worker(cfg), inputs.drop_last());
        law_only_permitted_writes(cfg, inputs.drop_last());
        match (w.phase, inputs.last()) {
            (PhaseView::Waiting, InputView::Command { index, value_text, floats }) => {
                law_write_is_permitted(
                    w.cfg.registers@,
                    index,
                    value_text,
                    floats,
                    w.cfg.tcp.unit_id,
                );
            },
            (PhaseView::ConnectingToWrite { index, value_text, floats }, InputView::Connected) => {
                law_write_is_permitted(
                    w.cfg.registers@,
                    index,
                    value_text,
                    floats,
                    w.cfg.tcp.unit_id,
                );
            },
            _ => {},
        }
    }
}

/// How many of the events are answers to writes.
pub open spec fn answers(events: Seq<EventView>) -> int
    decreases events.len(),
{
    if events.len() == 0 {
        0
    } else {
        answers(events.drop_last()) + if events.last() is WriteResult {
            1int
        } else {
            0int
        }
    }
}

/// How many commands the worker takes up during a series of inputs.
pub open spec fn commands_taken(w: WorkerView, inputs: Seq<InputView>) -> int
    decreases inputs.len(),
{
    if inputs.len() == 0 {
        0
    } else {
        commands_taken(w, inputs.drop_last()) + if run(w, inputs.drop_last()).phase is Waiting
            && inputs.last() is Command {
            1int
        } else {
            0int
        }
    }
}

/// How many commands the worker still has to answer.
pub open spec fn unanswered(w: WorkerView) -> int {
    if w.phase is ConnectingToWrite || w.phase is Writing {
        1
    } else {
        0
    }
}

/// Every command that the worker takes up is answered exactly once.
pub proof fn law_one_answer_per_command(w: WorkerView, inputs: Seq<InputView>)
    ensures
        answers(reports(w, inputs)) + unanswered(run(w, inputs)) == unanswered(w)
            + commands_taken(w, inputs),
    decreases inputs.len(),
{
    if inputs.len() > 0 {
        let before = inputs.drop_last();
        law_one_answer_per_command(w, before);
        if let Some(event) = stepped(run(w, before), inputs.last()).1 {
            assert(reports(w, before).push(event).drop_last() =~= reports(w, before));
        }
    }
}

/// The names in the answers to writes, in their order.
pub open spec fn answered_names(events: Seq<EventView>) -> Seq<Seq<char>>
    decreases events.len(),
{
    if events.len() == 0 {
        Seq::empty()
    } else {
        let before = answered_names(events.drop_last());
        match events.last() {
            EventView::WriteResult { register_name, .. } => before.push(register_name),
            EventView::Snapshot { .. } => before,
        }
    }
}

/// The names of the rows for which the worker takes up commands, in their order.
pub open spec fn commanded_names(w: WorkerView, inputs: Seq<InputView>) -> Seq<Seq<char>>
    decreases inputs.len(),
{
    if inputs.len() == 0 {
        Seq::empty()
    } else {
        let before = commanded_names(w, inputs.drop_last());
        match (run(w, inputs.drop_last()).phase, inputs.last()) {
            (PhaseView::Waiting, InputView::Command { index, .. }) => before.push(
                row_name(w.cfg.registers@, index),
            ),
            _ => before,
        }
    }
}

/// The name of the row whose command the worker still has to answer, if there is one.
pub open spec fn pending_names(w: WorkerView) -> Seq<Seq<char>> {
    match w.phase {
        PhaseView::ConnectingToWrite { index, .. } | PhaseView::Writing { index, .. } => seq![
            row_name(w.cfg.registers@, index),
        ],
        _ => Seq::empty(),
    }
}

/// The answers come in the order of the commands, each under the name of the
/// row that its command was for.
pub proof fn law_answers_in_order(w: WorkerView, inputs: Seq<InputView>)
    requires
        w.wf(),
    ensures
        answered_names(reports(w, inputs)) + pending_names(run(w, inputs)) == pending_names(w)
            + commanded_names(w, inputs),
    decreases inputs.len(),
{
    if inputs.len() == 0 {
        assert(answered_names(reports(w, inputs)) + pending_names(w) =~= pending_names(w)
            + commanded_names(w, inputs));
    } else {
        let before = inputs.drop_last();
        law_answers_in_order(w, before);
        law_rows_match_registers(w, before);
        let state = run(w, before);
        let old_names = answered_names(reports(w, before));
        if let Some(event) = stepped(state, inputs.last()).1 {
            assert(reports(w, before).push(event).drop_last() =~= reports(w, before));
        }
        assert(answered_names(reports(w, inputs)) + pending_names(run(w, inputs)) =~= pending_names(
            w,
        ) + commanded_names(w, inputs)) by {
            if state.phase is Waiting && inputs.last() is Command {
                assert(old_names + pending_names(state) =~= old_names);
            } else {
                assert(commanded_names(w, inputs) == commanded_names(w, before));
                assert(answered_names(reports(w, inputs)) + pending_names(run(w, inputs))
                    =~= old_names + pending_names(state));
            }
        }
    }
}

/// How many of the events are snapshots.
pub open spec fn snapshots(events: Seq<EventView>) -> int
    decreases events.len(),
{
    if events.len() == 0 {
        0
    } else {
        snapshots(events.drop_last()) + if events.last() is Snapshot {
            1int
        } else {
            0int
        }
    }
}

/// How many polls the worker begins during a series of inputs.
pub open spec fn polls_begun(w: WorkerView, inputs: Seq<InputView>) -> int
    decreases inputs.len(),
{
    if inputs.len() == 0 {
        0
    } else {
        polls_begun(w, inputs.drop_last()) + if run(w, inputs.drop_last()).phase is Waiting
            && inputs.last() is PollDue {
            1int
        } else {
            0int
        }
    }
}

/// How many polls the worker still has to end.
pub open spec fn polls_open(w: WorkerView) -> int {
    if w.phase is ConnectingToPoll || w.phase is Reading {
        1
    } else {
        0
    }
}

/// Every poll ends in exactly one snapshot, whether or not there is a connection.
pub proof fn law_one_snapshot_per_poll(w: WorkerView, inputs: Seq<InputView>)
    ensures
        snapshots(reports(w, inputs)) + polls_open(run(w, inputs)) == polls_open(w) + polls_begun(
            w,
            inputs,
        ),
    decreases inputs.len(),
{
    if inputs.len() > 0 {
        let before = inputs.drop_last();
        law_one_snapshot_per_poll(w, before);
        if let Some(event) = stepped(run(w, before), inputs.last()).1 {
            assert(reports(w, before).push(event).drop_last() =~= reports(w, before));
        }
    }
}

/// How the reading of a row ended.
pub enum ReadEnd {
    Words { words: Seq<u16>, now: u64 },
    Failed { message: Seq<char> },
}

/// What came of reading a row. `first_error` is the error of the first read
/// where there were two.
pub struct RowOutcome {
    pub first_error: Option<Seq<char>>,
    pub end: ReadEnd,
}

impl RowOutcome {
    /// There are two reads exactly where the first says that the address does
    /// not exist.
    pub open spec fn wf(self) -> bool {
        match self.first_error {
            Some(first) => says_illegal_address(first),
            None => self.end matches ReadEnd::Failed { message } ==> !says_illegal_address(message),
        }
    }

    /// The inputs that tell the worker of it.
    pub open spec fn inputs(self) -> Seq<InputView> {
        let end = match self.end {
            ReadEnd::Words { words, now } => InputView::Words { words, now },
            ReadEnd::Failed { message } => InputView::ReadFailed { message },
        };
        match self.first_error {
            Some(first) => seq![InputView::ReadFailed { message: first }, end],
            None => seq![end],
        }
    }

    /// The row afterwards. A read that failed leaves all but the error as it was.
    pub open spec fn row(self, reg: RegisterConfig, row: RowView, default_unit_id: u8) -> RowView {
        match self.end {
            ReadEnd::Words { words, now } => row_read(reg, row, words, now),
            ReadEnd::Failed { .. } => RowView {
                error: Some(
                    match self.first_error {
                        Some(first) => second_failure_text(reg, default_unit_id, first),
                        None => failure_text("Read"@, reg, default_unit_id),
                    },
                ),
                ..row
            },
        }
    }

    /// Whether it tells that the connection is gone.
    pub open spec fn lost(self) -> bool {
        self.end matches ReadEnd::Failed { message } && read_lost(self.first_error, message)
    }
}

/// The inputs that tell what came of reading the first `count` rows.
pub open spec fn poll_inputs(outcomes: Seq<RowOutcome>, count: int) -> Seq<InputView>
    decreases count,
{
    if count <= 0 {
        Seq::empty()
    } else {
        poll_inputs(outcomes, count - 1) + outcomes[count - 1].inputs()
    }
}

/// Whether one of the first `count` outcomes tells that the connection is gone.
pub open spec fn any_lost(outcomes: Seq<RowOutcome>, count: int) -> bool {
    exists|i: int| 0 <= i < count && (#[trigger] outcomes[i]).lost()
}

/// The rows after the first `count` of them were read.
pub open spec fn rows_polled(w: WorkerView, outcomes: Seq<RowOutcome>, count: int) -> Seq<RowView> {
    Seq::new(
        w.rows.len(),
        |i: int|
            if i < count {
                outcomes[i].row(w.cfg.registers@[i], w.rows[i], w.cfg.tcp.unit_id)
            } else {
                w.rows[i]
            },
    )
}

proof fn lemma_run_joined(w: WorkerView, a: Seq<InputView>, b: Seq<InputView>)
    ensures
        run(w, a + b) == run(run(w, a), b),
        reports(w, a + b) == reports(w, a) + reports(run(w, a), b),
    decreases b.len(),
{
    if b.len() == 0 {
        assert(a + b =~= a);
        assert(reports(w, a) + reports(run(w, a), b) =~= reports(w, a));
    } else {
        assert((a + b).drop_last() =~= a + b.drop_last());
        lemma_run_joined(w, a, b.drop_last());
        assert(reports(w, a + b) =~= reports(w, a) + reports(run(w, a), b));
    }
}

proof fn lemma_run_one(w: WorkerView, input: InputView)
    ensures
        run(w, seq![input]) == stepped(w, input).0,
        reports(w, seq![input]) == (match stepped(w, input).1 {
            Some(event) => seq![event],
            None => Seq::<EventView>::empty(),
        }),
{
    let inputs = seq![input];
    assert(inputs.drop_last() =~= Seq::<InputView>::empty());
    assert(run(w, inputs.drop_last()) == w);
    assert(reports(w, inputs.drop_last()) =~= Seq::<EventView>::empty());
    if let Some(event) = stepped(w, input).1 {
        assert(reports(w, inputs) =~= seq![event]);
    }
}

proof fn lemma_row_polled(w: WorkerView, outcome: RowOutcome)
    requires
        w.wf(),
        outcome.wf(),
        w.phase is Reading,
        w.phase->Reading_first_error is None,
    ensures
        ({
            let index = w.phase->Reading_index as int;
            let row = outcome.row(w.cfg.registers@[index], w.rows[index], w.cfg.tcp.unit_id);
            let lost = w.phase->lost || outcome.lost();
            let next = read_from(with_row(w, index, row), index + 1, lost);
            &&& run(w, outcome.inputs()) == next.0
            &&& reports(w, outcome.inputs()) == (match next.1 {
                Some(event) => seq![event],
                None => Seq::<EventView>::empty(),
            })
        }),
{
    let inputs = outcome.inputs();
    let end = inputs.last();
    if let Some(first) = outcome.first_error {
        let retry = InputView::ReadFailed { message: first };
        assert(inputs =~= seq![retry] + seq![end]);
        lemma_run_joined(w, seq![retry], seq![end]);
        lemma_run_one(w, retry);
        lemma_run_one(stepped(w, retry).0, end);
        assert(reports(w, inputs) =~= reports(stepped(w, retry).0, seq![end]));
    } else {
        lemma_run_one(w, end);
    }
}

proof fn lemma_one_more_row(w: WorkerView, outcomes: Seq<RowOutcome>, last: int)
    requires
        0 <= last < w.rows.len(),
    ensures
        ({
            let row = outcomes[last].row(w.cfg.registers@[last], w.rows[last], w.cfg.tcp.unit_id);
            rows_polled(w, outcomes, last).update(last, row) == rows_polled(w, outcomes, last + 1)
        }),
        any_lost(outcomes, last + 1) == (any_lost(outcomes, last) || outcomes[last].lost()),
{
    let row = outcomes[last].row(w.cfg.registers@[last], w.rows[last], w.cfg.tcp.unit_id);
    assert(rows_polled(w, outcomes, last).update(last, row) =~= rows_polled(
        w,
        outcomes,
        last + 1,
    ));
    if any_lost(outcomes, last + 1) {
        let i = choose|i: int| 0 <= i < last + 1 && (#[trigger] outcomes[i]).lost();
        assert(i < last || i == last);
    }
}

proof fn lemma_rows_polled(w: WorkerView, start: WorkerView, outcomes: Seq<RowOutcome>, count: int)
    requires
        w.wf(),
        start == (WorkerView {
            phase: PhaseView::Reading { index: 0, first_error: None, lost: false },
            ..w
        }),
        start.wf(),
        0 <= count <= w.rows.len(),
        outcomes.len() == w.rows.len(),
        forall|i: int| 0 <= i < outcomes.len() ==> (#[trigger] outcomes[i]).wf(),
    ensures
        ({
            let so_far = WorkerView { rows: rows_polled(w, outcomes, count), ..start };
            let lost = any_lost(outcomes, count);
            let next = read_from(so_far, count, lost);
            &&& run(start, poll_inputs(outcomes, count)) == next.0
            &&& reports(start, poll_inputs(outcomes, count)) == (match next.1 {
                Some(event) => seq![event],
                None => Seq::<EventView>::empty(),
            })
        }),
    decreases count,
{
    assert(w.cfg.registers.len() <= usize::MAX);
    if count == 0 {
        assert(rows_polled(w, outcomes, 0) =~= w.rows);
        assert(!any_lost(outcomes, 0));
    } else {
        let last = count - 1;
        lemma_rows_polled(w, start, outcomes, last);
        lemma_one_more_row(w, outcomes, last);
        let before = poll_inputs(outcomes, last);
        let here = outcomes[last].inputs();
        let state = WorkerView {
            rows: rows_polled(w, outcomes, last),
            phase: PhaseView::Reading {
                index: last as usize,
                first_error: None,
                lost: any_lost(outcomes, last),
            },
            ..start
        };
        assert(run(start, before) == state);
        lemma_run_joined(start, before, here);
        assert(state.rows[last] == w.rows[last]);
        lemma_row_polled(state, outcomes[last]);
        assert(poll_inputs(outcomes, count) == before + here);
        assert(reports(start, before) + reports(state, here) =~= reports(state, here));
    }
}

/// A poll, whatever comes of its reads, updates every row that was read from
/// its own words, leaves of every other row all but the error as it was, and
/// reports the rows once. A row has an error in the report only where its read
/// failed, or its words did not decode, in this poll. Where no read told that
/// the connection is gone, the connection stands and no error of it is
/// reported; otherwise it is given up.
pub proof fn law_poll(w: WorkerView, outcomes: Seq<RowOutcome>)
    requires
        w.wf(),
        w.connected,
        w.phase is Waiting,
        outcomes.len() == w.rows.len(),
        forall|i: int| 0 <= i < outcomes.len() ==> (#[trigger] outcomes[i]).wf(),
    ensures
        ({
            let count = outcomes.len() as int;
            let inputs = seq![InputView::PollDue] + poll_inputs(outcomes, count);
            let rows = rows_polled(w, outcomes, count);
            let lost = any_lost(outcomes, count);
            let connection_error = if lost {
                Some("Transport read error; reconnecting"@)
            } else {
                None
            };
            &&& run(w, inputs) == WorkerView { rows, connected: !lost, connection_error, ..w }
            &&& reports(w, inputs) == seq![EventView::Snapshot { rows, connection_error }]
            &&& forall|i: int|
                0 <= i < count && (#[trigger] outcomes[i]).end is Failed ==> {
                    &&& rows[i].error is Some
                    &&& rows[i].value == w.rows[i].value
                    &&& rows[i].raw == w.rows[i].raw
                    &&& rows[i].last_updated == w.rows[i].last_updated
                }
            &&& forall|i: int|
                0 <= i < count ==> ((#[trigger] outcomes[i]).end matches ReadEnd::Words {
                    words,
                    now,
                } ==> {
                    let shown = decoded(w.cfg.registers@[i], words);
                    &&& rows[i].raw == words
                    &&& rows[i].last_updated == Some(now)
                    &&& rows[i].error is None <==> shown is Ok
                    &&& shown matches Ok(value) ==> rows[i].value == value
                    &&& shown is Err ==> rows[i].value == w.rows[i].value
                })
        }),
{
    let count = outcomes.len() as int;
    let reads = poll_inputs(outcomes, count);
    let start = WorkerView {
        phase: PhaseView::Reading { index: 0, first_error: None, lost: false },
        ..w
    };
    lemma_run_joined(w, seq![InputView::PollDue], reads);
    lemma_run_one(w, InputView::PollDue);
    if count == 0 {
        assert(rows_polled(w, outcomes, 0) =~= w.rows);
        assert(!any_lost(outcomes, 0));
        assert(reads =~= Seq::<InputView>::empty());
    } else {
        lemma_rows_polled(w, start, outcomes, count);
    }
    assert(reports(w, seq![InputView::PollDue] + reads) =~= seq![
        EventView::Snapshot {
            rows: rows_polled(w, outcomes, count),
            connection_error: run(w, seq![InputView::PollDue] + reads).connection_error,
        },
    ]);
}

} // verus!
