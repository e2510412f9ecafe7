//! What the controller publishes while it runs. Numbers that are no integers
//! come in as they are to be written.

use crate::discovery::Message;
use crate::json_text::{
    ascending, compact, count_text, count_value, member_texts, object_text, object_value,
    push_member, quoted, smaller_at, quoted_value, value_text,
};
use crate::solar::{due, elapsed, time_since, SolarController};
use crate::solar_config::{SolarControlConfig, Topics};
use crate::solar_mode::{mode_payload, mode_payload_of};
use crate::text::{decimal, decimal_text};
use serde_json::Value;
use vstd::prelude::*;
use vstd::string::StringExecFns;

verus! {

broadcast use vstd::string::group_string_axioms;

/// The message that tells the mode.
pub fn mode_message(cfg: &SolarControlConfig, topics: &Topics, solar_mode: bool) -> (message:
    Message)
    ensures
        message.topic@ == topics.mode_state@,
        message.payload@ == mode_payload_of(*cfg, solar_mode),
        message.retain,
{
    Message {
        topic: topics.mode_state.clone(),
        payload: mode_payload(cfg, solar_mode),
        retain: true,
    }
}

/// The message that commands a current. `amps` is the current with one digit
/// behind the point.
pub fn current_message(topics: &Topics, amps: String) -> (message: Message)
    ensures
        message.topic@ == topics.set_max_current@,
        message.payload@ == amps@,
        !message.retain,
{
    Message { topic: topics.set_max_current.clone(), payload: amps, retain: false }
}

/// The whole seconds that a timer has run.
pub open spec fn run_secs(since: Option<u64>, now: u64) -> Option<u64> {
    match since {
        Some(t) => Some((elapsed(t, now) / 1_000_000_000) as u64),
        None => None,
    }
}

/// The whole seconds that a timer still has to run, in solar mode.
pub open spec fn left_secs(
    solar_mode: bool,
    since: Option<u64>,
    after_secs: u64,
    now: u64,
) -> Option<u64> {
    let gone = match run_secs(since, now) {
        Some(secs) => secs,
        None => 0,
    };
    if !solar_mode {
        None
    } else if gone >= after_secs {
        Some(0)
    } else {
        Some((after_secs - gone) as u64)
    }
}

/// The whole seconds that a timer has run.
pub fn seconds_run(since: Option<u64>, now: u64) -> (secs: Option<u64>)
    ensures
        secs == run_secs(since, now),
{
    match since {
        Some(t) => Some(time_since(t, now) / 1_000_000_000),
        None => None,
    }
}

/// The whole seconds that a timer still has to run, in solar mode.
pub fn seconds_left(solar_mode: bool, since: Option<u64>, after_secs: u64, now: u64) -> (secs:
    Option<u64>)
    ensures
        secs == left_secs(solar_mode, since, after_secs, now),
{
    if !solar_mode {
        return None;
    }
    let gone = match seconds_run(since, now) {
        Some(secs) => secs,
        None => 0,
    };
    Some(after_secs.saturating_sub(gone))
}

/// Numbers as they are to be written.
#[derive(Debug)]
pub struct StateNumbers {
    /// The power with three digits behind the point.
    pub power_text: String,
    /// The target with one digit behind the point.
    pub target_text: String,
    pub power_kw: Value,
    pub threshold_kw: Value,
    pub target_current_a: Value,
    pub last_published_current_a: Value,
}

/// The mode as it is told.
pub open spec fn mode_name(solar_mode: bool) -> Seq<char> {
    if solar_mode {
        "solar"@
    } else {
        "fixed"@
    }
}

/// A count, zero where there is none.
pub open spec fn count_or_zero(count: Option<u64>) -> Seq<char> {
    match count {
        Some(n) => decimal(n as nat),
        None => decimal(0),
    }
}

/// The state of the controller in one line.
pub open spec fn summary_of(
    cfg: SolarControlConfig,
    c: SolarController,
    now: u64,
    power_text: Seq<char>,
    target_text: Seq<char>,
) -> Seq<char> {
    "mode="@ + mode_name(c.solar_mode) + ", power="@ + (if c.power_kw is Some {
        power_text + "kW"@
    } else {
        "n/a"@
    }) + ", target="@ + target_text + "A, hi_rem="@ + count_or_zero(
        left_secs(c.solar_mode, c.high_since, cfg.switch_high_after_secs, now),
    ) + "s, lo_rem="@ + count_or_zero(
        left_secs(c.solar_mode, c.low_since, cfg.switch_low_after_secs, now),
    ) + "s"@
}

fn push_count(text: &mut String, count: Option<u64>)
    ensures
        final(text)@ == old(text)@ + count_or_zero(count),
{
    let n = match count {
        Some(n) => n,
        None => 0,
    };
    text.append(decimal_text(n).as_str());
}

/// The state of the controller in one line.
pub fn summary(
    cfg: &SolarControlConfig,
    c: &SolarController,
    now: u64,
    power_text: &str,
    target_text: &str,
) -> (line: String)
    ensures
        line@ == summary_of(*cfg, *c, now, power_text@, target_text@),
{
    let mut line = "mode=".to_owned();
    line.append(
        if c.solar_mode {
            "solar"
        } else {
            "fixed"
        },
    );
    line.append(", power=");
    let mut power = power_text.to_owned();
    power.append("kW");
    line.append(
        if c.power_kw.is_some() {
            power.as_str()
        } else {
            "n/a"
        },
    );
    line.append(", target=");
    line.append(target_text);
    line.append("A, hi_rem=");
    push_count(
        &mut line,
        seconds_left(c.solar_mode, c.high_since, cfg.switch_high_after_secs, now),
    );
    line.append("s, lo_rem=");
    push_count(
        &mut line,
        seconds_left(c.solar_mode, c.low_since, cfg.switch_low_after_secs, now),
    );
    line.append("s");
    line
}

/// A text if a condition holds, else null.
pub open spec fn text_or_null(there: bool, text: Seq<char>) -> Seq<char> {
    if there {
        text
    } else {
        "null"@
    }
}

/// The members of the state of the controller.
pub open spec fn state_members(
    cfg: SolarControlConfig,
    c: SolarController,
    now: u64,
    numbers: StateNumbers,
) -> Seq<(Seq<char>, Seq<char>)> {
    seq![
        ("high_elapsed_secs"@, count_text(run_secs(c.high_since, now))),
        (
            "high_remaining_secs"@,
            count_text(left_secs(c.solar_mode, c.high_since, cfg.switch_high_after_secs, now)),
        ),
        (
            "last_published_current_a"@,
            text_or_null(c.last_published is Some, value_text(numbers.last_published_current_a)),
        ),
        ("low_elapsed_secs"@, count_text(run_secs(c.low_since, now))),
        (
            "low_remaining_secs"@,
            count_text(left_secs(c.solar_mode, c.low_since, cfg.switch_low_after_secs, now)),
        ),
        ("mode"@, quoted(mode_name(c.solar_mode))),
        ("power_kw"@, text_or_null(c.power_kw is Some, value_text(numbers.power_kw))),
        (
            "summary"@,
            quoted(summary_of(cfg, c, now, numbers.power_text@, numbers.target_text@)),
        ),
        ("switch_high_after_secs"@, count_text(Some(cfg.switch_high_after_secs))),
        ("switch_low_after_secs"@, count_text(Some(cfg.switch_low_after_secs))),
        ("target_current_a"@, value_text(numbers.target_current_a)),
        ("threshold_kw"@, value_text(numbers.threshold_kw)),
    ]
}

/// The message that tells the state of the controller.
#[verifier::rlimit(30)]
pub fn state_message(
    cfg: &SolarControlConfig,
    topics: &Topics,
    c: &SolarController,
    now: u64,
    numbers: StateNumbers,
) -> (message: Message)
    ensures
        message.topic@ == topics.debug_state@,
        message.payload@ == object_text(state_members(*cfg, *c, now, numbers)),
        message.retain,
{
    let ghost given = numbers;
    let line = summary(cfg, c, now, numbers.power_text.as_str(), numbers.target_text.as_str());
    let high_left = seconds_left(c.solar_mode, c.high_since, cfg.switch_high_after_secs, now);
    let low_left = seconds_left(c.solar_mode, c.low_since, cfg.switch_low_after_secs, now);
    let mode = if c.solar_mode {
        "solar"
    } else {
        "fixed"
    };
    let last = if c.last_published.is_some() {
        numbers.last_published_current_a
    } else {
        count_value(None)
    };
    let power = if c.power_kw.is_some() {
        numbers.power_kw
    } else {
        count_value(None)
    };
    let mut members: Vec<(String, Value)> = Vec::new();
    push_member(&mut members, "high_elapsed_secs", count_value(seconds_run(c.high_since, now)));
    push_member(&mut members, "high_remaining_secs", count_value(high_left));
    push_member(&mut members, "last_published_current_a", last);
    push_member(&mut members, "low_elapsed_secs", count_value(seconds_run(c.low_since, now)));
    push_member(&mut members, "low_remaining_secs", count_value(low_left));
    push_member(&mut members, "mode", quoted_value(mode));
    push_member(&mut members, "power_kw", power);
    push_member(&mut members, "summary", quoted_value(line.as_str()));
    push_member(
        &mut members,
        "switch_high_after_secs",
        count_value(Some(cfg.switch_high_after_secs)),
    );
    push_member(
        &mut members,
        "switch_low_after_secs",
        count_value(Some(cfg.switch_low_after_secs)),
    );
    push_member(&mut members, "target_current_a", numbers.target_current_a);
    push_member(&mut members, "threshold_kw", numbers.threshold_kw);
    proof {
        reveal_strlit("high_elapsed_secs");
        reveal_strlit("high_remaining_secs");
        reveal_strlit("last_published_current_a");
        reveal_strlit("low_elapsed_secs");
        reveal_strlit("low_remaining_secs");
        reveal_strlit("mode");
        reveal_strlit("power_kw");
        reveal_strlit("summary");
        reveal_strlit("switch_high_after_secs");
        reveal_strlit("switch_low_after_secs");
        reveal_strlit("target_current_a");
        reveal_strlit("threshold_kw");
        assert(smaller_at("high_elapsed_secs"@, "high_remaining_secs"@, 5));
        assert(smaller_at("high_remaining_secs"@, "last_published_current_a"@, 0));
        assert(smaller_at("last_published_current_a"@, "low_elapsed_secs"@, 1));
        assert(smaller_at("low_elapsed_secs"@, "low_remaining_secs"@, 4));
        assert(smaller_at("low_remaining_secs"@, "mode"@, 0));
        assert(smaller_at("mode"@, "power_kw"@, 0));
        assert(smaller_at("power_kw"@, "summary"@, 0));
        assert(smaller_at("summary"@, "switch_high_after_secs"@, 1));
        assert(smaller_at("switch_high_after_secs"@, "switch_low_after_secs"@, 7));
        assert(smaller_at("switch_low_after_secs"@, "target_current_a"@, 0));
        assert(smaller_at("target_current_a"@, "threshold_kw"@, 1));
        assert(ascending(member_texts(members@)));
        assert(member_texts(members@) =~= state_members(*cfg, *c, now, given));
    }
    let value = object_value(members);
    Message { topic: topics.debug_state.clone(), payload: compact(&value), retain: true }
}

/// What a message is for.
#[derive(Debug, Clone, Copy, PartialEq, Eq, Structural)]
pub enum Purpose {
    Mode,
    State,
    Current,
}

/// A message and what it is for.
#[derive(Debug, PartialEq, Eq)]
pub struct Outgoing {
    pub purpose: Purpose,
    pub message: Message,
}

/// A message and what it is for, with texts as characters.
pub struct OutgoingView {
    pub purpose: Purpose,
    pub topic: Seq<char>,
    pub payload: Seq<char>,
    pub retain: bool,
}

impl View for Outgoing {
    type V = OutgoingView;

    open spec fn view(&self) -> OutgoingView {
        OutgoingView {
            purpose: self.purpose,
            topic: self.message.topic@,
            payload: self.message.payload@,
            retain: self.message.retain,
        }
    }
}

/// Messages, with texts as characters.
pub open spec fn outgoing_views(messages: Seq<Outgoing>) -> Seq<OutgoingView> {
    messages.map_values(|m: Outgoing| m@)
}

/// The message that tells the mode.
pub open spec fn mode_view(
    cfg: SolarControlConfig,
    topics: Topics,
    solar_mode: bool,
) -> OutgoingView {
    OutgoingView {
        purpose: Purpose::Mode,
        topic: topics.mode_state@,
        payload: mode_payload_of(cfg, solar_mode),
        retain: true,
    }
}

/// The message that tells the state of the controller.
pub open spec fn state_view(
    cfg: SolarControlConfig,
    topics: Topics,
    c: SolarController,
    now: u64,
    numbers: StateNumbers,
) -> OutgoingView {
    OutgoingView {
        purpose: Purpose::State,
        topic: topics.debug_state@,
        payload: object_text(state_members(cfg, c, now, numbers)),
        retain: true,
    }
}

/// The message that commands a current.
pub open spec fn current_view(topics: Topics, amps: Seq<char>) -> OutgoingView {
    OutgoingView {
        purpose: Purpose::Current,
        topic: topics.set_max_current@,
        payload: amps,
        retain: false,
    }
}

/// What is published at the start: the mode, then the state.
pub fn messages_at_start(
    cfg: &SolarControlConfig,
    topics: &Topics,
    c: &SolarController,
    now: u64,
    numbers: StateNumbers,
) -> (messages: Vec<Outgoing>)
    ensures
        outgoing_views(messages@) == seq![
            mode_view(*cfg, *topics, c.solar_mode),
            state_view(*cfg, *topics, *c, now, numbers),
        ],
{
    let ghost given = numbers;
    let mut messages: Vec<Outgoing> = Vec::new();
    messages.push(
        Outgoing { purpose: Purpose::Mode, message: mode_message(cfg, topics, c.solar_mode) },
    );
    messages.push(
        Outgoing { purpose: Purpose::State, message: state_message(cfg, topics, c, now, numbers) },
    );
    assert(outgoing_views(messages@) =~= seq![
        mode_view(*cfg, *topics, c.solar_mode),
        state_view(*cfg, *topics, *c, now, given),
    ]);
    messages
}

/// What is published after an update: the mode if it has changed, then the
/// state, then the current if it is due. `amps` is the current with one digit
/// behind the point, `difference` the last published current less the new one.
pub fn messages_after(
    cfg: &SolarControlConfig,
    topics: &Topics,
    c: &SolarController,
    mode_changed: bool,
    now: u64,
    numbers: StateNumbers,
    amps: String,
    difference: u32,
) -> (messages: Vec<Outgoing>)
    ensures
        outgoing_views(messages@) == (if mode_changed {
            seq![mode_view(*cfg, *topics, c.solar_mode)]
        } else {
            Seq::empty()
        }) + seq![state_view(*cfg, *topics, *c, now, numbers)] + (if due(*c, *cfg, difference) {
            seq![current_view(*topics, amps@)]
        } else {
            Seq::empty()
        }),
{
    let mut messages: Vec<Outgoing> = Vec::new();
    if mode_changed {
        messages.push(
            Outgoing { purpose: Purpose::Mode, message: mode_message(cfg, topics, c.solar_mode) },
        );
    }
    messages.push(
        Outgoing { purpose: Purpose::State, message: state_message(cfg, topics, c, now, numbers) },
    );
    if c.publish_due(cfg, difference) {
        messages.push(
            Outgoing { purpose: Purpose::Current, message: current_message(topics, amps) },
        );
    }
    messages
}

/// What is shown to the user for a message that could not be published.
pub open spec fn publish_failure_text(purpose: Purpose, topics: Topics) -> Seq<char> {
    match purpose {
        Purpose::Mode => "failed to publish solar mode state"@,
        Purpose::State => "failed to publish solar debug state"@,
        Purpose::Current => "failed to publish max_current to topic '"@ + topics.set_max_current@
            + "'"@,
    }
}

/// What is shown to the user for a message that could not be published.
pub fn publish_failure(purpose: Purpose, topics: &Topics) -> (text: String)
    ensures
        text@ == publish_failure_text(purpose, *topics),
{
    match purpose {
        Purpose::Mode => "failed to publish solar mode state".to_owned(),
        Purpose::State => "failed to publish solar debug state".to_owned(),
        Purpose::Current => {
            let mut text = "failed to publish max_current to topic '".to_owned();
            text.append(topics.set_max_current.as_str());
            text.append("'");
            text
        },
    }
}

} // verus!
