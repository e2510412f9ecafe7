//! What holds of the solar controller over any sequence of messages.

use crate::discovery::{sensor_members, switch_members};
use crate::json_text::quoted;
use crate::solar::{
    after_reading, due, fresh, kept_current, lasted, reaction_to, route_of, shortage, surplus,
    target_of, Reaction, Route, SolarController, SolarReading,
};
use crate::solar_config::{Config, SolarControlConfig, Topics};
use crate::solar_mode::{commanded_mode, law_published_mode_is_understood, says_off, turns_on};
use crate::solar_state::{state_members, summary_of, StateNumbers};
use crate::text::trimmed;
use vstd::prelude::*;
use vstd::utf8::encode_utf8;

verus! {

/// What happens to the controller.
pub enum Step {
    /// A message was read at a time.
    Read(SolarReading, u64),
    /// A current was published.
    Published(u32),
}

/// The controller after one step.
pub open spec fn stepped(
    c: SolarController,
    cfg: SolarControlConfig,
    step: Step,
) -> SolarController {
    match step {
        Step::Read(reading, now) => after_reading(c, cfg, reading, now),
        Step::Published(target) => SolarController { last_published: Some(target), ..c },
    }
}

/// The controller after a number of the steps, from its start.
pub open spec fn state_after(cfg: SolarControlConfig, steps: Seq<Step>, n: int) -> SolarController
    decreases n,
{
    if n <= 0 {
        fresh()
    } else {
        stepped(state_after(cfg, steps, n - 1), cfg, steps[n - 1])
    }
}

/// Whether there is a surplus after a number of the steps.
pub open spec fn surplus_after(cfg: SolarControlConfig, steps: Seq<Step>, n: int) -> bool {
    let c = state_after(cfg, steps, n);
    surplus(cfg, c.solar_mode, c.power_kw)
}

/// Whether a surplus is missing after a number of the steps.
pub open spec fn shortage_after(cfg: SolarControlConfig, steps: Seq<Step>, n: int) -> bool {
    let c = state_after(cfg, steps, n);
    shortage(cfg, c.solar_mode, c.power_kw)
}

/// Whether step `start` is a message read at time `since` that began a surplus
/// which has held after every step up to the first `n`.
pub open spec fn surplus_began(
    cfg: SolarControlConfig,
    steps: Seq<Step>,
    n: int,
    start: int,
    since: u64,
) -> bool {
    &&& 0 <= start < n
    &&& steps[start] is Read && steps[start]->Read_1 == since
    &&& !surplus_after(cfg, steps, start)
    &&& forall|j: int| start < j <= n ==> #[trigger] surplus_after(cfg, steps, j)
}

/// Whether step `start` is a message read at time `since` that began a shortage
/// which has held after every step up to the first `n`.
pub open spec fn shortage_began(
    cfg: SolarControlConfig,
    steps: Seq<Step>,
    n: int,
    start: int,
    since: u64,
) -> bool {
    &&& 0 <= start < n
    &&& steps[start] is Read && steps[start]->Read_1 == since
    &&& !shortage_after(cfg, steps, start)
    &&& forall|j: int| start < j <= n ==> #[trigger] shortage_after(cfg, steps, j)
}

/// The timer for a surplus runs exactly while there is one, and from the time
/// of the message that began it.
pub proof fn law_surplus_timer(cfg: SolarControlConfig, steps: Seq<Step>, n: int)
    requires
        0 <= n <= steps.len(),
    ensures
        match state_after(cfg, steps, n).high_since {
            Some(since) => exists|start: int| surplus_began(cfg, steps, n, start, since),
            None => !surplus_after(cfg, steps, n),
        },
    decreases n,
{
    if n > 0 {
        law_surplus_timer(cfg, steps, n - 1);
        let before = state_after(cfg, steps, n - 1);
        let c = state_after(cfg, steps, n);
        if c.high_since is Some {
            let since = c.high_since->0;
            if before.high_since is Some {
                let m = n - 1;
                let start = choose|start: int| surplus_began(cfg, steps, m, start, since);
                assert(surplus_after(cfg, steps, m));
                assert(surplus_after(cfg, steps, n));
                assert(surplus_began(cfg, steps, n, start, since));
            } else {
                assert(surplus_began(cfg, steps, n, n - 1, since));
            }
        }
    }
}

/// The timer for a shortage runs exactly while there is one, and from the time
/// of the message that began it.
pub proof fn law_shortage_timer(cfg: SolarControlConfig, steps: Seq<Step>, n: int)
    requires
        0 <= n <= steps.len(),
    ensures
        match state_after(cfg, steps, n).low_since {
            Some(since) => exists|start: int| shortage_began(cfg, steps, n, start, since),
            None => !shortage_after(cfg, steps, n),
        },
    decreases n,
{
    if n > 0 {
        law_shortage_timer(cfg, steps, n - 1);
        let before = state_after(cfg, steps, n - 1);
        let c = state_after(cfg, steps, n);
        if c.low_since is Some {
            let since = c.low_since->0;
            if before.low_since is Some {
                let m = n - 1;
                let start = choose|start: int| shortage_began(cfg, steps, m, start, since);
                assert(shortage_after(cfg, steps, m));
                assert(shortage_after(cfg, steps, n));
                assert(shortage_began(cfg, steps, n, start, since));
            } else {
                assert(shortage_began(cfg, steps, n, n - 1, since));
            }
        }
    }
}

/// In solar mode the current that a message asks for differs from the one last
/// published only where a surplus, or a shortage, has held without a break for
/// the configured time; it is then the high, or the low, current.
pub proof fn law_current_changes_late(cfg: SolarControlConfig, steps: Seq<Step>, n: int)
    requires
        0 < n <= steps.len(),
        steps[n - 1] is Read,
        state_after(cfg, steps, n).solar_mode,
    ensures
        ({
            let c = state_after(cfg, steps, n);
            let now = steps[n - 1]->Read_1;
            let target = target_of(c, cfg, now);
            ||| target == kept_current(cfg, c.last_published)
            ||| target == cfg.solar_high_current_amps && exists|start: int, since: u64|
                #[trigger] surplus_began(cfg, steps, n, start, since) && lasted(
                    since,
                    now,
                    cfg.switch_high_after_secs,
                )
            ||| target == cfg.solar_low_current_amps && exists|start: int, since: u64|
                #[trigger] shortage_began(cfg, steps, n, start, since) && lasted(
                    since,
                    now,
                    cfg.switch_low_after_secs,
                )
        }),
{
    law_surplus_timer(cfg, steps, n);
    law_shortage_timer(cfg, steps, n);
}

/// In solar mode a surplus that has held without a break for the configured
/// time gives the high current.
pub proof fn law_long_surplus_raises(
    cfg: SolarControlConfig,
    steps: Seq<Step>,
    n: int,
    start: int,
    since: u64,
    now: u64,
)
    requires
        0 <= n <= steps.len(),
        surplus_began(cfg, steps, n, start, since),
        lasted(since, now, cfg.switch_high_after_secs),
    ensures
        target_of(state_after(cfg, steps, n), cfg, now) == cfg.solar_high_current_amps,
{
    lemma_surplus_start(cfg, steps, n, start, since);
    assert(surplus_after(cfg, steps, n));
}

/// In solar mode a shortage that has held without a break for the configured
/// time gives the low current.
pub proof fn law_long_shortage_lowers(
    cfg: SolarControlConfig,
    steps: Seq<Step>,
    n: int,
    start: int,
    since: u64,
    now: u64,
)
    requires
        0 <= n <= steps.len(),
        shortage_began(cfg, steps, n, start, since),
        lasted(since, now, cfg.switch_low_after_secs),
    ensures
        target_of(state_after(cfg, steps, n), cfg, now) == cfg.solar_low_current_amps,
{
    lemma_shortage_start(cfg, steps, n, start, since);
    assert(shortage_after(cfg, steps, n));
    law_one_timer(cfg, steps, n);
}

proof fn lemma_surplus_start(
    cfg: SolarControlConfig,
    steps: Seq<Step>,
    n: int,
    start: int,
    since: u64,
)
    requires
        0 <= n <= steps.len(),
        surplus_began(cfg, steps, n, start, since),
    ensures
        state_after(cfg, steps, n).high_since == Some(since),
    decreases n,
{
    assert(surplus_after(cfg, steps, n));
    if start == n - 1 {
        law_surplus_timer(cfg, steps, n - 1);
        if state_after(cfg, steps, n - 1).high_since is Some {
            let m = n - 1;
            let since0 = state_after(cfg, steps, m).high_since->0;
            let start0 = choose|start0: int| surplus_began(cfg, steps, m, start0, since0);
            assert(surplus_after(cfg, steps, m));
        }
    } else {
        assert(surplus_began(cfg, steps, n - 1, start, since));
        lemma_surplus_start(cfg, steps, n - 1, start, since);
    }
}

proof fn lemma_shortage_start(
    cfg: SolarControlConfig,
    steps: Seq<Step>,
    n: int,
    start: int,
    since: u64,
)
    requires
        0 <= n <= steps.len(),
        shortage_began(cfg, steps, n, start, since),
    ensures
        state_after(cfg, steps, n).low_since == Some(since),
    decreases n,
{
    assert(shortage_after(cfg, steps, n));
    if start == n - 1 {
        law_shortage_timer(cfg, steps, n - 1);
        if state_after(cfg, steps, n - 1).low_since is Some {
            let m = n - 1;
            let since0 = state_after(cfg, steps, m).low_since->0;
            let start0 = choose|start0: int| shortage_began(cfg, steps, m, start0, since0);
            assert(shortage_after(cfg, steps, m));
        }
    } else {
        assert(shortage_began(cfg, steps, n - 1, start, since));
        lemma_shortage_start(cfg, steps, n - 1, start, since);
    }
}

/// At most one of the timers runs, and none while the solar mode is off.
pub proof fn law_one_timer(cfg: SolarControlConfig, steps: Seq<Step>, n: int)
    requires
        0 <= n <= steps.len(),
    ensures
        ({
            let c = state_after(cfg, steps, n);
            &&& c.high_since is None || c.low_since is None
            &&& !c.solar_mode ==> c.high_since is None && c.low_since is None
        }),
    decreases n,
{
    if n > 0 {
        law_one_timer(cfg, steps, n - 1);
        law_surplus_timer(cfg, steps, n);
        law_shortage_timer(cfg, steps, n);
        let c = state_after(cfg, steps, n);
        if c.high_since is Some {
            let since = c.high_since->0;
            let start = choose|start: int| surplus_began(cfg, steps, n, start, since);
            assert(surplus_after(cfg, steps, n));
        }
        if c.low_since is Some {
            let since = c.low_since->0;
            let start = choose|start: int| shortage_began(cfg, steps, n, start, since);
            assert(shortage_after(cfg, steps, n));
        }
    }
}

/// Whatever has happened, the current that a message asks for is one of the
/// three configured ones or the one last published.
pub proof fn law_current_is_configured(
    c: SolarController,
    cfg: SolarControlConfig,
    reading: SolarReading,
    now: u64,
)
    ensures
        reaction_to(c, cfg, reading, now) matches Reaction::Update { target, .. } ==> {
            ||| target == cfg.fixed_current_amps
            ||| target == cfg.solar_high_current_amps
            ||| target == cfg.solar_low_current_amps
            ||| c.last_published == Some(target)
        },
{
}

/// Whether a current is one of the three configured ones.
pub open spec fn configured(cfg: SolarControlConfig, amps: u32) -> bool {
    ||| amps == cfg.fixed_current_amps
    ||| amps == cfg.solar_high_current_amps
    ||| amps == cfg.solar_low_current_amps
}

/// Whether step `i`, if it publishes a current, publishes the one that the
/// message just before asks for.
pub open spec fn publishes_target(cfg: SolarControlConfig, steps: Seq<Step>, i: int) -> bool {
    steps[i] matches Step::Published(amps) ==> i > 0 && match steps[i - 1] {
        Step::Read(reading, now) => {
            let reaction = reaction_to(state_after(cfg, steps, i - 1), cfg, reading, now);
            reaction is Update && reaction->target == amps
        },
        Step::Published(_) => false,
    }
}

/// Where only what the messages ask for is published, the last published
/// current is a configured one, and so is every current that is asked for.
pub proof fn law_only_configured_currents(cfg: SolarControlConfig, steps: Seq<Step>, n: int)
    requires
        0 <= n <= steps.len(),
        forall|i: int| 0 <= i < n ==> #[trigger] publishes_target(cfg, steps, i),
    ensures
        state_after(cfg, steps, n).last_published matches Some(amps) ==> configured(cfg, amps),
        forall|reading: SolarReading, now: u64|
            #[trigger] reaction_to(
                state_after(cfg, steps, n),
                cfg,
                reading,
                now,
            ) matches Reaction::Update { target, .. } ==> configured(cfg, target),
    decreases n,
{
    if n > 0 {
        let m = n - 1;
        law_only_configured_currents(cfg, steps, m);
        assert(publishes_target(cfg, steps, m));
        if steps[m] is Published {
            law_only_configured_currents(cfg, steps, m - 1);
        }
    }
}

/// Turning the solar mode off asks for the fixed current at once.
pub proof fn law_off_is_fixed(c: SolarController, cfg: SolarControlConfig, now: u64)
    ensures
        reaction_to(c, cfg, SolarReading::Mode(Some(false)), now) == (Reaction::Update {
            mode_changed: c.solar_mode,
            target: cfg.fixed_current_amps,
        }),
{
}

/// A message that cannot be read changes nothing and has no answer.
pub proof fn law_unreadable_is_ignored(
    c: SolarController,
    cfg: SolarControlConfig,
    reading: SolarReading,
    now: u64,
)
    requires
        reading == SolarReading::Power(None) || reading == SolarReading::Mode(None),
    ensures
        after_reading(c, cfg, reading, now) == c,
        reaction_to(c, cfg, reading, now) == Reaction::Ignored,
{
}

/// The first current is published, and every one where the configuration says
/// so; else one that does not differ from the last is not published again.
/// The difference of two equal numbers is a zero.
pub proof fn law_same_current_once(c: SolarController, cfg: SolarControlConfig, difference: u32)
    ensures
        c.last_published is None ==> due(c, cfg, difference),
        !cfg.publish_only_on_change ==> due(c, cfg, difference),
        cfg.publish_only_on_change && c.last_published is Some ==> !due(c, cfg, 0) && !due(
            c,
            cfg,
            0x8000_0000,
        ),
{
}

/// The announced switch works: what it is told to publish for on, on the topic
/// it is told to publish it to, turns the solar mode on. What is left of the
/// payload without white space at its ends has to be understood, and the power
/// topic is taken for power.
pub proof fn law_switch_turns_on(cfg: Config, topics: Topics, c: SolarController, now: u64)
    requires
        ({
            let on = cfg.solar_control.mode_on_payload@;
            trimmed(on) == on || turns_on(trimmed(on), on)
        }),
        topics.mode_command@ != cfg.solar_control.power_topic@,
    ensures
        ({
            let on = cfg.solar_control.mode_on_payload@;
            let mode = commanded_mode(encode_utf8(on), on);
            &&& switch_members(cfg, topics).contains(
                ("command_topic"@, quoted(topics.mode_command@)),
            )
            &&& switch_members(cfg, topics).contains(("payload_on"@, quoted(on)))
            &&& route_of(cfg.solar_control, topics, topics.mode_command@) == Route::Mode
            &&& after_reading(c, cfg.solar_control, SolarReading::Mode(mode), now).solar_mode
        }),
{
    law_published_mode_is_understood(cfg.solar_control, true);
    assert(switch_members(cfg, topics)[0].0 == "command_topic"@);
    assert(switch_members(cfg, topics)[6].0 == "payload_on"@);
}

/// The announced switch works the other way too: what it is told to publish
/// for off, on the same topic, turns the solar mode off. The payload has to be
/// one of the words for off, and none that turns the mode on.
pub proof fn law_switch_turns_off(cfg: Config, topics: Topics, c: SolarController, now: u64)
    requires
        ({
            let off = trimmed(cfg.solar_control.mode_off_payload@);
            says_off(off) && !turns_on(off, cfg.solar_control.mode_on_payload@)
        }),
        topics.mode_command@ != cfg.solar_control.power_topic@,
    ensures
        ({
            let off = cfg.solar_control.mode_off_payload@;
            let mode = commanded_mode(encode_utf8(off), cfg.solar_control.mode_on_payload@);
            &&& switch_members(cfg, topics).contains(
                ("command_topic"@, quoted(topics.mode_command@)),
            )
            &&& switch_members(cfg, topics).contains(("payload_off"@, quoted(off)))
            &&& route_of(cfg.solar_control, topics, topics.mode_command@) == Route::Mode
            &&& mode == Some(false)
            &&& !after_reading(c, cfg.solar_control, SolarReading::Mode(mode), now).solar_mode
        }),
{
    law_published_mode_is_understood(cfg.solar_control, false);
    assert(switch_members(cfg, topics)[0].0 == "command_topic"@);
    assert(switch_members(cfg, topics)[5].0 == "payload_off"@);
}

/// The announced sensor shows the summary of the published state: it reads the
/// member `summary` of what is published on the topic it is told.
pub proof fn law_sensor_shows_summary(
    cfg: Config,
    topics: Topics,
    c: SolarController,
    now: u64,
    numbers: StateNumbers,
)
    ensures
        sensor_members(cfg, topics).contains(("state_topic"@, quoted(topics.debug_state@))),
        sensor_members(cfg, topics).contains(
            ("value_template"@, quoted("{{ value_json.summary }}"@)),
        ),
        state_members(cfg.solar_control, c, now, numbers).contains(
            (
                "summary"@,
                quoted(
                    summary_of(
                        cfg.solar_control,
                        c,
                        now,
                        numbers.power_text@,
                        numbers.target_text@,
                    ),
                ),
            ),
        ),
{
    assert(sensor_members(cfg, topics)[6].0 == "state_topic"@);
    assert(sensor_members(cfg, topics)[8].0 == "value_template"@);
    assert(state_members(cfg.solar_control, c, now, numbers)[7].0 == "summary"@);
}

} // verus!
