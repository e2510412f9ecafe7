//! The charging current in solar mode. Times are nanoseconds on a clock that
//! starts anywhere.

use crate::ieee::{abs_below32, greater64, is_greater, is_negligible};
use crate::solar_config::{SolarControlConfig, Topics};
use crate::text::same_text;
use vstd::prelude::*;

verus! {

broadcast use vstd::string::group_string_axioms;

/// How long ago something happened, nothing where it lies ahead.
pub open spec fn elapsed(since: u64, now: u64) -> nat {
    if now >= since {
        (now - since) as nat
    } else {
        0
    }
}

/// How long ago something happened, nothing where it lies ahead.
pub fn time_since(since: u64, now: u64) -> (nanos: u64)
    ensures
        nanos == elapsed(since, now),
{
    if now >= since {
        now - since
    } else {
        0
    }
}

/// Whether something has lasted for a number of seconds.
pub open spec fn lasted(since: u64, now: u64, secs: u64) -> bool {
    elapsed(since, now) >= secs * 1_000_000_000
}

/// Whether something has lasted for a number of seconds.
pub fn has_lasted(since: u64, now: u64, secs: u64) -> (long_enough: bool)
    ensures
        long_enough == lasted(since, now, secs),
{
    time_since(since, now) as u128 >= secs as u128 * 1_000_000_000
}

/// Whether the solar mode is on and the power above the threshold.
pub open spec fn surplus(cfg: SolarControlConfig, solar_mode: bool, power_kw: Option<u64>) -> bool {
    solar_mode && power_kw is Some && greater64(power_kw->0, cfg.power_threshold_kw)
}

/// Whether the solar mode is on and a power is known that is not above the threshold.
pub open spec fn shortage(
    cfg: SolarControlConfig,
    solar_mode: bool,
    power_kw: Option<u64>,
) -> bool {
    solar_mode && power_kw is Some && !greater64(power_kw->0, cfg.power_threshold_kw)
}

/// A timer after an update: it goes on or starts while its condition holds,
/// and stops when it does not.
pub open spec fn timer(since: Option<u64>, running: bool, now: u64) -> Option<u64> {
    if !running {
        None
    } else if since is Some {
        since
    } else {
        Some(now)
    }
}

/// The current in solar mode while nothing has lasted long enough.
pub open spec fn kept_current(cfg: SolarControlConfig, previous_target: Option<u32>) -> u32 {
    match previous_target {
        Some(amps) => amps,
        None => cfg.solar_low_current_amps,
    }
}

/// The current that is asked for, given the timers after the update.
pub open spec fn chosen_current(
    cfg: SolarControlConfig,
    solar_mode: bool,
    high_since: Option<u64>,
    low_since: Option<u64>,
    previous_target: Option<u32>,
    now: u64,
) -> u32 {
    if !solar_mode {
        cfg.fixed_current_amps
    } else if high_since is Some && lasted(high_since->0, now, cfg.switch_high_after_secs) {
        cfg.solar_high_current_amps
    } else if low_since is Some && lasted(low_since->0, now, cfg.switch_low_after_secs) {
        cfg.solar_low_current_amps
    } else {
        kept_current(cfg, previous_target)
    }
}

/// The current to ask for. `high_since` and `low_since` say since when there
/// has been a surplus and since when one has been missing.
pub fn target_current(
    cfg: &SolarControlConfig,
    solar_mode: bool,
    power_kw: Option<u64>,
    high_since: &mut Option<u64>,
    low_since: &mut Option<u64>,
    previous_target: Option<u32>,
    now: u64,
) -> (target: u32)
    ensures
        *final(high_since) == timer(*old(high_since), surplus(*cfg, solar_mode, power_kw), now),
        *final(low_since) == timer(*old(low_since), shortage(*cfg, solar_mode, power_kw), now),
        target == chosen_current(
            *cfg,
            solar_mode,
            *final(high_since),
            *final(low_since),
            previous_target,
            now,
        ),
        *final(high_since) is Some <==> solar_mode && power_kw is Some && greater64(
            power_kw->0,
            cfg.power_threshold_kw,
        ),
        *final(low_since) is Some <==> solar_mode && power_kw is Some && !greater64(
            power_kw->0,
            cfg.power_threshold_kw,
        ),
        *final(high_since) is Some ==> *final(high_since) == (match *old(high_since) {
            Some(since) => Some(since),
            None => Some(now),
        }),
        *final(low_since) is Some ==> *final(low_since) == (match *old(low_since) {
            Some(since) => Some(since),
            None => Some(now),
        }),
        !solar_mode ==> target == cfg.fixed_current_amps,
{
    if !solar_mode {
        *high_since = None;
        *low_since = None;
        return cfg.fixed_current_amps;
    }
    let current_target = match previous_target {
        Some(amps) => amps,
        None => cfg.solar_low_current_amps,
    };
    match power_kw {
        Some(v) => if is_greater(v, cfg.power_threshold_kw) {
            *low_since = None;
            let since = match *high_since {
                Some(t) => t,
                None => now,
            };
            *high_since = Some(since);
            if has_lasted(since, now, cfg.switch_high_after_secs) {
                cfg.solar_high_current_amps
            } else {
                current_target
            }
        } else {
            *high_since = None;
            let since = match *low_since {
                Some(t) => t,
                None => now,
            };
            *low_since = Some(since);
            if has_lasted(since, now, cfg.switch_low_after_secs) {
                cfg.solar_low_current_amps
            } else {
                current_target
            }
        },
        None => {
            *high_since = None;
            *low_since = None;
            current_target
        },
    }
}

/// What a message on a topic is about.
#[derive(Debug, Clone, Copy, PartialEq, Eq, Structural)]
pub enum Route {
    Power,
    Mode,
    Nothing,
}

/// What a message on a topic is about. The power topic comes first.
pub open spec fn route_of(cfg: SolarControlConfig, topics: Topics, topic: Seq<char>) -> Route {
    if topic == cfg.power_topic@ {
        Route::Power
    } else if topic == topics.mode_command@ || (cfg.external_mode_topic is Some && topic
        == cfg.external_mode_topic->0@) {
        Route::Mode
    } else {
        Route::Nothing
    }
}

/// What a message on a topic is about.
pub fn route(cfg: &SolarControlConfig, topics: &Topics, topic: &str) -> (about: Route)
    ensures
        about == route_of(*cfg, *topics, topic@),
{
    if same_text(topic, cfg.power_topic.as_str()) {
        return Route::Power;
    }
    if same_text(topic, topics.mode_command.as_str()) {
        return Route::Mode;
    }
    match &cfg.external_mode_topic {
        Some(external) => if same_text(topic, external.as_str()) {
            Route::Mode
        } else {
            Route::Nothing
        },
        None => Route::Nothing,
    }
}

/// What the controller has read from a message; `None` where it cannot be read.
#[derive(Debug, Clone, Copy, PartialEq, Eq, Structural)]
pub enum SolarReading {
    Power(Option<u64>),
    Mode(Option<bool>),
}

/// What follows from a message.
#[derive(Debug, Clone, Copy, PartialEq, Eq, Structural)]
pub enum Reaction {
    /// Nothing.
    Ignored,
    /// The state is published, and the current where it is due. The mode is
    /// published before that if it has changed.
    Update { mode_changed: bool, target: u32 },
}

/// The state of the solar controller.
#[derive(Debug, Clone, Copy, PartialEq, Eq, Structural)]
pub struct SolarController {
    pub solar_mode: bool,
    pub power_kw: Option<u64>,
    pub last_published: Option<u32>,
    pub high_since: Option<u64>,
    pub low_since: Option<u64>,
}

/// The state of the controller before any message.
pub open spec fn fresh() -> SolarController {
    SolarController {
        solar_mode: false,
        power_kw: None,
        last_published: None,
        high_since: None,
        low_since: None,
    }
}

/// The controller with the timers that a mode and a power give.
pub open spec fn with_timers(
    c: SolarController,
    cfg: SolarControlConfig,
    now: u64,
) -> SolarController {
    SolarController {
        high_since: timer(c.high_since, surplus(cfg, c.solar_mode, c.power_kw), now),
        low_since: timer(c.low_since, shortage(cfg, c.solar_mode, c.power_kw), now),
        ..c
    }
}

/// The controller after a message was read.
pub open spec fn after_reading(
    c: SolarController,
    cfg: SolarControlConfig,
    reading: SolarReading,
    now: u64,
) -> SolarController {
    match reading {
        SolarReading::Power(Some(v)) => with_timers(
            SolarController { power_kw: Some(v), ..c },
            cfg,
            now,
        ),
        SolarReading::Mode(Some(mode)) => with_timers(
            SolarController { solar_mode: mode, ..c },
            cfg,
            now,
        ),
        _ => c,
    }
}

/// The current that the controller asks for.
pub open spec fn target_of(c: SolarController, cfg: SolarControlConfig, now: u64) -> u32 {
    chosen_current(cfg, c.solar_mode, c.high_since, c.low_since, c.last_published, now)
}

/// What follows from a message.
pub open spec fn reaction_to(
    c: SolarController,
    cfg: SolarControlConfig,
    reading: SolarReading,
    now: u64,
) -> Reaction {
    let after = after_reading(c, cfg, reading, now);
    match reading {
        SolarReading::Power(None) | SolarReading::Mode(None) => Reaction::Ignored,
        _ => Reaction::Update {
            mode_changed: after.solar_mode != c.solar_mode,
            target: target_of(after, cfg, now),
        },
    }
}

/// Whether a current has to be published. `difference` is the last published
/// current less the new one, and counts only if there is one.
pub open spec fn due(c: SolarController, cfg: SolarControlConfig, difference: u32) -> bool {
    !(cfg.publish_only_on_change && c.last_published is Some && abs_below32(
        difference,
        0x3C23_D70A,
    ))
}

impl SolarController {
    /// The controller before any message: the solar mode is off.
    pub fn new() -> (c: Self)
        ensures
            c == fresh(),
    {
        SolarController {
            solar_mode: false,
            power_kw: None,
            last_published: None,
            high_since: None,
            low_since: None,
        }
    }

    /// Takes in what was read from a message. What cannot be read changes nothing.
    pub fn react(&mut self, cfg: &SolarControlConfig, reading: SolarReading, now: u64) -> (reaction:
        Reaction)
        ensures
            *final(self) == after_reading(*old(self), *cfg, reading, now),
            reaction == reaction_to(*old(self), *cfg, reading, now),
    {
        let mut mode_changed = false;
        match reading {
            SolarReading::Power(Some(v)) => {
                self.power_kw = Some(v);
            },
            SolarReading::Mode(Some(mode)) => {
                mode_changed = self.solar_mode != mode;
                self.solar_mode = mode;
            },
            _ => {
                return Reaction::Ignored;
            },
        }
        let (mut high_since, mut low_since) = (self.high_since, self.low_since);
        let target = target_current(
            cfg,
            self.solar_mode,
            self.power_kw,
            &mut high_since,
            &mut low_since,
            self.last_published,
            now,
        );
        self.high_since = high_since;
        self.low_since = low_since;
        Reaction::Update { mode_changed, target }
    }

    /// Whether a current has to be published. `difference` is the last
    /// published current less the new one, and counts only if there is one.
    pub fn publish_due(&self, cfg: &SolarControlConfig, difference: u32) -> (publish: bool)
        ensures
            publish == due(*self, *cfg, difference),
    {
        !(cfg.publish_only_on_change && self.last_published.is_some() && is_negligible(difference))
    }

    /// Takes note of a current that was published.
    pub fn published(&mut self, target: u32)
        ensures
            *final(self) == (SolarController { last_published: Some(target), ..*old(self) }),
    {
        self.last_published = Some(target);
    }
}

} // verus!
