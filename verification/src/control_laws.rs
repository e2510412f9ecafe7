//! What each message does to the solar controller, told of the states before
//! and after.

use crate::ieee::greater64;
use crate::solar::{
    after_reading, chosen_current, due, elapsed, fresh, lasted, reaction_to, route_of, shortage,
    surplus, target_of, timer, Reaction, Route, SolarController, SolarReading,
};
use crate::solar_config::{SolarControlConfig, Topics};
use crate::solar_mode::{commanded_mode, mode_payload_of};
use crate::text::{lowered, trimmed};
use vstd::prelude::*;
use vstd::utf8::{decode_utf8, valid_utf8};

verus! {

/// The controller begins in fixed mode, knows no power, has published nothing
/// and runs no timer.
pub proof fn law_controller_begins()
    ensures
        !fresh().solar_mode,
        fresh().power_kw is None,
        fresh().last_published is None,
        fresh().high_since is None,
        fresh().low_since is None,
{
}

/// A power that was read is the power from then on; mode and last published
/// current stay.
pub proof fn law_power_taken_in(c: SolarController, cfg: SolarControlConfig, power: u64, now: u64)
    ensures
        ({
            let after = after_reading(c, cfg, SolarReading::Power(Some(power)), now);
            let reaction = reaction_to(c, cfg, SolarReading::Power(Some(power)), now);
            &&& after.power_kw == Some(power)
            &&& after.solar_mode == c.solar_mode
            &&& after.last_published == c.last_published
            &&& reaction matches Reaction::Update { mode_changed, .. } && !mode_changed
        }),
{
}

/// A mode that was read is the mode from then on, and reported as changed
/// exactly where it was another one before; power and last published current stay.
pub proof fn law_mode_taken_in(c: SolarController, cfg: SolarControlConfig, mode: bool, now: u64)
    ensures
        ({
            let after = after_reading(c, cfg, SolarReading::Mode(Some(mode)), now);
            &&& after.solar_mode == mode
            &&& after.power_kw == c.power_kw
            &&& after.last_published == c.last_published
            &&& reaction_to(c, cfg, SolarReading::Mode(Some(mode)), now) matches Reaction::Update {
                mode_changed,
                ..
            } && (mode_changed <==> c.solar_mode != mode)
        }),
{
}

/// After a message that was read, the timer for a surplus runs exactly where
/// the solar mode is on and a power is known that is greater than the threshold
/// of this configuration, and the timer for a shortage exactly where one is
/// known that is not. A timer that runs goes on from where it began, or begins now.
pub proof fn law_timers_follow_threshold(
    c: SolarController,
    cfg: SolarControlConfig,
    reading: SolarReading,
    now: u64,
)
    requires
        reading is Power ==> reading->Power_0 is Some,
        reading is Mode ==> reading->Mode_0 is Some,
    ensures
        ({
            let after = after_reading(c, cfg, reading, now);
            let known = after.solar_mode && after.power_kw is Some;
            let above = known && greater64(after.power_kw->0, cfg.power_threshold_kw);
            let below = known && !greater64(after.power_kw->0, cfg.power_threshold_kw);
            &&& after.high_since is Some <==> above
            &&& after.low_since is Some <==> below
            &&& above ==> after.high_since->0 == (if c.high_since is Some {
                c.high_since->0
            } else {
                now
            })
            &&& below ==> after.low_since->0 == (if c.low_since is Some {
                c.low_since->0
            } else {
                now
            })
        }),
{
}

/// Two configurations whose thresholds lie on different sides of a power run
/// different timers on it.
pub proof fn law_threshold_decides(
    c: SolarController,
    low: SolarControlConfig,
    high: SolarControlConfig,
    power: u64,
    now: u64,
)
    requires
        c.solar_mode,
        greater64(power, low.power_threshold_kw),
        !greater64(power, high.power_threshold_kw),
    ensures
        ({
            let reading = SolarReading::Power(Some(power));
            let with_low = after_reading(c, low, reading, now);
            let with_high = after_reading(c, high, reading, now);
            &&& with_low.high_since is Some && with_low.low_since is None
            &&& with_high.low_since is Some && with_high.high_since is None
        }),
{
}

/// The timers of `target_current`: the one for a surplus runs afterwards
/// exactly where the solar mode is on and the power is greater than the
/// threshold of this configuration, the other exactly where it is not.
pub proof fn law_timer_choice(
    cfg: SolarControlConfig,
    solar_mode: bool,
    power_kw: Option<u64>,
    since: Option<u64>,
    now: u64,
)
    ensures
        ({
            let known = solar_mode && power_kw is Some;
            let high = timer(since, surplus(cfg, solar_mode, power_kw), now);
            let low = timer(since, shortage(cfg, solar_mode, power_kw), now);
            let begun = if since is Some {
                since->0
            } else {
                now
            };
            &&& !known ==> high is None && low is None
            &&& known && greater64(power_kw->0, cfg.power_threshold_kw) ==> high == Some(begun)
                && low is None
            &&& known && !greater64(power_kw->0, cfg.power_threshold_kw) ==> low == Some(begun)
                && high is None
        }),
{
}

/// Something has lasted for a number of seconds once as many thousand millions
/// of nanoseconds have passed; what lies ahead has lasted for none.
pub proof fn law_lasting(since: u64, now: u64, secs: u64)
    ensures
        now >= since ==> elapsed(since, now) == now - since,
        now < since ==> elapsed(since, now) == 0,
        lasted(since, now, secs) <==> secs == 0 || now >= since + secs * 1_000_000_000,
{
}

/// The current that is asked for: in fixed mode the fixed one; in solar mode
/// the high one after a surplus that has lasted as long as configured for
/// going up, the low one after a shortage that has lasted as long as configured
/// for going down, and otherwise the one last published, or the low one where
/// there is none.
pub proof fn law_current_chosen(
    cfg: SolarControlConfig,
    solar_mode: bool,
    high_since: Option<u64>,
    low_since: Option<u64>,
    previous: Option<u32>,
    now: u64,
)
    requires
        high_since is None || low_since is None,
    ensures
        ({
            let amps = chosen_current(cfg, solar_mode, high_since, low_since, previous, now);
            let up = high_since is Some && (cfg.switch_high_after_secs == 0 || now >= high_since->0
                + cfg.switch_high_after_secs * 1_000_000_000);
            let down = low_since is Some && (cfg.switch_low_after_secs == 0 || now >= low_since->0
                + cfg.switch_low_after_secs * 1_000_000_000);
            &&& !solar_mode ==> amps == cfg.fixed_current_amps
            &&& solar_mode && up ==> amps == cfg.solar_high_current_amps
            &&& solar_mode && down ==> amps == cfg.solar_low_current_amps
            &&& solar_mode && !up && !down && previous is Some ==> amps == previous->0
            &&& solar_mode && !up && !down && previous is None ==> amps
                == cfg.solar_low_current_amps
        }),
{
}

/// What a message asks for is the current that is chosen in the state after it,
/// from the timers and the last published current of that state.
pub proof fn law_target_of_state(
    c: SolarController,
    cfg: SolarControlConfig,
    reading: SolarReading,
    now: u64,
)
    ensures
        ({
            let after = after_reading(c, cfg, reading, now);
            &&& reaction_to(c, cfg, reading, now) matches Reaction::Update { target, .. } ==> target
                == target_of(after, cfg, now)
            &&& target_of(after, cfg, now) == chosen_current(
                cfg,
                after.solar_mode,
                after.high_since,
                after.low_since,
                after.last_published,
                now,
            )
            &&& reaction_to(c, cfg, reading, now) is Update <==> (reading matches
                SolarReading::Power(Some(_))) || (reading matches SolarReading::Mode(Some(_)))
        }),
{
}

/// A current is held back exactly where the configuration says so, one was
/// published before, and the two differ by less than a hundredth: by a pattern
/// below that of a hundredth, whatever its sign.
pub proof fn law_holding_back(c: SolarController, cfg: SolarControlConfig, difference: u32)
    ensures
        ({
            let size = if difference >= 0x8000_0000 {
                difference - 0x8000_0000
            } else {
                difference as int
            };
            due(c, cfg, difference) <==> !cfg.publish_only_on_change || c.last_published is None
                || size >= 0x3C23_D70A
        }),
{
}

/// A message is about the power where it comes on the configured power topic,
/// else about the mode where it comes on the command topic or on the external
/// one, if that is configured, else about nothing.
pub proof fn law_routes(cfg: SolarControlConfig, topics: Topics, topic: Seq<char>)
    ensures
        topic == cfg.power_topic@ ==> route_of(cfg, topics, topic) == Route::Power,
        topic != cfg.power_topic@ && topic == topics.mode_command@ ==> route_of(cfg, topics, topic)
            == Route::Mode,
        topic != cfg.power_topic@ && cfg.external_mode_topic is Some && topic
            == cfg.external_mode_topic->0@ ==> route_of(cfg, topics, topic) == Route::Mode,
        topic != cfg.power_topic@ && topic != topics.mode_command@ && (cfg.external_mode_topic
            is None || topic != cfg.external_mode_topic->0@) ==> route_of(cfg, topics, topic)
            == Route::Nothing,
{
}

/// A payload turns the mode on exactly where it is, without white space at its
/// ends and in any letter case, the configured word or one of four others; it
/// turns the mode off where it is one of four further ones and none of those.
pub proof fn law_mode_words(payload: Seq<u8>, on_payload: Seq<char>)
    ensures
        ({
            let s = lowered(trimmed(decode_utf8(payload)));
            let on = s == lowered(on_payload) || s == lowered("ON"@) || s == lowered("TRUE"@) || s
                == lowered("1"@) || s == lowered("SOLAR"@);
            let off = s == lowered("OFF"@) || s == lowered("FALSE"@) || s == lowered("0"@) || s
                == lowered("FIXED"@);
            &&& commanded_mode(payload, on_payload) == Some(true) <==> valid_utf8(payload) && on
            &&& commanded_mode(payload, on_payload) == Some(false) <==> valid_utf8(payload) && !on
                && off
        }),
{
}

/// What is published for the solar mode is the configured on payload, and for
/// the fixed mode the configured off payload, whatever they are.
pub proof fn law_mode_payloads(cfg: SolarControlConfig)
    ensures
        mode_payload_of(cfg, true) == cfg.mode_on_payload@,
        mode_payload_of(cfg, false) == cfg.mode_off_payload@,
{
}

} // verus!
