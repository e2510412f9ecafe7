//! What is published, told member by member.

use crate::discovery::{device_text, sensor_members, switch_members, Message};
use crate::json_text::{
    count_text, escaped, joined, list_text, object_text, quoted, value_text,
};
use crate::solar::SolarController;
use crate::solar_config::{topics_of, Config, SolarControlConfig, Topics};
use crate::solar_mode::mode_payload_of;
use crate::solar_state::{
    current_view, left_secs, mode_view, outgoing_views, publish_failure_text, run_secs,
    state_members, state_view, summary_of, Outgoing, Purpose, StateNumbers,
};
use crate::text::decimal;
use vstd::prelude::*;

verus! {

/// The topics lie below the prefix and the unique id, except where the
/// configuration names others.
pub proof fn law_topics(cfg: Config, topics: Topics)
    requires
        topics_of(cfg, topics),
    ensures
        ({
            let own = cfg.mqtt.topic_prefix@ + "/"@ + cfg.charger.unique_id@;
            let control = cfg.solar_control;
            &&& topics.set_max_current@ == own + "/set/max_current"@
            &&& topics.mode_command@ == (if control.mode_command_topic is Some {
                control.mode_command_topic->0@
            } else {
                own + "/set/solar_mode"@
            })
            &&& topics.mode_state@ == (if control.mode_state_topic is Some {
                control.mode_state_topic->0@
            } else {
                own + "/state/solar_mode"@
            })
            &&& topics.debug_state@ == (if control.debug_state_topic is Some {
                control.debug_state_topic->0@
            } else {
                own + "/state/solar_debug"@
            })
        }),
{
}

/// Whether a member of a name stands at a place.
pub open spec fn stands(
    members: Seq<(Seq<char>, Seq<char>)>,
    i: int,
    name: Seq<char>,
    text: Seq<char>,
) -> bool {
    0 <= i < members.len() && members[i].0 == name && members[i].1 == text
}

/// The charger is described by its unique id and its name.
pub proof fn law_device(uid: Seq<char>, name: Seq<char>)
    ensures
        device_text(uid, name) == object_text(
            seq![
                ("identifiers"@, list_text(seq![quoted(uid)])),
                ("manufacturer"@, quoted("Alfen"@)),
                ("model"@, quoted("Eve"@)),
                ("name"@, quoted(name)),
            ],
        ),
{
}

/// The switch is announced with the topics of the mode and with the configured
/// payloads, the same for its states as for its commands.
pub proof fn law_switch_announced(cfg: Config, topics: Topics)
    ensures
        ({
            let m = switch_members(cfg, topics);
            let own = cfg.charger.unique_id@ + "_solar_charging_mode"@;
            let on = cfg.solar_control.mode_on_payload@;
            let off = cfg.solar_control.mode_off_payload@;
            &&& m.len() == 11
            &&& stands(m, 0, "command_topic"@, quoted(topics.mode_command@))
            &&& stands(m, 1, "device"@, device_text(cfg.charger.unique_id@, cfg.charger.name@))
            &&& stands(m, 2, "icon"@, quoted("mdi:solar-power"@))
            &&& stands(m, 3, "name"@, quoted("Solar Charging Mode"@))
            &&& stands(m, 4, "object_id"@, quoted(own))
            &&& stands(m, 5, "payload_off"@, quoted(off))
            &&& stands(m, 6, "payload_on"@, quoted(on))
            &&& stands(m, 7, "state_off"@, quoted(off))
            &&& stands(m, 8, "state_on"@, quoted(on))
            &&& stands(m, 9, "state_topic"@, quoted(topics.mode_state@))
            &&& stands(m, 10, "unique_id"@, quoted(own))
        }),
{
}

/// The state that is published for a mode is the one that the announced switch
/// takes for it, on the topic where the switch looks for it.
pub proof fn law_switch_shows_mode(cfg: Config, topics: Topics, solar_mode: bool)
    ensures
        ({
            let message = mode_view(cfg.solar_control, topics, solar_mode);
            let m = switch_members(cfg, topics);
            &&& m[8].0 == "state_on"@ && m[7].0 == "state_off"@ && m[9].0 == "state_topic"@
            &&& quoted(message.payload) == m[if solar_mode {
                8int
            } else {
                7int
            }].1
            &&& quoted(message.topic) == m[9].1
            &&& message.retain
            &&& mode_payload_of(cfg.solar_control, solar_mode) == message.payload
        }),
{
}

/// The sensor is announced with the topic of the state, for its value as well
/// as for its attributes.
pub proof fn law_sensor_announced(cfg: Config, topics: Topics)
    ensures
        ({
            let m = sensor_members(cfg, topics);
            let own = cfg.charger.unique_id@ + "_solar_debug"@;
            &&& m.len() == 9
            &&& stands(m, 0, "device"@, device_text(cfg.charger.unique_id@, cfg.charger.name@))
            &&& stands(m, 1, "entity_category"@, quoted("diagnostic"@))
            &&& stands(m, 2, "icon"@, quoted("mdi:chart-timeline-variant"@))
            &&& stands(m, 3, "json_attributes_topic"@, quoted(topics.debug_state@))
            &&& stands(m, 4, "name"@, quoted("Solar Charging Debug"@))
            &&& stands(m, 5, "object_id"@, quoted(own))
            &&& stands(m, 6, "state_topic"@, quoted(topics.debug_state@))
            &&& stands(m, 7, "unique_id"@, quoted(own))
            &&& stands(m, 8, "value_template"@, quoted("{{ value_json.summary }}"@))
        }),
{
}

/// The seconds that a timer has run are the whole ones since it began; those
/// that are left are what is missing to the configured time, none of them
/// negative, the whole time where the timer does not run, and untold in fixed mode.
pub proof fn law_seconds(solar_mode: bool, since: Option<u64>, after_secs: u64, now: u64)
    ensures
        since is None ==> run_secs(since, now) is None,
        since is Some && now < since->0 ==> run_secs(since, now) == Some(0u64),
        since is Some && now >= since->0 ==> run_secs(since, now) == Some(
            ((now - since->0) / 1_000_000_000) as u64,
        ),
        !solar_mode ==> left_secs(solar_mode, since, after_secs, now) is None,
        solar_mode && (since is None || now < since->0) ==> left_secs(
            solar_mode,
            since,
            after_secs,
            now,
        ) == Some(after_secs),
        solar_mode && since is Some && now >= since->0 ==> {
            let left = after_secs - (now - since->0) / 1_000_000_000;
            left_secs(solar_mode, since, after_secs, now) == Some(
                (if left > 0 {
                    left
                } else {
                    0
                }) as u64,
            )
        },
{
}

/// The state tells of each timer the seconds that it has run and that are left,
/// by the time that is configured for it; of power and last current what is
/// known, and null where nothing is; and mode, threshold, times and target.
pub proof fn law_state_told(
    cfg: SolarControlConfig,
    c: SolarController,
    now: u64,
    numbers: StateNumbers,
)
    ensures
        ({
            let m = state_members(cfg, c, now, numbers);
            let line = summary_of(cfg, c, now, numbers.power_text@, numbers.target_text@);
            &&& m.len() == 12
            &&& stands(m, 0, "high_elapsed_secs"@, count_text(run_secs(c.high_since, now)))
            &&& stands(
                m,
                1,
                "high_remaining_secs"@,
                count_text(left_secs(c.solar_mode, c.high_since, cfg.switch_high_after_secs, now)),
            )
            &&& stands(
                m,
                2,
                "last_published_current_a"@,
                if c.last_published is Some {
                    value_text(numbers.last_published_current_a)
                } else {
                    "null"@
                },
            )
            &&& stands(m, 3, "low_elapsed_secs"@, count_text(run_secs(c.low_since, now)))
            &&& stands(
                m,
                4,
                "low_remaining_secs"@,
                count_text(left_secs(c.solar_mode, c.low_since, cfg.switch_low_after_secs, now)),
            )
            &&& stands(
                m,
                5,
                "mode"@,
                quoted(
                    if c.solar_mode {
                        "solar"@
                    } else {
                        "fixed"@
                    },
                ),
            )
            &&& stands(
                m,
                6,
                "power_kw"@,
                if c.power_kw is Some {
                    value_text(numbers.power_kw)
                } else {
                    "null"@
                },
            )
            &&& stands(m, 7, "summary"@, quoted(line))
            &&& stands(
                m,
                8,
                "switch_high_after_secs"@,
                decimal(cfg.switch_high_after_secs as nat),
            )
            &&& stands(m, 9, "switch_low_after_secs"@, decimal(cfg.switch_low_after_secs as nat))
            &&& stands(m, 10, "target_current_a"@, value_text(numbers.target_current_a))
            &&& stands(m, 11, "threshold_kw"@, value_text(numbers.threshold_kw))
        }),
{
}

/// The summary tells mode, power, target and what is left of both timers, none
/// in fixed mode.
pub proof fn law_summary(
    cfg: SolarControlConfig,
    c: SolarController,
    now: u64,
    power_text: Seq<char>,
    target_text: Seq<char>,
)
    ensures
        ({
            let high = left_secs(c.solar_mode, c.high_since, cfg.switch_high_after_secs, now);
            let low = left_secs(c.solar_mode, c.low_since, cfg.switch_low_after_secs, now);
            let mode = if c.solar_mode {
                "solar"@
            } else {
                "fixed"@
            };
            let power = if c.power_kw is Some {
                power_text + "kW"@
            } else {
                "n/a"@
            };
            let high_text = decimal(
                (if high is Some {
                    high->0
                } else {
                    0
                }) as nat,
            );
            let low_text = decimal(
                (if low is Some {
                    low->0
                } else {
                    0
                }) as nat,
            );
            summary_of(cfg, c, now, power_text, target_text) == "mode="@ + mode + ", power="@
                + power + ", target="@ + target_text + "A, hi_rem="@ + high_text + "s, lo_rem="@
                + low_text + "s"@
        }),
{
}

/// A count is written in decimal, and as null where there is none.
pub proof fn law_counts(n: u64)
    ensures
        count_text(Some(n)) == decimal(n as nat),
        count_text(None) == "null"@,
{
}

/// A text between quotes is escaped character by character, and most
/// characters stand for themselves; a list has commas between its items.
pub proof fn law_quoting(s: Seq<char>, c: char, items: Seq<Seq<char>>, item: Seq<char>)
    ensures
        quoted(s) == seq!['"'] + escaped(s) + seq!['"'],
        escaped(Seq::empty()) == Seq::<char>::empty(),
        c == '"' ==> escaped(s.push(c)) == escaped(s) + seq!['\\', '"'],
        c == '\\' ==> escaped(s.push(c)) == escaped(s) + seq!['\\', '\\'],
        escaped(s.push(c)) == escaped(s) + escaped(seq![c]),
        c as int >= 32 && c != '"' && c != '\\' ==> escaped(s.push(c)) == escaped(s).push(c),
        joined(seq![item]) == item,
        items.len() > 0 ==> joined(items.push(item)) == joined(items) + seq![','] + item,
        list_text(items) == seq!['['] + joined(items) + seq![']'],
        object_text(seq![(s, item)]) == seq!['{'] + (quoted(s) + seq![':'] + item) + seq!['}'],
{
    assert(s.push(c).drop_last() =~= s);
    assert(seq![c].drop_last() =~= Seq::<char>::empty());
    assert(escaped(seq![c].drop_last()) =~= Seq::<char>::empty());
    assert(escaped(s.push(c)) =~= escaped(s) + escaped(seq![c]));
    assert(c as int >= 32 && c != '"' && c != '\\' ==> escaped(s) + seq![c] =~= escaped(s).push(
        c,
    ));
    assert(items.push(item).drop_last() =~= items);
    assert(seq![(s, item)].map_values(
        |m: (Seq<char>, Seq<char>)| quoted(m.0) + seq![':'] + m.1,
    ) =~= seq![quoted(s) + seq![':'] + item]);
}

/// A further member of an object stands behind the others, after a comma.
pub proof fn law_object_grows(
    members: Seq<(Seq<char>, Seq<char>)>,
    name: Seq<char>,
    text: Seq<char>,
)
    requires
        members.len() > 0,
    ensures
        exists|inside: Seq<char>|
            object_text(members) == #[trigger] (seq!['{'] + inside + seq!['}']) && object_text(
                members.push((name, text)),
            ) == seq!['{'] + (inside + seq![','] + (quoted(name) + seq![':'] + text)) + seq!['}'],
{
    let write = |m: (Seq<char>, Seq<char>)| quoted(m.0) + seq![':'] + m.1;
    let items = members.map_values(write);
    let more = members.push((name, text)).map_values(write);
    assert(more.drop_last() =~= items);
    assert(object_text(members) == seq!['{'] + joined(items) + seq!['}']);
}

/// The messages: mode and state are kept by the broker, a current is not; each
/// goes to its own topic.
pub proof fn law_messages(
    cfg: SolarControlConfig,
    topics: Topics,
    c: SolarController,
    now: u64,
    numbers: StateNumbers,
    amps: Seq<char>,
)
    ensures
        ({
            let mode = mode_view(cfg, topics, c.solar_mode);
            let state = state_view(cfg, topics, c, now, numbers);
            let current = current_view(topics, amps);
            &&& mode.purpose == Purpose::Mode && mode.topic == topics.mode_state@ && mode.retain
            &&& mode.payload == (if c.solar_mode {
                cfg.mode_on_payload@
            } else {
                cfg.mode_off_payload@
            })
            &&& state.purpose == Purpose::State && state.topic == topics.debug_state@
                && state.retain
            &&& state.payload == object_text(state_members(cfg, c, now, numbers))
            &&& current.purpose == Purpose::Current && current.topic == topics.set_max_current@
                && !current.retain
            &&& current.payload == amps
        }),
{
}

/// Messages are seen as they are.
pub proof fn law_messages_seen(purpose: Purpose, message: Message, topics: Topics)
    ensures
        ({
            let outgoing = Outgoing { purpose, message };
            &&& outgoing@.purpose == purpose
            &&& outgoing@.topic == message.topic@
            &&& outgoing@.payload == message.payload@
            &&& outgoing@.retain == message.retain
        }),
        publish_failure_text(Purpose::Current, topics)
            == "failed to publish max_current to topic '"@ + topics.set_max_current@ + "'"@,
{
}

/// A list of messages is seen message by message.
pub proof fn law_message_lists_seen(messages: Seq<Outgoing>)
    ensures
        outgoing_views(messages).len() == messages.len(),
        forall|i: int|
            0 <= i < messages.len() ==> #[trigger] outgoing_views(messages)[i] == messages[i]@,
{
}

} // verus!
