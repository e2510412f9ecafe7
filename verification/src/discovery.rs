//! What the controller publishes for Home Assistant to find it.

use crate::json_text::{
    ascending, compact, list_text, list_value, member_texts, object_text, object_value, push_member,
    quoted, smaller_at, quoted_value, value_text,
};
use crate::solar_config::{Config, Topics};
use serde_json::Value;
use vstd::prelude::*;
use vstd::string::StringExecFns;

verus! {

broadcast use vstd::string::group_string_axioms;

/// A message for the broker.
#[derive(Debug, PartialEq, Eq)]
pub struct Message {
    pub topic: String,
    pub payload: String,
    /// Whether the broker keeps the message for those who come later.
    pub retain: bool,
}

/// The charger, as the text of a JSON object.
pub open spec fn device_text(uid: Seq<char>, name: Seq<char>) -> Seq<char> {
    object_text(
        seq![
            ("identifiers"@, list_text(seq![quoted(uid)])),
            ("manufacturer"@, quoted("Alfen"@)),
            ("model"@, quoted("Eve"@)),
            ("name"@, quoted(name)),
        ],
    )
}

/// The members of the announcement of the switch for the solar mode.
pub open spec fn switch_members(cfg: Config, topics: Topics) -> Seq<(Seq<char>, Seq<char>)> {
    let uid = cfg.charger.unique_id@;
    let own = quoted(uid + "_solar_charging_mode"@);
    let on = quoted(cfg.solar_control.mode_on_payload@);
    let off = quoted(cfg.solar_control.mode_off_payload@);
    seq![
        ("command_topic"@, quoted(topics.mode_command@)),
        ("device"@, device_text(uid, cfg.charger.name@)),
        ("icon"@, quoted("mdi:solar-power"@)),
        ("name"@, quoted("Solar Charging Mode"@)),
        ("object_id"@, own),
        ("payload_off"@, off),
        ("payload_on"@, on),
        ("state_off"@, off),
        ("state_on"@, on),
        ("state_topic"@, quoted(topics.mode_state@)),
        ("unique_id"@, own),
    ]
}

/// The members of the announcement of the sensor for the state of the controller.
pub open spec fn sensor_members(cfg: Config, topics: Topics) -> Seq<(Seq<char>, Seq<char>)> {
    let uid = cfg.charger.unique_id@;
    let own = quoted(uid + "_solar_debug"@);
    seq![
        ("device"@, device_text(uid, cfg.charger.name@)),
        ("entity_category"@, quoted("diagnostic"@)),
        ("icon"@, quoted("mdi:chart-timeline-variant"@)),
        ("json_attributes_topic"@, quoted(topics.debug_state@)),
        ("name"@, quoted("Solar Charging Debug"@)),
        ("object_id"@, own),
        ("state_topic"@, quoted(topics.debug_state@)),
        ("unique_id"@, own),
        ("value_template"@, quoted("{{ value_json.summary }}"@)),
    ]
}

fn joined_text(front: &str, back: &str) -> (text: String)
    ensures
        text@ == front@ + back@,
{
    let mut text = front.to_owned();
    text.append(back);
    text
}

fn device_value(uid: &str, name: &str) -> (value: Value)
    ensures
        value_text(value) == device_text(uid@, name@),
{
    let mut identifiers: Vec<Value> = Vec::new();
    identifiers.push(quoted_value(uid));
    assert(identifiers@.map_values(|v: Value| value_text(v)) =~= seq![quoted(uid@)]);
    let mut members: Vec<(String, Value)> = Vec::new();
    push_member(&mut members, "identifiers", list_value(identifiers));
    push_member(&mut members, "manufacturer", quoted_value("Alfen"));
    push_member(&mut members, "model", quoted_value("Eve"));
    push_member(&mut members, "name", quoted_value(name));
    proof {
        reveal_strlit("identifiers");
        reveal_strlit("manufacturer");
        reveal_strlit("model");
        reveal_strlit("name");
        assert(smaller_at("identifiers"@, "manufacturer"@, 0));
        assert(smaller_at("manufacturer"@, "model"@, 1));
        assert(smaller_at("model"@, "name"@, 0));
        assert(ascending(member_texts(members@)));
        assert(member_texts(members@) =~= seq![
            ("identifiers"@, list_text(seq![quoted(uid@)])),
            ("manufacturer"@, quoted("Alfen"@)),
            ("model"@, quoted("Eve"@)),
            ("name"@, quoted(name@)),
        ]);
    }
    object_value(members)
}

/// The announcement of the switch for the solar mode.
pub fn switch_discovery(cfg: &Config, topics: &Topics) -> (message: Message)
    ensures
        message.topic@ == cfg.mqtt.ha_discovery_prefix@ + "/switch/"@ + cfg.charger.unique_id@
            + "_solar_charging_mode/config"@,
        message.payload@ == object_text(switch_members(*cfg, *topics)),
        message.retain,
{
    let uid = cfg.charger.unique_id.as_str();
    let control = &cfg.solar_control;
    let mut topic = cfg.mqtt.ha_discovery_prefix.clone();
    topic.append("/switch/");
    topic.append(uid);
    topic.append("_solar_charging_mode/config");
    let own = joined_text(uid, "_solar_charging_mode");
    let (on, off) = (control.mode_on_payload.as_str(), control.mode_off_payload.as_str());
    let mut members: Vec<(String, Value)> = Vec::new();
    push_member(&mut members, "command_topic", quoted_value(topics.mode_command.as_str()));
    push_member(&mut members, "device", device_value(uid, cfg.charger.name.as_str()));
    push_member(&mut members, "icon", quoted_value("mdi:solar-power"));
    push_member(&mut members, "name", quoted_value("Solar Charging Mode"));
    push_member(&mut members, "object_id", quoted_value(own.as_str()));
    push_member(&mut members, "payload_off", quoted_value(off));
    push_member(&mut members, "payload_on", quoted_value(on));
    push_member(&mut members, "state_off", quoted_value(off));
    push_member(&mut members, "state_on", quoted_value(on));
    push_member(&mut members, "state_topic", quoted_value(topics.mode_state.as_str()));
    push_member(&mut members, "unique_id", quoted_value(own.as_str()));
    proof {
        reveal_strlit("command_topic");
        reveal_strlit("device");
        reveal_strlit("icon");
        reveal_strlit("name");
        reveal_strlit("object_id");
        reveal_strlit("payload_off");
        reveal_strlit("payload_on");
        reveal_strlit("state_off");
        reveal_strlit("state_on");
        reveal_strlit("state_topic");
        reveal_strlit("unique_id");
        assert(smaller_at("command_topic"@, "device"@, 0));
        assert(smaller_at("device"@, "icon"@, 0));
        assert(smaller_at("icon"@, "name"@, 0));
        assert(smaller_at("name"@, "object_id"@, 0));
        assert(smaller_at("object_id"@, "payload_off"@, 0));
        assert(smaller_at("payload_off"@, "payload_on"@, 9));
        assert(smaller_at("payload_on"@, "state_off"@, 0));
        assert(smaller_at("state_off"@, "state_on"@, 7));
        assert(smaller_at("state_on"@, "state_topic"@, 6));
        assert(smaller_at("state_topic"@, "unique_id"@, 0));
        assert(ascending(member_texts(members@)));
        assert(member_texts(members@) =~= switch_members(*cfg, *topics));
    }
    let value = object_value(members);
    Message { topic, payload: compact(&value), retain: true }
}

/// The announcement of the sensor for the state of the controller.
pub fn sensor_discovery(cfg: &Config, topics: &Topics) -> (message: Message)
    ensures
        message.topic@ == cfg.mqtt.ha_discovery_prefix@ + "/sensor/"@ + cfg.charger.unique_id@
            + "_solar_debug/config"@,
        message.payload@ == object_text(sensor_members(*cfg, *topics)),
        message.retain,
{
    let uid = cfg.charger.unique_id.as_str();
    let mut topic = cfg.mqtt.ha_discovery_prefix.clone();
    topic.append("/sensor/");
    topic.append(uid);
    topic.append("_solar_debug/config");
    let own = joined_text(uid, "_solar_debug");
    let state = topics.debug_state.as_str();
    let mut members: Vec<(String, Value)> = Vec::new();
    push_member(&mut members, "device", device_value(uid, cfg.charger.name.as_str()));
    push_member(&mut members, "entity_category", quoted_value("diagnostic"));
    push_member(&mut members, "icon", quoted_value("mdi:chart-timeline-variant"));
    push_member(&mut members, "json_attributes_topic", quoted_value(state));
    push_member(&mut members, "name", quoted_value("Solar Charging Debug"));
    push_member(&mut members, "object_id", quoted_value(own.as_str()));
    push_member(&mut members, "state_topic", quoted_value(state));
    push_member(&mut members, "unique_id", quoted_value(own.as_str()));
    push_member(&mut members, "value_template", quoted_value("{{ value_json.summary }}"));
    proof {
        reveal_strlit("device");
        reveal_strlit("entity_category");
        reveal_strlit("icon");
        reveal_strlit("json_attributes_topic");
        reveal_strlit("name");
        reveal_strlit("object_id");
        reveal_strlit("state_topic");
        reveal_strlit("unique_id");
        reveal_strlit("value_template");
        assert(smaller_at("device"@, "entity_category"@, 0));
        assert(smaller_at("entity_category"@, "icon"@, 0));
        assert(smaller_at("icon"@, "json_attributes_topic"@, 0));
        assert(smaller_at("json_attributes_topic"@, "name"@, 0));
        assert(smaller_at("name"@, "object_id"@, 0));
        assert(smaller_at("object_id"@, "state_topic"@, 0));
        assert(smaller_at("state_topic"@, "unique_id"@, 0));
        assert(smaller_at("unique_id"@, "value_template"@, 0));
        assert(ascending(member_texts(members@)));
        assert(member_texts(members@) =~= sensor_members(*cfg, *topics));
    }
    let value = object_value(members);
    Message { topic, payload: compact(&value), retain: true }
}

} // verus!
