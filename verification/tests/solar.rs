use alfen_eve::discovery::{sensor_discovery, switch_discovery, Message};
use alfen_eve::solar::{
    has_lasted, route, target_current, time_since, Reaction, Route, SolarController, SolarReading,
};
use alfen_eve::solar_config::{
    client_name, credentials, default_charger_name, default_fixed_current_amps,
    default_ha_discovery_prefix, default_high_current_amps, default_low_current_amps,
    default_mode_off_payload, default_mode_on_payload, default_power_topic,
    default_publish_ha_discovery, default_publish_on_change, default_switch_high_after_secs,
    default_switch_low_after_secs, default_threshold_kw, ChargerConfig, Config, MqttConfig,
    SolarControlConfig, Topics,
};
use alfen_eve::solar_mode::{mode_payload, parse_mode};
use alfen_eve::solar_state::{
    current_message, messages_after, messages_at_start, mode_message, publish_failure,
    seconds_left, seconds_run, state_message, summary, Outgoing, Purpose, StateNumbers,
};
use serde_json::Value;

const SECOND: u64 = 1_000_000_000;

fn control() -> SolarControlConfig {
    SolarControlConfig::default()
}

fn distinct_control() -> SolarControlConfig {
    let mut cfg = control();
    cfg.solar_high_current_amps = 16f32.to_bits();
    cfg.fixed_current_amps = 10f32.to_bits();
    cfg
}

fn config() -> Config {
    Config {
        mqtt: MqttConfig {
            host: "broker".to_string(),
            port: 1883,
            client_id: "eve".to_string(),
            username: None,
            password: None,
            topic_prefix: "alfen".to_string(),
            ha_discovery_prefix: default_ha_discovery_prefix(),
        },
        charger: ChargerConfig {
            name: default_charger_name(),
            unique_id: "alfen_eve_01".to_string(),
        },
        solar_control: control(),
    }
}

fn kw(v: f64) -> SolarReading {
    SolarReading::Power(Some(v.to_bits()))
}

fn target(reaction: Reaction) -> f32 {
    match reaction {
        Reaction::Update { target, .. } => f32::from_bits(target),
        Reaction::Ignored => panic!("ignored"),
    }
}

#[test]
fn defaults_of_the_solar_controller() {
    assert_eq!(default_ha_discovery_prefix(), "homeassistant");
    assert_eq!(default_charger_name(), "Alfen Eve");
    assert_eq!(
        default_power_topic(),
        "homeassistant/sensor/esp_p1/dsmr_reader_power_returned/state"
    );
    assert_eq!(f64::from_bits(default_threshold_kw()), 5.0);
    assert_eq!(default_switch_high_after_secs(), 300);
    assert_eq!(default_switch_low_after_secs(), 300);
    assert_eq!(f32::from_bits(default_high_current_amps()), 6.0);
    assert_eq!(f32::from_bits(default_low_current_amps()), 4.0);
    assert_eq!(f32::from_bits(default_fixed_current_amps()), 6.0);
    assert_eq!(default_mode_on_payload(), "ON");
    assert_eq!(default_mode_off_payload(), "OFF");
    assert!(default_publish_on_change());
    assert!(default_publish_ha_discovery());
}

#[test]
fn the_default_control_holds_the_defaults() {
    let cfg = control();
    assert_eq!(cfg.power_topic, default_power_topic());
    assert_eq!(cfg.external_mode_topic, None);
    assert_eq!(cfg.mode_command_topic, None);
    assert_eq!(cfg.mode_state_topic, None);
    assert_eq!(cfg.debug_state_topic, None);
    assert_eq!(cfg.power_threshold_kw, 5f64.to_bits());
    assert_eq!(cfg.switch_high_after_secs, 300);
    assert_eq!(cfg.switch_low_after_secs, 300);
    assert_eq!(cfg.solar_high_current_amps, 6f32.to_bits());
    assert_eq!(cfg.solar_low_current_amps, 4f32.to_bits());
    assert_eq!(cfg.fixed_current_amps, 6f32.to_bits());
    assert_eq!(cfg.mode_on_payload, "ON");
    assert_eq!(cfg.mode_off_payload, "OFF");
    assert!(cfg.publish_only_on_change);
    assert!(cfg.publish_ha_discovery);
}

#[test]
fn topics_are_below_the_charger() {
    let mut cfg = config();
    let topics = Topics::new(&cfg);
    assert_eq!(topics.set_max_current, "alfen/alfen_eve_01/set/max_current");
    assert_eq!(topics.mode_command, "alfen/alfen_eve_01/set/solar_mode");
    assert_eq!(topics.mode_state, "alfen/alfen_eve_01/state/solar_mode");
    assert_eq!(topics.debug_state, "alfen/alfen_eve_01/state/solar_debug");
    cfg.solar_control.mode_command_topic = Some("a".to_string());
    cfg.solar_control.mode_state_topic = Some("b".to_string());
    cfg.solar_control.debug_state_topic = Some("c".to_string());
    let topics = Topics::new(&cfg);
    assert_eq!(topics.mode_command, "a");
    assert_eq!(topics.mode_state, "b");
    assert_eq!(topics.debug_state, "c");
    assert_eq!(topics.set_max_current, "alfen/alfen_eve_01/set/max_current");
}

#[test]
fn the_client_has_a_name_of_its_own() {
    assert_eq!(client_name(&config().mqtt), "eve-alfen_solar");
}

#[test]
fn credentials_need_a_user() {
    let mut mqtt = config().mqtt;
    assert_eq!(credentials(&mqtt), None);
    mqtt.password = Some("p".to_string());
    assert_eq!(credentials(&mqtt), None);
    mqtt.username = Some(String::new());
    assert_eq!(credentials(&mqtt), None);
    mqtt.username = Some("u".to_string());
    assert_eq!(credentials(&mqtt), Some(("u".to_string(), "p".to_string())));
    mqtt.password = None;
    assert_eq!(credentials(&mqtt), Some(("u".to_string(), String::new())));
}

#[test]
fn modes_are_read_from_words() {
    for s in ["ON", "on", "True", "1", "SOLAR", " solar\n", "Enabled"] {
        assert_eq!(parse_mode(s.as_bytes(), "enabled"), Some(true), "{s}");
    }
    for s in ["OFF", "off", "False", "0", "FIXED", "\tfixed "] {
        assert_eq!(parse_mode(s.as_bytes(), "ON"), Some(false), "{s}");
    }
    for s in ["", "maybe", "o n", "2"] {
        assert_eq!(parse_mode(s.as_bytes(), "ON"), None, "{s}");
    }
    assert_eq!(parse_mode(&[0xFF, b'O', b'N'], "ON"), None);
    assert_eq!(parse_mode(b"off", "OFF"), Some(true));
    assert_eq!(parse_mode(b"", ""), Some(true));
}

#[test]
fn published_modes_are_understood() {
    let cfg = control();
    for mode in [true, false] {
        let payload = mode_payload(&cfg, mode);
        assert_eq!(parse_mode(payload.as_bytes(), &cfg.mode_on_payload), Some(mode));
    }
    assert_eq!(mode_payload(&cfg, true), "ON");
    assert_eq!(mode_payload(&cfg, false), "OFF");
}

#[test]
fn time_does_not_run_backwards() {
    assert_eq!(time_since(5, 12), 7);
    assert_eq!(time_since(12, 5), 0);
    assert!(has_lasted(0, 300 * SECOND, 300));
    assert!(!has_lasted(0, 300 * SECOND - 1, 300));
    assert!(has_lasted(9, 5, 0));
    assert!(!has_lasted(0, u64::MAX, u64::MAX));
}

#[test]
fn the_fixed_mode_stops_the_timers() {
    let cfg = distinct_control();
    let (mut high, mut low) = (Some(1), Some(2));
    let amps = target_current(&cfg, false, Some(9f64.to_bits()), &mut high, &mut low, None, 3);
    assert_eq!(f32::from_bits(amps), 10.0);
    assert_eq!((high, low), (None, None));
}

#[test]
fn a_surplus_has_to_last() {
    let cfg = distinct_control();
    let power = Some(5.1f64.to_bits());
    let (mut high, mut low) = (None, Some(7));
    let amps = target_current(&cfg, true, power, &mut high, &mut low, None, 10);
    assert_eq!(f32::from_bits(amps), 4.0);
    assert_eq!((high, low), (Some(10), None));
    let at = 10 + 300 * SECOND;
    let previous = Some(8f32.to_bits());
    let amps = target_current(&cfg, true, power, &mut high, &mut low, previous, at - 1);
    assert_eq!(f32::from_bits(amps), 8.0);
    let amps = target_current(&cfg, true, power, &mut high, &mut low, previous, at);
    assert_eq!(f32::from_bits(amps), 16.0);
    assert_eq!((high, low), (Some(10), None));
}

#[test]
fn a_shortage_has_to_last() {
    let cfg = distinct_control();
    let previous = Some(16f32.to_bits());
    for power in [5.0, -1.0, f64::NAN] {
        let power = Some(power.to_bits());
        let (mut high, mut low) = (Some(3), None);
        let amps = target_current(&cfg, true, power, &mut high, &mut low, previous, 10);
        assert_eq!(f32::from_bits(amps), 16.0);
        assert_eq!((high, low), (None, Some(10)));
        let at = 10 + 300 * SECOND;
        let amps = target_current(&cfg, true, power, &mut high, &mut low, previous, at);
        assert_eq!(f32::from_bits(amps), 4.0);
    }
}

#[test]
fn an_unknown_power_keeps_the_current() {
    let cfg = distinct_control();
    let (mut high, mut low) = (Some(3), Some(4));
    let previous = Some(9f32.to_bits());
    let amps = target_current(&cfg, true, None, &mut high, &mut low, previous, 10);
    assert_eq!(f32::from_bits(amps), 9.0);
    assert_eq!((high, low), (None, None));
}

#[test]
fn messages_are_routed_by_topic() {
    let mut cfg = config();
    cfg.solar_control.external_mode_topic = Some("ext/mode".to_string());
    let topics = Topics::new(&cfg);
    let to = |topic: &str| route(&cfg.solar_control, &topics, topic);
    assert_eq!(to(&cfg.solar_control.power_topic), Route::Power);
    assert_eq!(to("alfen/alfen_eve_01/set/solar_mode"), Route::Mode);
    assert_eq!(to("ext/mode"), Route::Mode);
    assert_eq!(to("ext"), Route::Nothing);
    let plain = config();
    assert_eq!(route(&plain.solar_control, &topics, "ext/mode"), Route::Nothing);
}

#[test]
fn a_controller_starts_in_fixed_mode() {
    let controller = SolarController::new();
    assert!(!controller.solar_mode);
    assert_eq!(controller.power_kw, None);
    assert_eq!(controller.last_published, None);
    assert_eq!((controller.high_since, controller.low_since), (None, None));
}

#[test]
fn a_day_in_the_sun() {
    let cfg = distinct_control();
    let mut c = SolarController::new();
    let on = SolarReading::Mode(Some(true));
    let off = SolarReading::Mode(Some(false));

    assert_eq!(target(c.react(&cfg, kw(9.0), 0)), 10.0);
    c.published(10f32.to_bits());
    let reaction = c.react(&cfg, on, SECOND);
    assert_eq!(reaction, Reaction::Update { mode_changed: true, target: 10f32.to_bits() });
    assert_eq!(c.high_since, Some(SECOND));
    assert_eq!(target(c.react(&cfg, kw(8.0), 200 * SECOND)), 10.0);
    assert_eq!(target(c.react(&cfg, kw(7.0), 301 * SECOND)), 16.0);
    c.published(16f32.to_bits());
    assert_eq!(target(c.react(&cfg, kw(1.0), 302 * SECOND)), 16.0);
    assert_eq!(target(c.react(&cfg, kw(6.0), 303 * SECOND)), 16.0);
    assert_eq!(target(c.react(&cfg, kw(1.0), 304 * SECOND)), 16.0);
    assert_eq!(c.low_since, Some(304 * SECOND));
    assert_eq!(target(c.react(&cfg, kw(1.0), 603 * SECOND)), 16.0);
    assert_eq!(target(c.react(&cfg, kw(1.0), 604 * SECOND)), 4.0);
    c.published(4f32.to_bits());
    assert_eq!(
        c.react(&cfg, on, 605 * SECOND),
        Reaction::Update { mode_changed: false, target: 4f32.to_bits() }
    );
    assert_eq!(
        c.react(&cfg, off, 606 * SECOND),
        Reaction::Update { mode_changed: true, target: 10f32.to_bits() }
    );
    assert_eq!((c.high_since, c.low_since), (None, None));
}

#[test]
fn unreadable_messages_are_ignored() {
    let cfg = control();
    let mut c = SolarController::new();
    c.react(&cfg, SolarReading::Mode(Some(true)), 1);
    c.react(&cfg, kw(9.0), 2);
    let before = c;
    assert_eq!(c.react(&cfg, SolarReading::Power(None), 9), Reaction::Ignored);
    assert_eq!(c.react(&cfg, SolarReading::Mode(None), 9), Reaction::Ignored);
    assert_eq!(c, before);
}

#[test]
fn the_same_current_is_published_once() {
    let mut cfg = control();
    let mut c = SolarController::new();
    assert!(c.publish_due(&cfg, 0));
    c.published(6f32.to_bits());
    assert_eq!(c.last_published, Some(6f32.to_bits()));
    assert!(!c.publish_due(&cfg, (6f32 - 6f32).to_bits()));
    assert!(!c.publish_due(&cfg, 0.0099f32.to_bits()));
    assert!(c.publish_due(&cfg, (6f32 - 4f32).to_bits()));
    assert!(c.publish_due(&cfg, (4f32 - 6f32).to_bits()));
    assert!(c.publish_due(&cfg, f32::NAN.to_bits()));
    cfg.publish_only_on_change = false;
    assert!(c.publish_due(&cfg, 0));
}

#[test]
fn timers_are_told_in_seconds() {
    assert_eq!(seconds_run(None, 5), None);
    assert_eq!(seconds_run(Some(0), 2 * SECOND - 1), Some(1));
    assert_eq!(seconds_left(false, Some(0), 300, SECOND), None);
    assert_eq!(seconds_left(true, None, 300, SECOND), Some(300));
    assert_eq!(seconds_left(true, Some(0), 300, 10 * SECOND), Some(290));
    assert_eq!(seconds_left(true, Some(0), 300, 400 * SECOND), Some(0));
}

#[test]
fn the_summary_is_one_line() {
    let cfg = control();
    let mut c = SolarController::new();
    assert_eq!(
        summary(&cfg, &c, 0, "9.000", "6.0"),
        "mode=fixed, power=n/a, target=6.0A, hi_rem=0s, lo_rem=0s"
    );
    c.react(&cfg, SolarReading::Mode(Some(true)), 0);
    c.react(&cfg, kw(5.5), 0);
    assert_eq!(
        summary(&cfg, &c, 20 * SECOND, "5.500", "4.0"),
        "mode=solar, power=5.500kW, target=4.0A, hi_rem=280s, lo_rem=300s"
    );
}

fn numbers(power: f64, target: f32, last: f32) -> StateNumbers {
    StateNumbers {
        power_text: format!("{power:.3}"),
        target_text: format!("{target:.1}"),
        power_kw: Value::from(power),
        threshold_kw: Value::from(5.0),
        target_current_a: Value::from(target),
        last_published_current_a: Value::from(last),
    }
}

#[test]
fn the_state_is_published_as_json() {
    let cfg = control();
    let topics = Topics::new(&config());
    let c = SolarController::new();
    let message = state_message(&cfg, &topics, &c, 0, numbers(1.0, 6.0, 2.0));
    assert_eq!(message.topic, "alfen/alfen_eve_01/state/solar_debug");
    assert!(message.retain);
    assert_eq!(
        message.payload,
        concat_lines(&[
            "{\"high_elapsed_secs\":null,\"high_remaining_secs\":null,",
            "\"last_published_current_a\":null,\"low_elapsed_secs\":null,",
            "\"low_remaining_secs\":null,\"mode\":\"fixed\",\"power_kw\":null,",
            "\"summary\":\"mode=fixed, power=n/a, target=6.0A, hi_rem=0s, lo_rem=0s\",",
            "\"switch_high_after_secs\":300,\"switch_low_after_secs\":300,",
            "\"target_current_a\":6.0,\"threshold_kw\":5.0}",
        ])
    );
}

fn concat_lines(lines: &[&str]) -> String {
    lines.concat()
}

#[test]
fn the_state_in_solar_mode_tells_the_timers() {
    let cfg = control();
    let topics = Topics::new(&config());
    let mut c = SolarController::new();
    c.react(&cfg, SolarReading::Mode(Some(true)), 0);
    c.react(&cfg, kw(5.5), 0);
    c.published(4f32.to_bits());
    let message = state_message(&cfg, &topics, &c, 20 * SECOND, numbers(5.5, 4.0, 4.0));
    let value: Value = serde_json::from_str(&message.payload).unwrap();
    assert_eq!(value["mode"], Value::from("solar"));
    assert_eq!(value["power_kw"], Value::from(5.5));
    assert_eq!(value["threshold_kw"], Value::from(5.0));
    assert_eq!(value["target_current_a"], Value::from(4.0));
    assert_eq!(value["last_published_current_a"], Value::from(4.0));
    assert_eq!(value["high_elapsed_secs"], Value::from(20));
    assert_eq!(value["high_remaining_secs"], Value::from(280));
    assert_eq!(value["low_elapsed_secs"], Value::Null);
    assert_eq!(value["low_remaining_secs"], Value::from(300));
    assert_eq!(
        value["summary"],
        Value::from("mode=solar, power=5.500kW, target=4.0A, hi_rem=280s, lo_rem=300s")
    );
    assert_eq!(value.as_object().unwrap().len(), 12);
}

#[test]
fn mode_and_current_have_their_messages() {
    let topics = Topics::new(&config());
    assert_eq!(
        mode_message(&control(), &topics, true),
        Message {
            topic: "alfen/alfen_eve_01/state/solar_mode".to_string(),
            payload: "ON".to_string(),
            retain: true,
        }
    );
    assert_eq!(
        current_message(&topics, format!("{:.1}", 6f32)),
        Message {
            topic: "alfen/alfen_eve_01/set/max_current".to_string(),
            payload: "6.0".to_string(),
            retain: false,
        }
    );
}

#[test]
fn the_switch_is_announced() {
    let cfg = config();
    let message = switch_discovery(&cfg, &Topics::new(&cfg));
    assert_eq!(message.topic, "homeassistant/switch/alfen_eve_01_solar_charging_mode/config");
    assert!(message.retain);
    assert_eq!(
        message.payload,
        concat_lines(&[
            "{\"command_topic\":\"alfen/alfen_eve_01/set/solar_mode\",",
            "\"device\":{\"identifiers\":[\"alfen_eve_01\"],\"manufacturer\":\"Alfen\",",
            "\"model\":\"Eve\",\"name\":\"Alfen Eve\"},\"icon\":\"mdi:solar-power\",",
            "\"name\":\"Solar Charging Mode\",",
            "\"object_id\":\"alfen_eve_01_solar_charging_mode\",",
            "\"payload_off\":\"OFF\",\"payload_on\":\"ON\",",
            "\"state_off\":\"OFF\",\"state_on\":\"ON\",",
            "\"state_topic\":\"alfen/alfen_eve_01/state/solar_mode\",",
            "\"unique_id\":\"alfen_eve_01_solar_charging_mode\"}",
        ])
    );
}

#[test]
fn the_sensor_is_announced() {
    let cfg = config();
    let message = sensor_discovery(&cfg, &Topics::new(&cfg));
    assert_eq!(message.topic, "homeassistant/sensor/alfen_eve_01_solar_debug/config");
    assert!(message.retain);
    assert_eq!(
        message.payload,
        concat_lines(&[
            "{\"device\":{\"identifiers\":[\"alfen_eve_01\"],\"manufacturer\":\"Alfen\",",
            "\"model\":\"Eve\",\"name\":\"Alfen Eve\"},\"entity_category\":\"diagnostic\",",
            "\"icon\":\"mdi:chart-timeline-variant\",",
            "\"json_attributes_topic\":\"alfen/alfen_eve_01/state/solar_debug\",",
            "\"name\":\"Solar Charging Debug\",\"object_id\":\"alfen_eve_01_solar_debug\",",
            "\"state_topic\":\"alfen/alfen_eve_01/state/solar_debug\",",
            "\"unique_id\":\"alfen_eve_01_solar_debug\",",
            "\"value_template\":\"{{ value_json.summary }}\"}",
        ])
    );
}

#[test]
fn announced_texts_are_escaped() {
    let mut cfg = config();
    let name: String = ('\0'..='\u{7f}').chain(['é', '\u{1F600}']).collect();
    cfg.charger.name = name.clone();
    let message = sensor_discovery(&cfg, &Topics::new(&cfg));
    let value: Value = serde_json::from_str(&message.payload).unwrap();
    assert_eq!(value["device"]["name"], Value::from(name));
    let escaped = "\\u0000\\u0001\\u0002\\u0003\\u0004\\u0005\\u0006\\u0007\\b\\t\\n\\u000b\\f\\r";
    assert!(message.payload.contains(escaped));
    assert!(message.payload.contains("\\u001f !\\\"#"));
    assert!(message.payload.contains("[\\\\]"));
    assert!(message.payload.contains("~\u{7f}é\u{1F600}\""));
}

#[test]
fn the_announced_switch_turns_the_mode_on() {
    let cfg = config();
    let topics = Topics::new(&cfg);
    let payload: Value =
        serde_json::from_str(&switch_discovery(&cfg, &topics).payload).unwrap();
    let topic = payload["command_topic"].as_str().unwrap();
    let on = payload["payload_on"].as_str().unwrap();
    assert_eq!(route(&cfg.solar_control, &topics, topic), Route::Mode);
    let mode = parse_mode(on.as_bytes(), &cfg.solar_control.mode_on_payload);
    let mut c = SolarController::new();
    c.react(&cfg.solar_control, SolarReading::Mode(mode), 0);
    assert!(c.solar_mode);
}

#[test]
fn the_announced_switch_turns_the_mode_off() {
    let cfg = config();
    let topics = Topics::new(&cfg);
    let payload: Value =
        serde_json::from_str(&switch_discovery(&cfg, &topics).payload).unwrap();
    let topic = payload["command_topic"].as_str().unwrap();
    let off = payload["payload_off"].as_str().unwrap();
    assert_eq!(route(&cfg.solar_control, &topics, topic), Route::Mode);
    let mut c = SolarController::new();
    c.react(&cfg.solar_control, SolarReading::Mode(Some(true)), 0);
    let mode = parse_mode(off.as_bytes(), &cfg.solar_control.mode_on_payload);
    c.react(&cfg.solar_control, SolarReading::Mode(mode), 1);
    assert!(!c.solar_mode);
}

fn purposes(messages: &[Outgoing]) -> Vec<Purpose> {
    messages.iter().map(|m| m.purpose).collect()
}

#[test]
fn the_start_tells_the_mode_and_the_state() {
    let cfg = config();
    let topics = Topics::new(&cfg);
    let c = SolarController::new();
    let messages =
        messages_at_start(&cfg.solar_control, &topics, &c, 5, numbers(0.0, 6.0, 0.0));
    assert_eq!(purposes(&messages), vec![Purpose::Mode, Purpose::State]);
    assert_eq!(messages[0].message, mode_message(&cfg.solar_control, &topics, false));
    let state = state_message(&cfg.solar_control, &topics, &c, 5, numbers(0.0, 6.0, 0.0));
    assert_eq!(messages[1].message, state);
}

#[test]
fn an_update_tells_mode_state_and_current_in_this_order() {
    let cfg = config();
    let topics = Topics::new(&cfg);
    let mut c = SolarController::new();
    c.react(&cfg.solar_control, SolarReading::Mode(Some(true)), 0);
    let after = |c: &SolarController, mode_changed: bool, difference: f32| {
        messages_after(
            &cfg.solar_control,
            &topics,
            c,
            mode_changed,
            7,
            numbers(0.0, 4.0, 4.0),
            "4.0".to_string(),
            difference.to_bits(),
        )
    };
    let messages = after(&c, true, 0.0);
    assert_eq!(purposes(&messages), vec![Purpose::Mode, Purpose::State, Purpose::Current]);
    assert_eq!(messages[0].message.payload, "ON");
    assert_eq!(messages[2].message, current_message(&topics, "4.0".to_string()));
    assert_eq!(purposes(&after(&c, false, 0.0)), vec![Purpose::State, Purpose::Current]);
    c.published(4f32.to_bits());
    assert_eq!(purposes(&after(&c, true, 0.0)), vec![Purpose::Mode, Purpose::State]);
    assert_eq!(purposes(&after(&c, false, 0.0)), vec![Purpose::State]);
    assert_eq!(purposes(&after(&c, false, 2.0)), vec![Purpose::State, Purpose::Current]);
}

#[test]
fn failures_to_publish_are_told_apart() {
    let topics = Topics::new(&config());
    assert_eq!(publish_failure(Purpose::Mode, &topics), "failed to publish solar mode state");
    assert_eq!(publish_failure(Purpose::State, &topics), "failed to publish solar debug state");
    assert_eq!(
        publish_failure(Purpose::Current, &topics),
        "failed to publish max_current to topic 'alfen/alfen_eve_01/set/max_current'"
    );
}

#[test]
fn only_configured_currents_are_asked_for() {
    let cfg = distinct_control();
    let configured =
        [cfg.fixed_current_amps, cfg.solar_high_current_amps, cfg.solar_low_current_amps];
    let mut c = SolarController::new();
    for i in 0..2000u64 {
        let reading = match i * 7 % 11 {
            0 => SolarReading::Mode(Some(i % 3 == 0)),
            1 => SolarReading::Mode(Some(true)),
            k => kw(if i / 400 % 2 == 0 { 9.0 } else { k as f64 / 4.0 }),
        };
        if let Reaction::Update { target, .. } = c.react(&cfg, reading, i * SECOND) {
            assert!(configured.contains(&target));
            c.published(target);
        }
    }
}
