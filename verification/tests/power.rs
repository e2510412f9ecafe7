use alfen_eve::json::{parse_json, Json};
use alfen_eve::power::{
    parse_power_document, parse_power_json, parse_power_kw, parse_power_text, pick_power,
    PowerAttempt, PowerUnit,
};

fn kilowatt(text: &str) -> PowerAttempt {
    PowerAttempt::Text(text.to_string(), PowerUnit::Kilowatt)
}

fn watt(text: &str) -> PowerAttempt {
    PowerAttempt::Text(text.to_string(), PowerUnit::Watt)
}

fn number(v: f64) -> PowerAttempt {
    PowerAttempt::Number(v.to_bits())
}

fn read(attempt: &PowerAttempt) -> Option<u64> {
    match attempt {
        PowerAttempt::Number(_) => None,
        PowerAttempt::Text(text, PowerUnit::Kilowatt) => text.parse::<f64>().ok(),
        PowerAttempt::Text(text, PowerUnit::Watt) => text.parse::<f64>().ok().map(|v| v / 1000.0),
    }
    .map(f64::to_bits)
}

fn power(payload: &str) -> Option<f64> {
    let attempts = parse_power_kw(payload.as_bytes());
    let texts: Vec<Option<u64>> = attempts.iter().map(read).collect();
    pick_power(&attempts, &texts).map(f64::from_bits)
}

#[test]
fn texts_are_tried_plain_and_by_unit() {
    assert_eq!(parse_power_text(" \"3.5\" "), vec![kilowatt("3.5")]);
    assert_eq!(parse_power_text("3.5 kW"), vec![kilowatt("3.5 kW"), kilowatt("3.5")]);
    assert_eq!(parse_power_text("3500 W"), vec![kilowatt("3500 W"), watt("3500")]);
    assert_eq!(parse_power_text(""), vec![kilowatt("")]);
    assert_eq!(parse_power_text("w"), vec![kilowatt("w"), watt("")]);
    assert_eq!(parse_power_text("\" 5 \""), vec![kilowatt(" 5 ")]);
}

#[test]
fn json_documents_are_read() {
    assert!(matches!(parse_json("2.5"), Some(Json::Number(Some(b))) if b == 2.5f64.to_bits()));
    assert!(matches!(parse_json("7"), Some(Json::Number(Some(b))) if b == 7f64.to_bits()));
    assert!(matches!(parse_json("\"a\\n\""), Some(Json::Text(s)) if s == "a\n"));
    assert!(matches!(parse_json("null"), Some(Json::Other)));
    assert!(matches!(parse_json("true"), Some(Json::Other)));
    assert!(matches!(parse_json("[1]"), Some(Json::Other)));
    assert!(parse_json("{\"a\":").is_none());
    assert!(parse_json("").is_none());
    match parse_json("{\"a\":1,\"b\":{\"c\":\"d\"}}") {
        Some(Json::Object(members)) => {
            assert_eq!(members.len(), 2);
            assert_eq!(members[0].0, "a");
            assert!(matches!(&members[1].1, Json::Object(inner) if inner[0].0 == "c"));
        }
        other => panic!("{other:?}"),
    }
}

#[test]
fn members_are_tried_in_order() {
    let members = ["surplus_kw", "returned", "power", "power_kw", "value", "state", "other"];
    let json = Json::Object(
        members
            .iter()
            .enumerate()
            .map(|(i, name)| (name.to_string(), Json::Number(Some(i as u64))))
            .collect(),
    );
    let attempts: Vec<PowerAttempt> =
        [5, 4, 3, 2, 1, 0].into_iter().map(PowerAttempt::Number).collect();
    assert_eq!(parse_power_json(&json), attempts);
}

#[test]
fn other_json_has_no_power() {
    assert!(parse_power_json(&Json::Other).is_empty());
    assert!(parse_power_json(&Json::Number(None)).is_empty());
    assert!(parse_power_json(&Json::Object(Vec::new())).is_empty());
    assert_eq!(parse_power_json(&Json::Text("2 w".to_string())), vec![kilowatt("2 w"), watt("2")]);
}

#[test]
fn nested_members_are_followed() {
    let inner = Json::Object(vec![("value".to_string(), Json::Text("1 kW".to_string()))]);
    let json = Json::Object(vec![("state".to_string(), inner)]);
    assert_eq!(parse_power_json(&json), vec![kilowatt("1 kW"), kilowatt("1")]);
}

#[test]
fn the_text_comes_before_the_document() {
    let attempts = parse_power_document("x", &Some(Json::Number(Some(1f64.to_bits()))));
    assert_eq!(attempts, vec![kilowatt("x"), number(1.0)]);
    assert_eq!(parse_power_document("x", &None), vec![kilowatt("x")]);
}

#[test]
fn the_first_attempt_that_reads_wins() {
    let attempts = vec![kilowatt("a"), watt("b"), number(3.0), kilowatt("c")];
    assert_eq!(pick_power(&attempts, &vec![None, Some(8), None, Some(9)]), Some(8));
    assert_eq!(
        pick_power(&attempts, &vec![None, None, None, Some(9)]),
        Some(3f64.to_bits())
    );
    assert_eq!(pick_power(&vec![kilowatt("a")], &vec![None]), None);
    assert_eq!(pick_power(&Vec::new(), &Vec::new()), None);
}

#[test]
fn powers_are_read_from_payloads() {
    assert_eq!(power("4.2"), Some(4.2));
    assert_eq!(power(" \"4.2\"\n"), Some(4.2));
    assert_eq!(power("4.2 kW"), Some(4.2));
    assert_eq!(power("4200W"), Some(4.2));
    assert_eq!(power("{\"state\":\"off\",\"value\":6.5}"), Some(6.5));
    assert_eq!(power("{\"power\":\"1500 w\"}"), Some(1.5));
    assert_eq!(power("{\"state\":{\"surplus_kw\":2}}"), Some(2.0));
    assert_eq!(power("{\"energy\":2}"), None);
    assert_eq!(power("[4.2]"), None);
    assert_eq!(power("kw"), None);
    assert_eq!(power(""), None);
    assert_eq!(parse_power_kw(&[0xFF, b'4']), Vec::new());
}

#[test]
fn units_gaps_margins_and_quotes_keep_the_power() {
    for (before, after) in [("", ""), (" \t", "\n"), ("\"", "\""), (" \"\"", "\" ")] {
        for x in ["4200", "4.2e3", "4.2E3", "+4200."] {
            for gap in ["", " ", " \u{a0}\t"] {
                for kw in ["kw", "kW", "Kw", "KW"] {
                    assert_eq!(power(&format!("{before}{x}{gap}{kw}{after}")), Some(4200.0));
                }
                for w in ["w", "W"] {
                    assert_eq!(power(&format!("{before}{x}{gap}{w}{after}")), Some(4.2));
                }
            }
            assert_eq!(power(&format!("{before}{x}{after}")), Some(4200.0));
        }
        for unit in ["kw", "KW", "w", "W"] {
            assert_eq!(power(&format!("{before}{unit}{after}")), None);
        }
    }
}

#[test]
fn floats_read_as_the_laws_take_it() {
    let texts = [
        "", "1", "-1.5", "+2.", ".5", "1e3", "1E3", "inf", "INF", "Infinity", "nan", "NaN", " 1",
        "1 ", "\"1", "1\"", "1k", "1w", "1W", "k", "w", "kw", "1_0", "0x1", "x",
    ];
    for s in texts {
        let bits = s.parse::<f64>().ok().map(f64::to_bits);
        assert_eq!(s.to_ascii_lowercase().parse::<f64>().ok().map(f64::to_bits), bits, "{s}");
        if bits.is_some() {
            assert_eq!(s.trim().trim_matches('"'), s);
            let last = s.chars().last().unwrap().to_ascii_lowercase();
            assert!(last != 'k' && last != 'w');
        }
    }
}
