use lights::bulb::color::{color_from_str, Rgb};
use lights::bulb::common::{
    colour_json_text, default_json_text, switch_body, switch_json_text, Body, ColourData, Command,
    CommandValue,
};
use lights::settings::DefaultSettings;
use serde_json::Value;

fn command(code: &str, value: Value) -> Value {
    let mut m = serde_json::Map::new();
    m.insert("code".to_string(), Value::from(code));
    m.insert("value".to_string(), value);
    Value::Object(m)
}

fn body(commands: Vec<Value>) -> String {
    let mut m = serde_json::Map::new();
    m.insert("commands".to_string(), Value::Array(commands));
    serde_json::to_string(&Value::Object(m)).unwrap()
}

#[test]
fn switch_body_json() {
    assert_eq!(switch_json_text(true), r#"{"commands":[{"code":"switch_led","value":true}]}"#);
    assert_eq!(switch_json_text(false), body(vec![command("switch_led", Value::from(false))]));
    let b = switch_body(true);
    assert_eq!(b.commands.len(), 1);
    assert_eq!(b.commands[0].code, "switch_led");
}

#[test]
fn colour_body_json() {
    let text = colour_json_text(ColourData { h: 240, s: 1000, v: 1000 });
    assert_eq!(
        text,
        r#"{"commands":[{"code":"work_mode","value":"colour"},{"code":"colour_data_v2","value":{"h":240,"s":1000,"v":1000}}]}"#
    );
    let mut hsv = serde_json::Map::new();
    hsv.insert("h".to_string(), Value::from(-5));
    hsv.insert("s".to_string(), Value::from(0));
    hsv.insert("v".to_string(), Value::from(12));
    let expected = body(vec![
        command("work_mode", Value::from("colour")),
        command("colour_data_v2", Value::Object(hsv)),
    ]);
    assert_eq!(colour_json_text(ColourData { h: -5, s: 0, v: 12 }), expected);
}

#[test]
fn default_body_json_escapes_work_mode() {
    let d = DefaultSettings { work_mode: "wh\"i\\te\n\u{1}é".to_string(), bright_value_v2: 480, temp_value_v2: -1 };
    let expected = body(vec![
        command("work_mode", Value::from("wh\"i\\te\n\u{1}é")),
        command("bright_value_v2", Value::from(480)),
        command("temp_value_v2", Value::from(-1)),
    ]);
    let text = default_json_text(&d);
    assert_eq!(text, expected);
    assert!(text.contains(r#""wh\"i\\te\n\u0001é""#));
}

#[test]
fn generic_body_to_json() {
    let b = Body {
        commands: vec![
            Command { code: "a".to_string(), value: CommandValue::Int(3) },
            Command { code: "b".to_string(), value: CommandValue::Str("x".to_string()) },
            Command { code: "c".to_string(), value: CommandValue::Colour(ColourData { h: 1, s: 2, v: 3 }) },
        ],
    };
    assert_eq!(
        b.to_json(),
        r#"{"commands":[{"code":"a","value":3},{"code":"b","value":"x"},{"code":"c","value":{"h":1,"s":2,"v":3}}]}"#
    );
    let empty: Body<bool> = Body { commands: vec![] };
    assert_eq!(empty.to_json(), r#"{"commands":[]}"#);
}

#[test]
fn color_lookup_known_names() {
    assert_eq!(color_from_str("RED"), Some(Rgb { red: 255, green: 0, blue: 0 }));
    assert_eq!(color_from_str("deepskyblue"), Some(Rgb { red: 0, green: 191, blue: 255 }));
    assert_eq!(color_from_str("RebeccaPurple"), Some(Rgb { red: 102, green: 51, blue: 153 }));
    assert_eq!(color_from_str("yellowgreen"), Some(Rgb { red: 154, green: 205, blue: 50 }));
}

#[test]
fn color_lookup_ignores_padding() {
    assert_eq!(color_from_str("  blue \n"), color_from_str("blue"));
    assert_eq!(color_from_str("\u{3000}Teal\t"), Some(Rgb { red: 0, green: 128, blue: 128 }));
}

#[test]
fn color_lookup_ignores_case() {
    assert_eq!(color_from_str("CoRaL"), color_from_str("coral"));
    assert_eq!(color_from_str("coral"), Some(Rgb { red: 255, green: 127, blue: 80 }));
}

#[test]
fn color_lookup_unicode_uppercase() {
    // U+017F LATIN SMALL LETTER LONG S upper-cases to 'S'.
    assert_eq!(color_from_str("\u{17f}almon"), Some(Rgb { red: 250, green: 128, blue: 114 }));
}

#[test]
fn color_lookup_rejects_hueless_and_unknown() {
    assert_eq!(color_from_str("white"), None);
    assert_eq!(color_from_str("black"), None);
    assert_eq!(color_from_str("grey"), None);
    assert_eq!(color_from_str("silver"), None);
    assert_eq!(color_from_str("snow"), None);
    assert_eq!(color_from_str("blue green"), None);
    assert_eq!(color_from_str(""), None);
}
