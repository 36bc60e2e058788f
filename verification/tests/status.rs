use orchestrator::devices::kinds::shutter::commands as shutter_commands;
use orchestrator::devices::kinds::shutter::model::{ShutterDirection, ShutterStatus};
use orchestrator::devices::kinds::switch::commands::{self as switch_commands, power_from_text};
use orchestrator::devices::kinds::light::commands as light_commands;
use orchestrator::devices::kinds::switch::model::SwitchStatus;
use orchestrator::devices::light::model::LightStatus;
use orchestrator::devices::shutter::model::ShutterStatus as NamedShutterStatus;
use orchestrator::json::{JsonNumber, JsonValue};
use orchestrator::mqtt::client::MqttMessage;

fn uint(n: u64) -> JsonValue {
    JsonValue::Number(JsonNumber::PosInt(n))
}

fn neg(n: i64) -> JsonValue {
    JsonValue::Number(JsonNumber::NegInt(n))
}

fn object(members: Vec<(&str, JsonValue)>) -> JsonValue {
    JsonValue::Object(members.into_iter().map(|(k, v)| (k.to_string(), v)).collect())
}

fn message(payload: &str) -> MqttMessage {
    MqttMessage { payload: payload.to_string(), topic: "stat/x/RESULT".to_string() }
}

#[test]
fn shutter_status_decodes_from_object() {
    let v = object(vec![("Position", uint(40)), ("Direction", neg(-1)), ("Target", uint(0)), ("Tilt", uint(9))]);
    assert_eq!(
        ShutterStatus::from_json(&v),
        Some(ShutterStatus { position: 40, direction: ShutterDirection::Opening, target: 0 })
    );
}

#[test]
fn shutter_status_decodes_from_array() {
    let v = JsonValue::Array(vec![uint(100), uint(1), uint(100)]);
    assert_eq!(
        ShutterStatus::from_json(&v),
        Some(ShutterStatus { position: 100, direction: ShutterDirection::Closing, target: 100 })
    );
    assert_eq!(ShutterStatus::from_json(&JsonValue::Array(vec![uint(1), uint(0)])), None);
    assert_eq!(ShutterStatus::from_json(&JsonValue::Array(vec![uint(1), uint(0), uint(1), uint(1)])), None);
}

#[test]
fn shutter_status_refuses_bad_members() {
    let missing = object(vec![("Position", uint(40)), ("Direction", uint(0))]);
    assert_eq!(ShutterStatus::from_json(&missing), None);
    let too_big = object(vec![("Position", uint(256)), ("Direction", uint(0)), ("Target", uint(0))]);
    assert_eq!(ShutterStatus::from_json(&too_big), None);
    let bad_direction = object(vec![("Position", uint(1)), ("Direction", uint(2)), ("Target", uint(0))]);
    assert_eq!(ShutterStatus::from_json(&bad_direction), None);
    let float = object(vec![("Position", JsonValue::Number(JsonNumber::Float)), ("Direction", uint(0)), ("Target", uint(0))]);
    assert_eq!(ShutterStatus::from_json(&float), None);
    assert_eq!(ShutterStatus::from_json(&JsonValue::Null), None);
    assert_eq!(ShutterStatus::from_json(&JsonValue::String("x".to_string())), None);
}

#[test]
fn shutter_direction_numbers_roundtrip() {
    for d in [ShutterDirection::Closing, ShutterDirection::Stop, ShutterDirection::Opening] {
        assert_eq!(ShutterDirection::from_i8(d.as_i8()), Some(d));
    }
    assert_eq!(ShutterDirection::Closing.as_i8(), 1);
    assert_eq!(ShutterDirection::Stop.as_i8(), 0);
    assert_eq!(ShutterDirection::Opening.as_i8(), -1);
    assert_eq!(ShutterDirection::from_i8(5), None);
}

#[test]
fn shutter_report_reads_the_channel_member() {
    let m = message(r#"{"Shutter1":{"Position":10,"Direction":0,"Target":10},"Shutter2":3}"#);
    assert_eq!(
        shutter_commands::map(m, "1"),
        Some(ShutterStatus { position: 10, direction: ShutterDirection::Stop, target: 10 })
    );
    let m = message(r#"{"Shutter1":[20,-1,0]}"#);
    assert_eq!(
        shutter_commands::map(m, "1"),
        Some(ShutterStatus { position: 20, direction: ShutterDirection::Opening, target: 0 })
    );
    assert_eq!(shutter_commands::map(message(r#"{"Shutter2":3}"#), "1"), None);
    assert_eq!(shutter_commands::map(message("not json"), "1"), None);
    assert_eq!(shutter_commands::map(message(r#"{"Shutter":{"Position":1.5,"Direction":0,"Target":1}}"#), ""), None);
    assert_eq!(
        shutter_commands::map(message(r#"{"Shutter":{"Position":1,"Direction":0,"Target":1,"Tilt":0}}"#), ""),
        Some(ShutterStatus { position: 1, direction: ShutterDirection::Stop, target: 1 })
    );
}

#[test]
fn object_member_is_the_last_with_the_key() {
    let v = object(vec![("k", uint(1)), ("k", uint(2))]);
    match v.take_member("k") {
        Some(JsonValue::Number(JsonNumber::PosInt(2))) => {}
        _ => panic!("expected the last member"),
    }
    assert!(JsonValue::Array(vec![]).take_member("k").is_none());
}

#[test]
fn named_shutter_status_reads_bytes() {
    let v = object(vec![("Position", uint(3)), ("Direction", uint(1)), ("Target", uint(5))]);
    assert_eq!(NamedShutterStatus::from_json(&v), Some(NamedShutterStatus { position: 3, direction: 1, target: 5 }));
    let v = object(vec![("Position", uint(3)), ("Direction", neg(-1)), ("Target", uint(5))]);
    assert_eq!(NamedShutterStatus::from_json(&v), None);
}

#[test]
fn light_status_decodes() {
    let v = object(vec![("Power", JsonValue::Bool(true)), ("Light", uint(55))]);
    assert_eq!(LightStatus::from_json(&v), Some(LightStatus { power: true, brightness: 55 }));
    let v = JsonValue::Array(vec![JsonValue::Bool(false), uint(0)]);
    assert_eq!(LightStatus::from_json(&v), Some(LightStatus { power: false, brightness: 0 }));
    let v = object(vec![("Power", JsonValue::String("ON".to_string())), ("Light", uint(55))]);
    assert_eq!(LightStatus::from_json(&v), None);
}

#[test]
fn power_text_reads_on_and_off() {
    assert_eq!(power_from_text("ON"), Some(true));
    assert_eq!(power_from_text("OFF"), Some(false));
    assert_eq!(power_from_text("TOGGLE"), None);
    assert_eq!(power_from_text("on"), None);
    assert_eq!(power_from_text(SwitchStatus::On.as_payload()), Some(true));
    assert_eq!(power_from_text(SwitchStatus::Off.as_payload()), Some(false));
    assert_eq!(power_from_text(SwitchStatus::Toggle.as_payload()), None);
}

#[test]
fn switch_payloads() {
    assert_eq!(SwitchStatus::On.as_payload(), "ON");
    assert_eq!(SwitchStatus::Off.as_payload(), "OFF");
    assert_eq!(SwitchStatus::Toggle.as_payload(), "TOGGLE");
}

#[test]
fn unparsed_payloads_give_no_switch_or_light_status() {
    assert_eq!(switch_commands::map(message("{\"POWER1\":\"ON\"}"), "1"), None);
    assert_eq!(switch_commands::map(message("{\"POWER\":\"OFF\"}"), ""), None);
    assert_eq!(light_commands::map(message("{\"Channel1\":{\"Power\":true,\"Light\":3}}"), "1"), None);
}

#[test]
fn shutter_object_and_array_forms_agree() {
    let cases = [(uint(10), uint(1), uint(90)), (uint(300), uint(0), uint(1)), (uint(5), neg(-1), uint(5)), (uint(5), uint(7), uint(5))];
    for (p, d, t) in cases {
        let clone = |v: &JsonValue| match v {
            JsonValue::Number(JsonNumber::PosInt(u)) => uint(*u),
            JsonValue::Number(JsonNumber::NegInt(i)) => neg(*i),
            _ => JsonValue::Null,
        };
        let object_form = object(vec![("Position", clone(&p)), ("Direction", clone(&d)), ("Target", clone(&t))]);
        let array_form = JsonValue::Array(vec![p, d, t]);
        assert_eq!(ShutterStatus::from_json(&object_form), ShutterStatus::from_json(&array_form));
    }
}

#[test]
fn shutter_report_reads_a_parsed_payload() {
    let status = object(vec![("Position", uint(70)), ("Direction", uint(1)), ("Target", uint(100))]);
    let payload = object(vec![("Shutter2", status)]);
    assert_eq!(
        shutter_commands::read_shutter_report(Some(payload), "2"),
        Some(ShutterStatus { position: 70, direction: ShutterDirection::Closing, target: 100 })
    );
    assert_eq!(shutter_commands::read_shutter_report(Some(object(vec![("Shutter1", uint(1))])), "1"), None);
    assert_eq!(shutter_commands::read_shutter_report(None, "1"), None);
}
