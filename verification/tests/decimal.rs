use orchestrator::config::{mqtt_hostname, mqtt_port, web_host, DEFAULT_MQTT_PORT};
use orchestrator::decimal::{parse_u16, u8_to_decimal};

#[test]
fn u8_to_decimal_writes_shortest_digits() {
    assert_eq!(u8_to_decimal(0), "0");
    assert_eq!(u8_to_decimal(7), "7");
    assert_eq!(u8_to_decimal(10), "10");
    assert_eq!(u8_to_decimal(42), "42");
    assert_eq!(u8_to_decimal(100), "100");
    assert_eq!(u8_to_decimal(255), "255");
}

#[test]
fn u8_to_decimal_matches_to_string_everywhere() {
    for n in 0..=255u8 {
        assert_eq!(u8_to_decimal(n), n.to_string());
    }
}

#[test]
fn parse_u16_reads_decimal_text_back() {
    for n in 0..=255u8 {
        assert_eq!(parse_u16(&u8_to_decimal(n)), Some(n as u16));
    }
    for n in [0u16, 1, 1883, 8080, 65534, 65535] {
        assert_eq!(parse_u16(&n.to_string()), Some(n));
    }
}

#[test]
fn parse_u16_edge_cases() {
    assert_eq!(parse_u16("1883"), Some(1883));
    assert_eq!(parse_u16("+80"), Some(80));
    assert_eq!(parse_u16("0080"), Some(80));
    assert_eq!(parse_u16("65535"), Some(65535));
    assert_eq!(parse_u16("65536"), None);
    assert_eq!(parse_u16("99999999999"), None);
    assert_eq!(parse_u16(""), None);
    assert_eq!(parse_u16("+"), None);
    assert_eq!(parse_u16("-"), None);
    assert_eq!(parse_u16("-1"), None);
    assert_eq!(parse_u16("++1"), None);
    assert_eq!(parse_u16("12a"), None);
    assert_eq!(parse_u16(" 12"), None);
    assert_eq!(parse_u16("12 "), None);
    assert_eq!(parse_u16("1_000"), None);
    assert_eq!(parse_u16("\u{663}"), None);
}

#[test]
fn parse_u16_agrees_with_std() {
    let inputs = [
        "0", "00", "+0", "+", "-", "-0", "1", "+1", "65535", "65536", "070000", "123456", "abc", "1a", "a1",
        "", " ", "+-1", "4294967296", "001883", "+65535", "\u{ff11}",
    ];
    for text in inputs {
        assert_eq!(parse_u16(text), text.parse::<u16>().ok(), "input {:?}", text);
    }
}

#[test]
fn mqtt_port_defaults_and_parses() {
    assert_eq!(DEFAULT_MQTT_PORT, 1883);
    assert_eq!(mqtt_port(None), Some(1883));
    assert_eq!(mqtt_port(Some("1884")), Some(1884));
    assert_eq!(mqtt_port(Some("+1884")), Some(1884));
    assert_eq!(mqtt_port(Some("port")), None);
    assert_eq!(mqtt_port(Some("70000")), None);
}

#[test]
fn hosts_default_when_unset() {
    assert_eq!(mqtt_hostname(None), "127.0.0.1");
    assert_eq!(mqtt_hostname(Some("10.0.0.2".to_string())), "10.0.0.2");
    assert_eq!(web_host(None), "127.0.0.1:8080");
    assert_eq!(web_host(Some("0.0.0.0:80".to_string())), "0.0.0.0:80");
}
