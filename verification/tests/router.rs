use orchestrator::mqtt::client::{MqttError, TopicRouter};

#[test]
fn subscribe_gives_each_topic_one_slot() {
    let mut r = TopicRouter::new();
    assert_eq!(r.subscribe("stat/a/RESULT".to_string()), 0);
    assert_eq!(r.subscribe("stat/b/RESULT".to_string()), 1);
    assert_eq!(r.subscribe("stat/a/RESULT".to_string()), 0);
    assert_eq!(r.subscribe("tele/a/SENSOR".to_string()), 2);
    assert_eq!(r.slot_of(&"stat/b/RESULT".to_string()), Some(1));
    assert_eq!(r.slot_of(&"stat/c/RESULT".to_string()), None);
}

#[test]
fn dispatch_routes_to_the_subscribed_slot() {
    let mut r = TopicRouter::new();
    r.subscribe("x".to_string());
    r.subscribe("stat/plug/RESULT".to_string());
    let (slot, message) = r.dispatch("stat/plug/RESULT".to_string(), b"{\"POWER\":\"ON\"}").unwrap();
    assert_eq!(slot, 1);
    assert_eq!(message.topic, "stat/plug/RESULT");
    assert_eq!(message.payload, "{\"POWER\":\"ON\"}");
    assert!(r.dispatch("stat/other/RESULT".to_string(), b"x").is_none());
}

#[test]
fn dispatch_decodes_utf8_and_replaces_invalid_bytes() {
    let mut r = TopicRouter::new();
    r.subscribe("t".to_string());
    let (_, m) = r.dispatch("t".to_string(), "zażółć".as_bytes()).unwrap();
    assert_eq!(m.payload, "zażółć");
    let (_, m) = r.dispatch("t".to_string(), &[b'a', 0xff, b'b']).unwrap();
    assert_eq!(m.payload, "a\u{fffd}b");
}

#[test]
fn mqtt_error_message() {
    assert_eq!(MqttError.message(), "error on mqtt layer");
}
