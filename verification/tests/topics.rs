use orchestrator::mqtt::listen_command::{listen_command, listen_topic, ListenTopic};
use orchestrator::mqtt::send_command::{command_topic, send_command, CommandTopic};

#[test]
fn command_topics_follow_their_patterns() {
    assert_eq!(command_topic(CommandTopic::Power, "plug", "1"), "cmnd/plug/power1");
    assert_eq!(command_topic(CommandTopic::Power, "plug", ""), "cmnd/plug/power");
    assert_eq!(command_topic(CommandTopic::Channel, "bulb", "2"), "cmnd/bulb/channel2");
    assert_eq!(command_topic(CommandTopic::ShutterPosition, "blind", "1"), "cmnd/blind/shutterposition1");
}

#[test]
fn send_command_keeps_the_payload() {
    let p = send_command(CommandTopic::Power, "plug", Some(12), "ON".to_string());
    assert_eq!(p.topic, "cmnd/plug/power12");
    assert_eq!(p.payload, "ON");
    let p = send_command(CommandTopic::Channel, "bulb", None, String::new());
    assert_eq!(p.topic, "cmnd/bulb/channel");
    assert_eq!(p.payload, "");
}

#[test]
fn listen_topics_follow_their_patterns() {
    assert_eq!(listen_topic(ListenTopic::Result, "plug"), "stat/plug/RESULT");
    assert_eq!(listen_topic(ListenTopic::Sensor, "meter"), "tele/meter/SENSOR");
    let l = listen_command(ListenTopic::Result, "plug", Some(3));
    assert_eq!(l.topic, "stat/plug/RESULT");
    assert_eq!(l.channel, "3");
    let l = listen_command(ListenTopic::Sensor, "meter", None);
    assert_eq!(l.channel, "");
}

#[test]
fn report_topics_never_equal_command_topics() {
    let names = ["plug", "stat/plug/RESULT", "", "cmnd"];
    for name in names {
        for other in names {
            for pattern in [CommandTopic::Power, CommandTopic::Channel, CommandTopic::ShutterPosition] {
                let c = command_topic(pattern, other, "1");
                assert_ne!(listen_topic(ListenTopic::Result, name), c);
                assert_ne!(listen_topic(ListenTopic::Sensor, name), c);
            }
        }
    }
}
