use vstd::prelude::*;
use vstd::string::*;
use crate::devices::kinds::switch::model::{switch_payload, SwitchStatus};
use crate::devices::registry::model::Model;
use crate::device_registry::device::channel_text;
use crate::json::{object_member, str_of, JsonValue};
use crate::mqtt::client::MqttMessage;
use crate::mqtt::listen_command::{listen_command, listen_topic_text, ListenTopic, StatusListen};
use crate::mqtt::send_command::{command_topic_text, send_command, CommandTopic, MqttPublish};

verus! {

/// What a switch's power report reads as: `ON` is on, `OFF` is off, and
/// nothing else is read.
pub open spec fn power_value(text: Seq<char>) -> Option<bool> {
    if text == "ON"@ {
        Some(true)
    } else if text == "OFF"@ {
        Some(false)
    } else {
        None
    }
}

/// Reads a switch's power report.
pub fn power_from_text(text: &str) -> (r: Option<bool>)
    ensures
        r == power_value(text@),
{
    let text = String::from_str(text);
    if text == String::from_str("ON") {
        Some(true)
    } else if text == String::from_str("OFF") {
        Some(false)
    } else {
        None
    }
}

/// The key of the power report of `channel` in a status message.
pub open spec fn power_key(channel: Seq<char>) -> Seq<char> {
    "POWER"@ + channel
}

/// What the power report of `channel` in the JSON value `v` reads as.
pub open spec fn power_report(v: JsonValue, channel: Seq<char>) -> Option<bool> {
    match object_member(v, power_key(channel)) {
        Some(m) => match str_of(m) {
            Some(text) => power_value(text),
            None => None,
        },
        None => None,
    }
}

/// The power state of `channel` in a status message. The payload is taken
/// as a JSON string holding its text (not parsed), so it is never an object
/// with a power member and no message gives a state.
pub fn map(message: MqttMessage, channel: &str) -> (r: Option<bool>)
    ensures
        r == power_report(JsonValue::String(message.payload), channel@),
        r is None,
{
    let key = String::from_str("POWER").concat(channel);
    let serde_value = JsonValue::from_string(message.payload);
    match serde_value.take_member(key.as_str()) {
        Some(value) => match value.as_str() {
            Some(text) => power_from_text(text.as_str()),
            None => None,
        },
        None => None,
    }
}

/// The command that sets the power of a stored device's switch.
pub fn set_switch_status(device: &Model, payload: String) -> (r: MqttPublish)
    ensures
        r.topic@ == command_topic_text(CommandTopic::Power, device.device_name@, channel_text(device.channel)),
        r.payload == payload,
{
    send_command(CommandTopic::Power, device.device_name.as_str(), device.channel, payload)
}

/// The subscription to the power reports of a stored device's switch.
pub fn get_switch_status(device: &Model) -> (r: StatusListen)
    ensures
        r.topic@ == listen_topic_text(ListenTopic::Result, device.device_name@),
        r.channel@ == channel_text(device.channel),
{
    listen_command(ListenTopic::Result, device.device_name.as_str(), device.channel)
}

/// A switch's report reads back what its command said: `ON` as on, `OFF`
/// as off; a toggle command has no state to read back.
pub proof fn law_power_reads_payload(s: SwitchStatus)
    ensures
        power_value(switch_payload(s)) == match s {
            SwitchStatus::On => Some(true),
            SwitchStatus::Off => Some(false),
            SwitchStatus::Toggle => None::<bool>,
        },
{
    reveal_strlit("ON");
    reveal_strlit("OFF");
    reveal_strlit("TOGGLE");
    assert("ON"@.len() != "OFF"@.len());
    assert("TOGGLE"@.len() != "ON"@.len());
    assert("TOGGLE"@.len() != "OFF"@.len());
}

} // verus!
