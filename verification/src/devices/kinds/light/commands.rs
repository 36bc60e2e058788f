use vstd::prelude::*;
use vstd::string::*;
use crate::devices::light::model::{light_status_of, LightStatus};
use crate::devices::registry::model::Model;
use crate::device_registry::device::channel_text;
use crate::json::{object_member, JsonValue};
use crate::mqtt::client::MqttMessage;
use crate::mqtt::listen_command::{listen_command, listen_topic_text, ListenTopic, StatusListen};
use crate::mqtt::send_command::{command_topic_text, send_command, CommandTopic, MqttPublish};

verus! {

/// The key of the report of `channel` in a light's status message.
pub open spec fn light_key(channel: Seq<char>) -> Seq<char> {
    "Channel"@ + channel
}

/// What the report of `channel` in the JSON value `v` reads as.
pub open spec fn light_report(v: JsonValue, channel: Seq<char>) -> Option<LightStatus> {
    match object_member(v, light_key(channel)) {
        Some(m) => light_status_of(m),
        None => None,
    }
}

/// The light status of `channel` in a status message. The payload is taken
/// as a JSON string holding its text (not parsed), so it is never an object
/// with a channel member and no message gives a status.
pub fn map(message: MqttMessage, channel: &str) -> (r: Option<LightStatus>)
    ensures
        r == light_report(JsonValue::String(message.payload), channel@),
        r is None,
{
    let key = String::from_str("Channel").concat(channel);
    let value = JsonValue::from_string(message.payload);
    match value.take_member(key.as_str()) {
        Some(m) => LightStatus::from_json(&m),
        None => None,
    }
}

/// The command that sets the brightness of a stored light.
pub fn set_brightness(device: &Model, payload: String) -> (r: MqttPublish)
    ensures
        r.topic@ == command_topic_text(CommandTopic::Channel, device.device_name@, channel_text(device.channel)),
        r.payload == payload,
{
    send_command(CommandTopic::Channel, device.device_name.as_str(), device.channel, payload)
}

/// The subscription to the reports of a stored light.
pub fn get_brightness(device: &Model) -> (r: StatusListen)
    ensures
        r.topic@ == listen_topic_text(ListenTopic::Result, device.device_name@),
        r.channel@ == channel_text(device.channel),
{
    listen_command(ListenTopic::Result, device.device_name.as_str(), device.channel)
}

} // verus!
