use vstd::prelude::*;
use vstd::string::*;
use crate::devices::kinds::shutter::model::{shutter_status_of, ShutterStatus};
use crate::devices::registry::model::Model;
use crate::device_registry::device::channel_text;
use crate::json::{law_member_absent, law_member_is_the_keyed_entry, object_member, parse_json, parsed_json, JsonValue};
use crate::mqtt::client::MqttMessage;
use crate::mqtt::listen_command::{listen_command, listen_topic_text, ListenTopic, StatusListen};
use crate::mqtt::send_command::{command_topic_text, send_command, CommandTopic, MqttPublish};

verus! {

/// The key of the report of `channel` in a shutter's status message.
pub open spec fn shutter_key(channel: Seq<char>) -> Seq<char> {
    "Shutter"@ + channel
}

/// What the report of `channel` reads as in a message whose payload parsed
/// as `parsed` (`None` when it is not JSON).
pub open spec fn shutter_report(parsed: Option<JsonValue>, channel: Seq<char>) -> Option<ShutterStatus> {
    match parsed {
        Some(v) => match object_member(v, shutter_key(channel)) {
            Some(m) => shutter_status_of(m),
            None => None,
        },
        None => None,
    }
}

/// The shutter status of `channel` in a status message: its payload parsed
/// as JSON, then the member `Shutter{channel}` of the top-level object,
/// decoded as a status; nothing when the payload is not JSON or has no such
/// status.
pub fn map(message: MqttMessage, channel: &str) -> (r: Option<ShutterStatus>)
    ensures
        r == shutter_report(parsed_json(message.payload@), channel@),
{
    read_shutter_report(parse_json(message.payload.as_str()), channel)
}

/// The shutter status of `channel` in a parsed status payload (`None` when
/// the payload is not JSON): the member `Shutter{channel}` of the top-level
/// object, decoded as a status.
pub fn read_shutter_report(parsed: Option<JsonValue>, channel: &str) -> (r: Option<ShutterStatus>)
    ensures
        r == shutter_report(parsed, channel@),
{
    match parsed {
        Some(value) => {
            let key = String::from_str("Shutter").concat(channel);
            match value.take_member(key.as_str()) {
                Some(m) => ShutterStatus::from_json(&m),
                None => None,
            }
        },
        None => None,
    }
}

/// The command that sets the position of a stored shutter.
pub fn set_shutter_position(device: &Model, payload: String) -> (r: MqttPublish)
    ensures
        r.topic@ == command_topic_text(CommandTopic::ShutterPosition, device.device_name@, channel_text(device.channel)),
        r.payload == payload,
{
    send_command(CommandTopic::ShutterPosition, device.device_name.as_str(), device.channel, payload)
}

/// The subscription to the reports of a stored shutter.
pub fn get_shutter_position(device: &Model) -> (r: StatusListen)
    ensures
        r.topic@ == listen_topic_text(ListenTopic::Result, device.device_name@),
        r.channel@ == channel_text(device.channel),
{
    listen_command(ListenTopic::Result, device.device_name.as_str(), device.channel)
}


/// The report of channel `c` is the member named `Shutter` followed by `c`
/// of the top-level object, decoded as a status.
pub proof fn law_report_reads_channel_member(v: JsonValue, c: Seq<char>)
    ensures
        shutter_report(Some(v), c) == match object_member(v, "Shutter"@ + c) {
            Some(m) => shutter_status_of(m),
            None => None,
        },
        shutter_report(None, c) is None,
{
}

/// The report of channel `c` is taken from the entry named `Shutter` + `c`
/// wherever it stands among the object's members (the last one, should the
/// name occur twice): a device with several shutters reports each.
pub proof fn law_report_finds_channel_anywhere(entries: Vec<(String, JsonValue)>, i: int, c: Seq<char>)
    requires
        0 <= i < entries@.len(),
        entries@[i].0@ == "Shutter"@ + c,
        forall|j: int| i < j < entries@.len() ==> (#[trigger] entries@[j]).0@ != "Shutter"@ + c,
    ensures
        shutter_report(Some(JsonValue::Object(entries)), c) == shutter_status_of(entries@[i].1),
{
    law_member_is_the_keyed_entry(entries, i, "Shutter"@ + c);
}

/// Without a member named `Shutter` + `c` there is no report of channel `c`.
pub proof fn law_report_absent_without_member(entries: Vec<(String, JsonValue)>, c: Seq<char>)
    requires
        forall|j: int| 0 <= j < entries@.len() ==> (#[trigger] entries@[j]).0@ != "Shutter"@ + c,
    ensures
        shutter_report(Some(JsonValue::Object(entries)), c) is None,
{
    law_member_absent(entries, "Shutter"@ + c);
}

} // verus!
