use vstd::prelude::*;
use vstd::string::*;
use crate::decimal::{decimal, u8_to_decimal};
use crate::device_registry::device::{channel_text, lookup, DeviceKind, DevicesManager};
use crate::devices::shutter::model::{shutter_status_of, ShutterStatus};
use crate::gql::{CommandError, MAXIMUM_LEVEL};
use crate::json::{object_member, JsonValue};
use crate::mqtt::client::MqttMessage;
use crate::mqtt::listen_command::{listen_command, listen_topic_text, ListenTopic, StatusListen};
use crate::mqtt::send_command::{command_topic_text, send_command, CommandTopic, MqttPublish};

verus! {

/// The shutter commands of the API, on named devices.
#[derive(Default)]
pub struct DeviceShutterMutation {}

/// The shutter reports of the API, on named devices.
#[derive(Default)]
pub struct DeviceShutterSubscription {}

/// What the report of `channel` in the JSON value `v` reads as.
pub open spec fn named_shutter_report(v: JsonValue, channel: Seq<char>) -> Option<ShutterStatus> {
    match object_member(v, "Shutter"@ + channel) {
        Some(m) => shutter_status_of(m),
        None => None,
    }
}

impl DeviceShutterMutation {
    /// The command that moves the shutter named `display_name` to
    /// `position`: refused when the position is above 100 or no shutter has
    /// the name.
    pub fn shutter_device(&self, devices: &DevicesManager, display_name: &str, position: u8) -> (r: Result<MqttPublish, CommandError>)
        ensures
            position > MAXIMUM_LEVEL ==> r == Err::<MqttPublish, CommandError>(CommandError::AboveMaximum(position)),
            position <= MAXIMUM_LEVEL ==> match lookup(devices.devices(DeviceKind::Shutter), display_name@) {
                None => r == Err::<MqttPublish, CommandError>(CommandError::DeviceNotFound),
                Some(d) => (r matches Ok(p) && p.topic@ == command_topic_text(
                    CommandTopic::ShutterPosition,
                    d.device_name@,
                    channel_text(d.channel),
                ) && p.payload@ == decimal(position as nat)),
            },
    {
        if position > MAXIMUM_LEVEL {
            return Err(CommandError::AboveMaximum(position));
        }
        match devices.get_by_display_name(DeviceKind::Shutter, display_name) {
            Ok(device) => Ok(send_command(
                CommandTopic::ShutterPosition,
                device.device_name.as_str(),
                device.channel,
                u8_to_decimal(position),
            )),
            Err(_) => Err(CommandError::DeviceNotFound),
        }
    }
}

impl DeviceShutterSubscription {
    /// The subscription to the reports of the shutter named `display_name`;
    /// refused when no shutter has the name.
    pub fn shutter_device_status(&self, devices: &DevicesManager, display_name: &str) -> (r: Result<StatusListen, CommandError>)
        ensures
            match lookup(devices.devices(DeviceKind::Shutter), display_name@) {
                None => r matches Err(CommandError::DeviceNotFound),
                Some(d) => (r matches Ok(l) && l.topic@ == listen_topic_text(ListenTopic::Result, d.device_name@)
                    && l.channel@ == channel_text(d.channel)),
            },
    {
        match devices.get_by_display_name(DeviceKind::Shutter, display_name) {
            Ok(device) => Ok(listen_command(ListenTopic::Result, device.device_name.as_str(), device.channel)),
            Err(_) => Err(CommandError::DeviceNotFound),
        }
    }

    /// The status in a report of the subscribed shutter: its payload is
    /// taken as a JSON string (not parsed), so no report gives a status.
    pub fn shutter_status(&self, listen: &StatusListen, message: MqttMessage) -> (r: Option<ShutterStatus>)
        ensures
            r == named_shutter_report(JsonValue::String(message.payload), listen.channel@),
            r is None,
    {
        let key = String::from_str("Shutter").concat(listen.channel.as_str());
        let value = JsonValue::from_string(message.payload);
        match value.take_member(key.as_str()) {
            Some(m) => ShutterStatus::from_json(&m),
            None => None,
        }
    }
}

} // verus!
