use vstd::prelude::*;
use crate::decimal::{decimal, u8_to_decimal};
use crate::device_registry::device::{channel_text, lookup, DeviceKind, DevicesManager};
use crate::devices::kinds::light::commands::light_report;
use crate::devices::light::model::LightStatus;
use crate::gql::{CommandError, MAXIMUM_LEVEL};
use crate::json::JsonValue;
use crate::mqtt::client::MqttMessage;
use crate::mqtt::listen_command::{listen_command, listen_topic_text, ListenTopic, StatusListen};
use crate::mqtt::send_command::{command_topic_text, send_command, CommandTopic, MqttPublish};

verus! {

/// The light commands of the API, on named devices.
#[derive(Default)]
pub struct DeviceLightMutation {}

/// The light reports of the API, on named devices.
#[derive(Default)]
pub struct DeviceLightSubscription {}

impl DeviceLightMutation {
    /// The command that sets the brightness of the light named
    /// `display_name`: refused when the brightness is above 100 or no light
    /// has the name.
    pub fn light_device_brightness(&self, devices: &DevicesManager, display_name: &str, brightness: u8) -> (r: Result<MqttPublish, CommandError>)
        ensures
            brightness > MAXIMUM_LEVEL ==> r == Err::<MqttPublish, CommandError>(CommandError::AboveMaximum(brightness)),
            brightness <= MAXIMUM_LEVEL ==> match lookup(devices.devices(DeviceKind::Light), display_name@) {
                None => r == Err::<MqttPublish, CommandError>(CommandError::DeviceNotFound),
                Some(d) => (r matches Ok(p) && p.topic@ == command_topic_text(
                    CommandTopic::Channel,
                    d.device_name@,
                    channel_text(d.channel),
                ) && p.payload@ == decimal(brightness as nat)),
            },
    {
        if brightness > MAXIMUM_LEVEL {
            return Err(CommandError::AboveMaximum(brightness));
        }
        match devices.get_by_display_name(DeviceKind::Light, display_name) {
            Ok(device) => Ok(send_command(
                CommandTopic::Channel,
                device.device_name.as_str(),
                device.channel,
                u8_to_decimal(brightness),
            )),
            Err(_) => Err(CommandError::DeviceNotFound),
        }
    }
}

impl DeviceLightSubscription {
    /// The subscription to the reports of the light named `display_name`;
    /// refused when no light has the name.
    pub fn light_device_status(&self, devices: &DevicesManager, display_name: &str) -> (r: Result<StatusListen, CommandError>)
        ensures
            match lookup(devices.devices(DeviceKind::Light), display_name@) {
                None => r matches Err(CommandError::DeviceNotFound),
                Some(d) => (r matches Ok(l) && l.topic@ == listen_topic_text(ListenTopic::Result, d.device_name@)
                    && l.channel@ == channel_text(d.channel)),
            },
    {
        match devices.get_by_display_name(DeviceKind::Light, display_name) {
            Ok(device) => Ok(listen_command(ListenTopic::Result, device.device_name.as_str(), device.channel)),
            Err(_) => Err(CommandError::DeviceNotFound),
        }
    }

    /// The status in a report of the subscribed light: its payload is taken
    /// as a JSON string (not parsed), so no report gives a status.
    pub fn light_status(&self, listen: &StatusListen, message: MqttMessage) -> (r: Option<LightStatus>)
        ensures
            r == light_report(JsonValue::String(message.payload), listen.channel@),
            r is None,
    {
        crate::devices::kinds::light::commands::map(message, listen.channel.as_str())
    }
}

} // verus!
