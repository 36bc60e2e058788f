use vstd::prelude::*;
use vstd::string::*;
use crate::device_registry::device::{channel_text, lookup, DeviceKind, DevicesManager};
use crate::devices::kinds::switch::commands::power_report;
use crate::gql::CommandError;
use crate::json::JsonValue;
use crate::mqtt::client::MqttMessage;
use crate::mqtt::listen_command::{listen_command, listen_topic_text, ListenTopic, StatusListen};
use crate::mqtt::send_command::{command_topic_text, send_command, CommandTopic, MqttPublish};

verus! {

/// The switch commands of the API, on named devices.
#[derive(Default)]
pub struct DeviceSwitchMutation {}

/// The switch reports of the API, on named devices.
#[derive(Default)]
pub struct DeviceSwitchSubscription {}

/// What a named switch is told to do.
#[derive(Copy, Clone, PartialEq, Eq, Debug, Structural)]
pub enum SwitchStatus {
    On,
    Off,
    Toggle,
}

/// The payload of a command to a named switch: the status's word, or
/// nothing for a request to report.
pub open spec fn named_switch_payload(switch: Option<SwitchStatus>) -> Seq<char> {
    match switch {
        Some(SwitchStatus::On) => "ON"@,
        Some(SwitchStatus::Off) => "OFF"@,
        Some(SwitchStatus::Toggle) => "TOGGLE"@,
        None => ""@,
    }
}

impl SwitchStatus {
    /// The payload that tells a switch to do this.
    pub fn as_payload(&self) -> (r: &'static str)
        ensures
            r@ == named_switch_payload(Some(*self)),
    {
        match self {
            SwitchStatus::On => "ON",
            SwitchStatus::Off => "OFF",
            SwitchStatus::Toggle => "TOGGLE",
        }
    }
}

impl DeviceSwitchMutation {
    /// The command that tells the switch named `display_name` to do `switch`.
    pub fn switch_device(&self, devices: &DevicesManager, display_name: &str, switch: SwitchStatus) -> (r: Result<MqttPublish, CommandError>)
        ensures
            match lookup(devices.devices(DeviceKind::Switch), display_name@) {
                None => r matches Err(CommandError::DeviceNotFound),
                Some(d) => (r matches Ok(p) && p.topic@ == command_topic_text(
                    CommandTopic::Power,
                    d.device_name@,
                    channel_text(d.channel),
                ) && p.payload@ == named_switch_payload(Some(switch))),
            },
    {
        self.send_command(devices, display_name, Some(switch))
    }

    /// The command that asks the switch named `display_name` to report.
    pub fn switch_device_refresh(&self, devices: &DevicesManager, display_name: &str) -> (r: Result<MqttPublish, CommandError>)
        ensures
            match lookup(devices.devices(DeviceKind::Switch), display_name@) {
                None => r matches Err(CommandError::DeviceNotFound),
                Some(d) => (r matches Ok(p) && p.topic@ == command_topic_text(
                    CommandTopic::Power,
                    d.device_name@,
                    channel_text(d.channel),
                ) && p.payload@ == named_switch_payload(None)),
            },
    {
        self.send_command(devices, display_name, None)
    }

    /// The command to the switch named `display_name`: the status's word, or
    /// an empty payload without one; refused when no switch has the name.
    pub fn send_command(&self, devices: &DevicesManager, display_name: &str, switch: Option<SwitchStatus>) -> (r: Result<MqttPublish, CommandError>)
        ensures
            match lookup(devices.devices(DeviceKind::Switch), display_name@) {
                None => r matches Err(CommandError::DeviceNotFound),
                Some(d) => (r matches Ok(p) && p.topic@ == command_topic_text(
                    CommandTopic::Power,
                    d.device_name@,
                    channel_text(d.channel),
                ) && p.payload@ == named_switch_payload(switch)),
            },
    {
        match devices.get_by_display_name(DeviceKind::Switch, display_name) {
            Ok(device) => {
                let payload = match switch {
                    Some(status) => status.as_payload(),
                    None => "",
                };
                Ok(send_command(CommandTopic::Power, device.device_name.as_str(), device.channel, String::from_str(payload)))
            },
            Err(_) => Err(CommandError::DeviceNotFound),
        }
    }
}

impl DeviceSwitchSubscription {
    /// The subscription to the reports of the switch named `display_name`;
    /// refused when no switch has the name.
    pub fn switch_device_status(&self, devices: &DevicesManager, display_name: &str) -> (r: Result<StatusListen, CommandError>)
        ensures
            match lookup(devices.devices(DeviceKind::Switch), display_name@) {
                None => r matches Err(CommandError::DeviceNotFound),
                Some(d) => (r matches Ok(l) && l.topic@ == listen_topic_text(ListenTopic::Result, d.device_name@)
                    && l.channel@ == channel_text(d.channel)),
            },
    {
        match devices.get_by_display_name(DeviceKind::Switch, display_name) {
            Ok(device) => Ok(listen_command(ListenTopic::Result, device.device_name.as_str(), device.channel)),
            Err(_) => Err(CommandError::DeviceNotFound),
        }
    }

    /// The power state in a report of the subscribed switch: its payload is
    /// taken as a JSON string (not parsed), so no report gives a state.
    pub fn switch_status(&self, listen: &StatusListen, message: MqttMessage) -> (r: Option<bool>)
        ensures
            r == power_report(JsonValue::String(message.payload), listen.channel@),
            r is None,
    {
        crate::devices::kinds::switch::commands::map(message, listen.channel.as_str())
    }
}

} // verus!
