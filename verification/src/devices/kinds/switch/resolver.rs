use vstd::prelude::*;
use vstd::string::*;
use crate::devices::kinds::switch::commands::{get_switch_status, set_switch_status};
use crate::devices::kinds::switch::model::{switch_payload, SwitchStatus};
use crate::devices::registry::model::Model;
use crate::device_registry::device::channel_text;
use crate::mqtt::listen_command::{listen_topic_text, ListenTopic, StatusListen};
use crate::mqtt::send_command::{command_topic_text, CommandTopic, MqttPublish};

verus! {

/// The switch commands of the API, on stored devices.
#[derive(Default)]
pub struct DeviceSwitchMutation;

/// The switch reports of the API, on stored devices.
#[derive(Default)]
pub struct DeviceSwitchSubscription;

impl DeviceSwitchMutation {
    /// The command that tells a stored switch to do `switch`.
    pub fn switch_device(&self, device: &Model, switch: SwitchStatus) -> (r: MqttPublish)
        ensures
            r.topic@ == command_topic_text(CommandTopic::Power, device.device_name@, channel_text(device.channel)),
            r.payload@ == switch_payload(switch),
    {
        set_switch_status(device, String::from_str(switch.as_payload()))
    }

    /// The command that asks a stored switch to report: an empty payload.
    pub fn switch_device_refresh(&self, device: &Model) -> (r: MqttPublish)
        ensures
            r.topic@ == command_topic_text(CommandTopic::Power, device.device_name@, channel_text(device.channel)),
            r.payload@ == Seq::<char>::empty(),
    {
        set_switch_status(device, String::new())
    }
}

impl DeviceSwitchSubscription {
    /// The subscription to a stored switch's reports.
    pub fn switch_device_status(&self, device: &Model) -> (r: StatusListen)
        ensures
            r.topic@ == listen_topic_text(ListenTopic::Result, device.device_name@),
            r.channel@ == channel_text(device.channel),
    {
        get_switch_status(device)
    }
}

} // verus!
