use vstd::prelude::*;
use vstd::string::*;
use crate::decimal::{decimal, u8_to_decimal};
use crate::devices::kinds::light::commands::{get_brightness, set_brightness};
use crate::devices::registry::model::Model;
use crate::device_registry::device::channel_text;
use crate::gql::{CommandError, MAXIMUM_LEVEL};
use crate::mqtt::listen_command::{listen_topic_text, ListenTopic, StatusListen};
use crate::mqtt::send_command::{command_topic_text, CommandTopic, MqttPublish};

verus! {

/// The light commands of the API, on stored devices.
#[derive(Default)]
pub struct DeviceLightMutation {}

/// The light reports of the API, on stored devices.
#[derive(Default)]
pub struct DeviceLightSubscription {}

impl DeviceLightMutation {
    /// The command that sets a stored light's brightness; a brightness above
    /// 100 is refused.
    pub fn light_device(&self, device: &Model, brightness: u8) -> (r: Result<MqttPublish, CommandError>)
        ensures
            brightness > MAXIMUM_LEVEL ==> r == Err::<MqttPublish, CommandError>(CommandError::AboveMaximum(brightness)),
            brightness <= MAXIMUM_LEVEL ==> (r matches Ok(p) && p.topic@ == command_topic_text(
                CommandTopic::Channel,
                device.device_name@,
                channel_text(device.channel),
            ) && p.payload@ == decimal(brightness as nat)),
    {
        if brightness > MAXIMUM_LEVEL {
            return Err(CommandError::AboveMaximum(brightness));
        }
        Ok(set_brightness(device, u8_to_decimal(brightness)))
    }

    /// The command that asks a stored light to report: an empty payload.
    pub fn light_device_refresh(&self, device: &Model) -> (r: MqttPublish)
        ensures
            r.topic@ == command_topic_text(CommandTopic::Channel, device.device_name@, channel_text(device.channel)),
            r.payload@ == Seq::<char>::empty(),
    {
        set_brightness(device, String::new())
    }
}

impl DeviceLightSubscription {
    /// The subscription to a stored light's reports.
    pub fn light_device_status(&self, device: &Model) -> (r: StatusListen)
        ensures
            r.topic@ == listen_topic_text(ListenTopic::Result, device.device_name@),
            r.channel@ == channel_text(device.channel),
    {
        get_brightness(device)
    }
}

} // verus!
