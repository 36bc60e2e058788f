use vstd::prelude::*;
use vstd::string::*;
use crate::decimal::{decimal, u8_to_decimal};
use crate::devices::kinds::shutter::commands::{get_shutter_position, set_shutter_position};
use crate::devices::registry::model::Model;
use crate::device_registry::device::channel_text;
use crate::gql::{CommandError, MAXIMUM_LEVEL};
use crate::mqtt::listen_command::{listen_topic_text, ListenTopic, StatusListen};
use crate::mqtt::send_command::{command_topic_text, CommandTopic, MqttPublish};

verus! {

/// The shutter commands of the API, on stored devices.
#[derive(Default)]
pub struct DeviceShutterMutation;

/// The shutter reports of the API, on stored devices.
#[derive(Default)]
pub struct DeviceShutterSubscription;

impl DeviceShutterMutation {
    /// The command that moves a stored shutter to `position`; a position
    /// above 100 is refused.
    pub fn shutter_device(&self, device: &Model, position: u8) -> (r: Result<MqttPublish, CommandError>)
        ensures
            position > MAXIMUM_LEVEL ==> r == Err::<MqttPublish, CommandError>(CommandError::AboveMaximum(position)),
            position <= MAXIMUM_LEVEL ==> (r matches Ok(p) && p.topic@ == command_topic_text(
                CommandTopic::ShutterPosition,
                device.device_name@,
                channel_text(device.channel),
            ) && p.payload@ == decimal(position as nat)),
    {
        if position > MAXIMUM_LEVEL {
            return Err(CommandError::AboveMaximum(position));
        }
        Ok(set_shutter_position(device, u8_to_decimal(position)))
    }

    /// The command that asks a stored shutter to report: an empty payload.
    pub fn shutter_device_refresh(&self, device: &Model) -> (r: MqttPublish)
        ensures
            r.topic@ == command_topic_text(CommandTopic::ShutterPosition, device.device_name@, channel_text(device.channel)),
            r.payload@ == Seq::<char>::empty(),
    {
        set_shutter_position(device, String::new())
    }
}

impl DeviceShutterSubscription {
    /// The subscription to a stored shutter's reports.
    pub fn shutter_device_status(&self, device: &Model) -> (r: StatusListen)
        ensures
            r.topic@ == listen_topic_text(ListenTopic::Result, device.device_name@),
            r.channel@ == channel_text(device.channel),
    {
        get_shutter_position(device)
    }
}

} // verus!
