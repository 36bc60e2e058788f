use vstd::prelude::*;
use crate::devices::registry::model::Model;
use crate::devices::specials::voltage::model::{Sensor, SensorMqtt};
use crate::device_registry::device::channel_text;
use crate::mqtt::listen_command::{listen_command, listen_topic_text, ListenTopic, StatusListen};

verus! {

/// The reading in a sensor message, given its payload decoded as a sensor
/// report (`None` when it is not one).
pub fn map(report: Option<SensorMqtt>) -> (r: Option<Sensor>)
    ensures
        match report {
            Some(s) => r matches Some(v) && v.timestamp == s.time && v.voltage == s.energy.voltage,
            None => r is None,
        },
{
    match report {
        Some(s) => Some(Sensor::from_report(s)),
        None => None,
    }
}

/// The subscription to the sensor reports of the device named
/// `device_name`.
pub fn sensor_listen(device_name: &str, channel: Option<u8>) -> (r: StatusListen)
    ensures
        r.topic@ == listen_topic_text(ListenTopic::Sensor, device_name@),
        r.channel@ == channel_text(channel),
{
    listen_command(ListenTopic::Sensor, device_name, channel)
}

/// The subscription to the sensor reports of a stored device.
pub fn get_voltage(device: &Model) -> (r: StatusListen)
    ensures
        r.topic@ == listen_topic_text(ListenTopic::Sensor, device.device_name@),
        r.channel@ == channel_text(device.channel),
{
    sensor_listen(device.device_name.as_str(), device.channel)
}

} // verus!
