use vstd::prelude::*;
use crate::db::DbErrWrapper;
use crate::devices::specials::voltage::commands::sensor_listen;
use crate::devices::specials::voltage::model::Sensor;
use crate::mqtt::listen_command::{listen_topic_text, ListenTopic, StatusListen};

verus! {

/// The voltage queries of the API.
#[derive(Default)]
pub struct VoltageQuery;

/// The voltage reports of the API.
#[derive(Default)]
pub struct VoltageSubscription;

impl VoltageQuery {
    /// The answer to a query for the last day's readings, given what the
    /// database gave: the readings, or the message of its error.
    pub fn last_day_voltage(&self, fetched: Result<Vec<Sensor>, DbErrWrapper>) -> (r: Result<Vec<Sensor>, &'static str>)
        ensures
            match fetched {
                Ok(v) => r == Ok::<Vec<Sensor>, &'static str>(v),
                Err(_) => r matches Err(m) && m@ == "db error ocured"@,
            },
    {
        match fetched {
            Ok(v) => Ok(v),
            Err(e) => Err(e.message()),
        }
    }
}

impl VoltageSubscription {
    /// The subscription to the voltage reports of the device named
    /// `device_name` (a device without a channel).
    pub fn voltage_report(&self, device_name: String) -> (r: StatusListen)
        ensures
            r.topic@ == listen_topic_text(ListenTopic::Sensor, device_name@),
            r.channel@ == Seq::<char>::empty(),
    {
        sensor_listen(device_name.as_str(), None)
    }
}

} // verus!
