use vstd::prelude::*;

verus! {

/// A point in time with its offset from UTC, as the `time` crate defines it.
#[verifier::external_type_specification]
#[verifier::external_body]
pub struct ExOffsetDateTime(time::OffsetDateTime);

/// A stored voltage reading.
#[derive(Debug)]
pub struct Model {
    pub id: u32,
    pub device_name: String,
    pub voltage: u16,
    pub timestamp: time::OffsetDateTime,
}

/// A sensor report as a device sends it: `Time` and `ENERGY`.
#[derive(Debug)]
pub struct SensorMqtt {
    pub time: time::OffsetDateTime,
    pub energy: SensorMqttEnergy,
}

/// The energy part of a sensor report: `Voltage`.
#[derive(Debug)]
pub struct SensorMqttEnergy {
    pub voltage: u16,
}

/// A voltage reading as the API gives it.
#[derive(Debug)]
pub struct Sensor {
    pub timestamp: time::OffsetDateTime,
    pub voltage: u16,
}

impl Sensor {
    /// The reading of a sensor report.
    pub fn from_report(value: SensorMqtt) -> (r: Sensor)
        ensures
            r.timestamp == value.time,
            r.voltage == value.energy.voltage,
    {
        Sensor { timestamp: value.time, voltage: value.energy.voltage }
    }

    /// The reading of a stored record.
    pub fn from_model(value: Model) -> (r: Sensor)
        ensures
            r.timestamp == value.timestamp,
            r.voltage == value.voltage,
    {
        Sensor { timestamp: value.timestamp, voltage: value.voltage }
    }
}

} // verus!
