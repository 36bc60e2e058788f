//! A home automation server's library: the registry of devices, the MQTT
//! topics and payloads of device commands and reports, the routing of
//! incoming publications to subscribers, and the decisions of the services
//! over stored devices.

pub mod config;
pub mod db;
pub mod decimal;
pub mod device_registry;
pub mod devices;
pub mod gql;
pub mod json;
pub mod mqtt;
