use vstd::prelude::*;
use crate::device_registry::device::{channel_text, channel_to_string};

verus! {

/// The kind of a stored device.
#[derive(Copy, Clone, Debug, Default, PartialEq, Eq, Hash, Structural)]
pub enum DeviceKind {
    #[default]
    Switch,
    Shutter,
    Light,
}

impl DeviceKind {
    /// The number that stores the kind: 0, 1 and 2 in declaration order.
    pub fn as_u8(&self) -> (r: u8)
        ensures
            r == kind_number(*self),
    {
        match self {
            DeviceKind::Switch => 0,
            DeviceKind::Shutter => 1,
            DeviceKind::Light => 2,
        }
    }

    /// The kind stored as `n`, if `n` stores one.
    pub fn from_u8(n: u8) -> (r: Option<DeviceKind>)
        ensures
            r == kind_of_number(n),
    {
        if n == 0 {
            Some(DeviceKind::Switch)
        } else if n == 1 {
            Some(DeviceKind::Shutter)
        } else if n == 2 {
            Some(DeviceKind::Light)
        } else {
            None
        }
    }
}

/// The number that stores a kind.
pub open spec fn kind_number(k: DeviceKind) -> u8 {
    match k {
        DeviceKind::Switch => 0,
        DeviceKind::Shutter => 1,
        DeviceKind::Light => 2,
    }
}

/// The kind that `n` stores, if any.
pub open spec fn kind_of_number(n: u8) -> Option<DeviceKind> {
    if n == 0 {
        Some(DeviceKind::Switch)
    } else if n == 1 {
        Some(DeviceKind::Shutter)
    } else if n == 2 {
        Some(DeviceKind::Light)
    } else {
        None
    }
}

/// Reading a kind back from the number that stores it gives the kind, and
/// every number that stores a kind is the number of that kind.
pub proof fn law_kind_number_roundtrip(k: DeviceKind, n: u8)
    ensures
        kind_of_number(kind_number(k)) == Some(k),
        kind_of_number(n) matches Some(j) ==> kind_number(j) == n,
{
}

/// A stored device. Its identifier is a UUID, held as its 128 bits.
#[derive(Debug)]
pub struct Model {
    pub id: u128,
    pub display_name: String,
    pub device_name: String,
    pub channel: Option<u8>,
    pub kind: DeviceKind,
    pub is_reporting_voltage: bool,
}

impl Model {
    /// The device's channel as text: empty when it has none.
    pub fn channel_as_string(&self) -> (r: String)
        ensures
            r@ == channel_text(self.channel),
    {
        channel_to_string(self.channel)
    }
}

} // verus!
