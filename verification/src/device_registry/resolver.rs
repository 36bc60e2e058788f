use vstd::prelude::*;
use crate::device_registry::device::{added, lists_devices, lookup, removed, AllDevices, Device, DeviceKind, DevicesManager};

verus! {

/// The queries of the API on the registry of named devices.
#[derive(Default)]
pub struct DevicesQuery {}

/// The mutations of the API on the registry of named devices.
#[derive(Default)]
pub struct DevicesMutation {}

impl DevicesQuery {
    /// All registered devices, as lists by kind.
    pub fn devices(&self, devices: &DevicesManager) -> (r: AllDevices)
        ensures
            lists_devices(r.switch@, devices.devices(DeviceKind::Switch)),
            lists_devices(r.shutter@, devices.devices(DeviceKind::Shutter)),
            lists_devices(r.light@, devices.devices(DeviceKind::Light)),
    {
        devices.to_gql()
    }
}

impl DevicesMutation {
    /// Registers `device` for `kind`; the answer tells whether its name is new.
    pub fn add_device(&self, devices: &mut DevicesManager, kind: DeviceKind, device: Device) -> (r: bool)
        ensures
            final(devices).devices(kind) == added(old(devices).devices(kind), device),
            forall|k: DeviceKind| k != kind ==> #[trigger] final(devices).devices(k) == old(devices).devices(k),
            r == (lookup(old(devices).devices(kind), device.display_name@) is None),
    {
        devices.add(kind, device)
    }

    /// Removes the device of `kind` named `display_name`; the answer is
    /// `true` exactly when no device had that name.
    pub fn remove_device(&self, devices: &mut DevicesManager, kind: DeviceKind, display_name: String) -> (r: bool)
        ensures
            final(devices).devices(kind) == removed(old(devices).devices(kind), display_name@),
            forall|k: DeviceKind| k != kind ==> #[trigger] final(devices).devices(k) == old(devices).devices(k),
            r == (lookup(old(devices).devices(kind), display_name@) is None),
    {
        devices.remove(kind, display_name)
    }
}

} // verus!
