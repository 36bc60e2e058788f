use vstd::prelude::*;
use vstd::string::*;
use crate::decimal::{decimal, u8_to_decimal};
use crate::devices::kinds::light::resolver::{DeviceLightMutation, DeviceLightSubscription};
use crate::devices::kinds::shutter::resolver::{DeviceShutterMutation, DeviceShutterSubscription};
use crate::devices::kinds::switch::resolver::{DeviceSwitchMutation, DeviceSwitchSubscription};
use crate::devices::registry::resolver::{DevicesMutation, DevicesQuery};
use crate::devices::specials::voltage::resolver::{VoltageQuery, VoltageSubscription};

verus! {

/// The answer of an operation that gives nothing back.
#[derive(Clone, Copy, Debug, Default, PartialEq, Eq, Structural)]
pub struct Void;

impl Void {
    /// The answer for `()`.
    pub fn from_unit(_unit: ()) -> (r: Void) {
        Void
    }
}

/// The largest brightness or shutter position a command accepts.
pub const MAXIMUM_LEVEL: u8 = 100;

/// Why a device command is refused before anything is sent.
#[derive(Clone, Copy, Debug, PartialEq, Eq, Structural)]
pub enum CommandError {
    /// No device is registered under the name.
    DeviceNotFound,
    /// The level is above the largest one accepted.
    AboveMaximum(u8),
}

/// The message that the API answers a refused command with.
pub open spec fn command_error_text(e: CommandError) -> Seq<char> {
    match e {
        CommandError::DeviceNotFound => "there is no such a name registered"@,
        CommandError::AboveMaximum(v) => "Failed to parse \"Int\": the value is "@ + decimal(v as nat)
            + ", must be less than or equal to 100"@,
    }
}

impl CommandError {
    /// The message that the API answers with.
    pub fn message(&self) -> (r: String)
        ensures
            r@ == command_error_text(*self),
    {
        match self {
            CommandError::DeviceNotFound => String::from_str("there is no such a name registered"),
            CommandError::AboveMaximum(v) => {
                let text = String::from_str("Failed to parse \"Int\": the value is ");
                let digits = u8_to_decimal(*v);
                text.concat(digits.as_str()).concat(", must be less than or equal to 100")
            },
        }
    }
}

/// The queries of the API.
pub struct Query(pub DevicesQuery, pub VoltageQuery);

/// The mutations of the API.
pub struct Mutation(
    pub DevicesMutation,
    pub DeviceSwitchMutation,
    pub DeviceLightMutation,
    pub DeviceShutterMutation,
);

/// The subscriptions of the API.
pub struct Subscription(
    pub DeviceSwitchSubscription,
    pub DeviceLightSubscription,
    pub DeviceShutterSubscription,
    pub VoltageSubscription,
);

} // verus!
