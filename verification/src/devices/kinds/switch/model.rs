use vstd::prelude::*;

verus! {

/// What a switch is told to do.
#[derive(Copy, Clone, PartialEq, Eq, Debug, Structural)]
pub enum SwitchStatus {
    On,
    Off,
    Toggle,
}

/// The payload of a switch command.
pub open spec fn switch_payload(s: SwitchStatus) -> Seq<char> {
    match s {
        SwitchStatus::On => "ON"@,
        SwitchStatus::Off => "OFF"@,
        SwitchStatus::Toggle => "TOGGLE"@,
    }
}

impl SwitchStatus {
    /// The payload that tells a switch to do this.
    pub fn as_payload(&self) -> (r: &'static str)
        ensures
            r@ == switch_payload(*self),
    {
        match self {
            SwitchStatus::On => "ON",
            SwitchStatus::Off => "OFF",
            SwitchStatus::Toggle => "TOGGLE",
        }
    }
}

} // verus!
