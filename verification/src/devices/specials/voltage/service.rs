use vstd::prelude::*;
use crate::devices::registry::model::Model;
use crate::devices::specials::voltage::commands::get_voltage;
use crate::device_registry::device::channel_text;
use crate::mqtt::listen_command::{listen_topic_text, ListenTopic, StatusListen};

verus! {

/// The subscriptions that record voltage: one per device reporting it, in
/// the order given.
pub fn recording_plan(devices: &Vec<Model>) -> (r: Vec<StatusListen>)
    ensures
        r@.len() == devices@.len(),
        forall|i: int| 0 <= i < r@.len() ==> {
            &&& (#[trigger] r@[i]).topic@ == listen_topic_text(ListenTopic::Sensor, devices@[i].device_name@)
            &&& r@[i].channel@ == channel_text(devices@[i].channel)
        },
{
    let mut plan: Vec<StatusListen> = Vec::new();
    let mut i: usize = 0;
    while i < devices.len()
        invariant
            i <= devices@.len(),
            plan@.len() == i,
            forall|j: int| 0 <= j < i ==> {
                &&& (#[trigger] plan@[j]).topic@ == listen_topic_text(ListenTopic::Sensor, devices@[j].device_name@)
                &&& plan@[j].channel@ == channel_text(devices@[j].channel)
            },
        decreases devices@.len() - i,
    {
        plan.push(get_voltage(&devices[i]));
        i = i + 1;
    }
    plan
}

} // verus!
