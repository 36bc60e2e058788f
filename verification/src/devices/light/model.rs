use vstd::prelude::*;
use crate::json::{bool_from_json, bool_of, member, member_ref, u8_from_json, u8_of, JsonValue};

verus! {

/// The state of a light as it reports it: whether it is on (`Power`) and
/// its brightness (`Light`).
#[derive(Clone, Copy, Debug, PartialEq, Eq, Structural)]
pub struct LightStatus {
    pub power: bool,
    pub brightness: u8,
}

/// What decoding `v` as a light status gives: an object with a boolean
/// `Power` and a byte `Light` (other members ignored), or an array of
/// exactly those two values in that order.
pub open spec fn light_status_of(v: JsonValue) -> Option<LightStatus> {
    match v {
        JsonValue::Object(entries) => match (member(entries@, "Power"@), member(entries@, "Light"@)) {
            (Some(p), Some(l)) => match (bool_of(p), u8_of(l)) {
                (Some(power), Some(brightness)) => Some(LightStatus { power, brightness }),
                _ => None,
            },
            _ => None,
        },
        JsonValue::Array(items) => if items@.len() == 2 {
            match (bool_of(items@[0]), u8_of(items@[1])) {
                (Some(power), Some(brightness)) => Some(LightStatus { power, brightness }),
                _ => None,
            }
        } else {
            None
        },
        _ => None,
    }
}

impl LightStatus {
    /// Decodes a light status from a JSON value.
    pub fn from_json(v: &JsonValue) -> (r: Option<LightStatus>)
        ensures
            r == light_status_of(*v),
    {
        match v {
            JsonValue::Object(entries) => {
                let p = member_ref(entries, "Power");
                let l = member_ref(entries, "Light");
                match (p, l) {
                    (Some(p), Some(l)) => match (bool_from_json(p), u8_from_json(l)) {
                        (Some(power), Some(brightness)) => Some(LightStatus { power, brightness }),
                        _ => None,
                    },
                    _ => None,
                }
            },
            JsonValue::Array(items) => {
                if items.len() == 2 {
                    match (bool_from_json(&items[0]), u8_from_json(&items[1])) {
                        (Some(power), Some(brightness)) => Some(LightStatus { power, brightness }),
                        _ => None,
                    }
                } else {
                    None
                }
            },
            _ => None,
        }
    }
}

} // verus!
