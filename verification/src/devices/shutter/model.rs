use vstd::prelude::*;
use crate::json::{member, member_ref, u8_from_json, u8_of, JsonValue};

verus! {

/// The state of a shutter as it reports it: its `Position`, `Direction` and
/// `Target`, each a byte.
#[derive(Clone, Copy, Debug, PartialEq, Eq, Structural)]
pub struct ShutterStatus {
    pub position: u8,
    pub direction: u8,
    pub target: u8,
}

/// What decoding `v` as a shutter status gives: an object with the byte
/// members `Position`, `Direction` and `Target` (other members ignored), or
/// an array of exactly three bytes in that order.
pub open spec fn shutter_status_of(v: JsonValue) -> Option<ShutterStatus> {
    match v {
        JsonValue::Object(entries) => match (
            member(entries@, "Position"@),
            member(entries@, "Direction"@),
            member(entries@, "Target"@),
        ) {
            (Some(p), Some(d), Some(t)) => match (u8_of(p), u8_of(d), u8_of(t)) {
                (Some(position), Some(direction), Some(target)) => Some(ShutterStatus { position, direction, target }),
                _ => None,
            },
            _ => None,
        },
        JsonValue::Array(items) => if items@.len() == 3 {
            match (u8_of(items@[0]), u8_of(items@[1]), u8_of(items@[2])) {
                (Some(position), Some(direction), Some(target)) => Some(ShutterStatus { position, direction, target }),
                _ => None,
            }
        } else {
            None
        },
        _ => None,
    }
}

impl ShutterStatus {
    /// Decodes a shutter status from a JSON value.
    pub fn from_json(v: &JsonValue) -> (r: Option<ShutterStatus>)
        ensures
            r == shutter_status_of(*v),
    {
        match v {
            JsonValue::Object(entries) => {
                let p = member_ref(entries, "Position");
                let d = member_ref(entries, "Direction");
                let t = member_ref(entries, "Target");
                match (p, d, t) {
                    (Some(p), Some(d), Some(t)) => match (u8_from_json(p), u8_from_json(d), u8_from_json(t)) {
                        (Some(position), Some(direction), Some(target)) => Some(ShutterStatus { position, direction, target }),
                        _ => None,
                    },
                    _ => None,
                }
            },
            JsonValue::Array(items) => {
                if items.len() == 3 {
                    match (u8_from_json(&items[0]), u8_from_json(&items[1]), u8_from_json(&items[2])) {
                        (Some(position), Some(direction), Some(target)) => Some(ShutterStatus { position, direction, target }),
                        _ => None,
                    }
                } else {
                    None
                }
            },
            _ => None,
        }
    }
}

} // verus!
