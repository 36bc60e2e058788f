use vstd::prelude::*;
use vstd::string::*;
use crate::json::{i8_from_json, i8_of, law_member_is_the_keyed_entry, member, member_ref, u8_from_json, u8_of, JsonNumber, JsonValue};

verus! {

/// Where a shutter is moving; reported as 1, 0 and -1.
#[derive(Clone, Copy, Debug, PartialEq, Eq, PartialOrd, Ord, Structural)]
pub enum ShutterDirection {
    Closing,
    Stop,
    Opening,
}

/// The number that reports a direction.
pub open spec fn direction_number(d: ShutterDirection) -> i8 {
    match d {
        ShutterDirection::Closing => 1,
        ShutterDirection::Stop => 0,
        ShutterDirection::Opening => -1i8,
    }
}

/// The direction that `n` reports, if any.
pub open spec fn direction_of_number(n: i8) -> Option<ShutterDirection> {
    if n == 1 {
        Some(ShutterDirection::Closing)
    } else if n == 0 {
        Some(ShutterDirection::Stop)
    } else if n == -1 {
        Some(ShutterDirection::Opening)
    } else {
        None
    }
}

/// What decoding `v` as a direction gives: the integer 1, 0 or -1.
pub open spec fn direction_of(v: JsonValue) -> Option<ShutterDirection> {
    match i8_of(v) {
        Some(n) => direction_of_number(n),
        None => None,
    }
}

impl ShutterDirection {
    /// The number that reports the direction.
    pub fn as_i8(&self) -> (r: i8)
        ensures
            r == direction_number(*self),
    {
        match self {
            ShutterDirection::Closing => 1,
            ShutterDirection::Stop => 0,
            ShutterDirection::Opening => -1,
        }
    }

    /// The direction that `n` reports, if any.
    pub fn from_i8(n: i8) -> (r: Option<ShutterDirection>)
        ensures
            r == direction_of_number(n),
    {
        if n == 1 {
            Some(ShutterDirection::Closing)
        } else if n == 0 {
            Some(ShutterDirection::Stop)
        } else if n == -1 {
            Some(ShutterDirection::Opening)
        } else {
            None
        }
    }

    /// Decodes a direction from a JSON value.
    pub fn from_json(v: &JsonValue) -> (r: Option<ShutterDirection>)
        ensures
            r == direction_of(*v),
    {
        match i8_from_json(v) {
            Some(n) => ShutterDirection::from_i8(n),
            None => None,
        }
    }
}

/// The integers 1, 0 and -1 decode as closing, stopped and opening; no
/// other integer decodes as a direction.
pub proof fn law_direction_reads_its_number(n: i64)
    ensures
        direction_of(JsonValue::Number(JsonNumber::PosInt(1))) == Some(ShutterDirection::Closing),
        direction_of(JsonValue::Number(JsonNumber::PosInt(0))) == Some(ShutterDirection::Stop),
        direction_of(JsonValue::Number(JsonNumber::NegInt(-1i64))) == Some(ShutterDirection::Opening),
        n != 1 && n != 0 && n != -1 ==> direction_of(JsonValue::Number(JsonNumber::NegInt(n))) is None,
        n != 1 && n != 0 && n != -1 && n >= 0 ==> direction_of(JsonValue::Number(JsonNumber::PosInt(n as u64))) is None,
{
}

/// Every direction reads back from the number that reports it.
pub proof fn law_direction_number_roundtrip(d: ShutterDirection)
    ensures
        direction_of_number(direction_number(d)) == Some(d),
{
}

/// The state of a shutter as it reports it.
#[derive(Clone, Copy, Debug, PartialEq, Eq, Structural)]
pub struct ShutterStatus {
    pub position: u8,
    pub direction: ShutterDirection,
    pub target: u8,
}

/// What decoding `v` as a shutter status gives: an object with a byte
/// `Position`, a direction `Direction` and a byte `Target` (other members
/// ignored), or an array of exactly those three in that order.
pub open spec fn shutter_status_of(v: JsonValue) -> Option<ShutterStatus> {
    match v {
        JsonValue::Object(entries) => match (
            member(entries@, "Position"@),
            member(entries@, "Direction"@),
            member(entries@, "Target"@),
        ) {
            (Some(p), Some(d), Some(t)) => match (u8_of(p), direction_of(d), u8_of(t)) {
                (Some(position), Some(direction), Some(target)) => Some(ShutterStatus { position, direction, target }),
                _ => None,
            },
            _ => None,
        },
        JsonValue::Array(items) => if items@.len() == 3 {
            match (u8_of(items@[0]), direction_of(items@[1]), u8_of(items@[2])) {
                (Some(position), Some(direction), Some(target)) => Some(ShutterStatus { position, direction, target }),
                _ => None,
            }
        } else {
            None
        },
        _ => None,
    }
}

/// A status reads the same from its two JSON forms: an object with the
/// members `Position`, `Direction` and `Target` and the array of the same
/// three values in that order.
pub proof fn law_object_and_array_forms_agree(
    entries: Vec<(String, JsonValue)>,
    items: Vec<JsonValue>,
    position: JsonValue,
    direction: JsonValue,
    target: JsonValue,
)
    requires
        entries@.len() == 3,
        entries@[0].0@ == "Position"@ && entries@[0].1 == position,
        entries@[1].0@ == "Direction"@ && entries@[1].1 == direction,
        entries@[2].0@ == "Target"@ && entries@[2].1 == target,
        items@ == seq![position, direction, target],
    ensures
        shutter_status_of(JsonValue::Object(entries)) == shutter_status_of(JsonValue::Array(items)),
{
    reveal_strlit("Position");
    reveal_strlit("Direction");
    reveal_strlit("Target");
    let e = entries@;
    assert("Position"@ != "Direction"@) by {
        assert("Position"@[0] != "Direction"@[0]);
    }
    assert("Position"@ != "Target"@) by {
        assert("Position"@[0] != "Target"@[0]);
    }
    assert("Direction"@ != "Target"@) by {
        assert("Direction"@[0] != "Target"@[0]);
    }
    assert(e.drop_last().drop_last().drop_last() =~= Seq::<(String, JsonValue)>::empty());
    assert(e.drop_last().last() == e[1]);
    assert(e.drop_last().drop_last().last() == e[0]);
    assert(member(e, "Target"@) == Some(target));
    let e1 = e.drop_last();
    let e0 = e1.drop_last();
    assert(e.last() == e[2]);
    assert(e1.last() == e[1]);
    assert(e0.last() == e[0]);
    assert(member(e1, "Direction"@) == Some(direction));
    assert(member(e, "Direction"@) == member(e1, "Direction"@));
    assert(member(e0, "Position"@) == Some(position));
    assert(member(e1, "Position"@) == member(e0, "Position"@));
    assert(member(e, "Position"@) == member(e1, "Position"@));
}

impl ShutterStatus {
    /// Decodes a shutter status from a JSON value.
    pub fn from_json(v: &JsonValue) -> (r: Option<ShutterStatus>)
        ensures
            r == shutter_status_of(*v),
    {
        match v {
            JsonValue::Object(entries) => {
                let p = member_ref(entries, "Position");
                let d = member_ref(entries, "Direction");
                let t = member_ref(entries, "Target");
                match (p, d, t) {
                    (Some(p), Some(d), Some(t)) => match (u8_from_json(p), ShutterDirection::from_json(d), u8_from_json(t)) {
                        (Some(position), Some(direction), Some(target)) => Some(ShutterStatus { position, direction, target }),
                        _ => None,
                    },
                    _ => None,
                }
            },
            JsonValue::Array(items) => {
                if items.len() == 3 {
                    match (u8_from_json(&items[0]), ShutterDirection::from_json(&items[1]), u8_from_json(&items[2])) {
                        (Some(position), Some(direction), Some(target)) => Some(ShutterStatus { position, direction, target }),
                        _ => None,
                    }
                } else {
                    None
                }
            },
            _ => None,
        }
    }
}


/// A status object whose `Position` and `Target` are integers from 0 to
/// 255 and whose `Direction` is 1, 0 or -1 decodes to exactly those values,
/// whatever other members it has and wherever the three stand.
pub proof fn law_status_object_decodes_its_values(
    entries: Vec<(String, JsonValue)>,
    ip: int,
    id: int,
    it: int,
    position: u64,
    direction: ShutterDirection,
    target: u64,
)
    requires
        position <= 255,
        target <= 255,
        0 <= ip < entries@.len(),
        0 <= id < entries@.len(),
        0 <= it < entries@.len(),
        entries@[ip].0@ == "Position"@,
        entries@[ip].1 == JsonValue::Number(JsonNumber::PosInt(position)),
        entries@[id].0@ == "Direction"@,
        entries@[id].1 == match direction {
            ShutterDirection::Closing => JsonValue::Number(JsonNumber::PosInt(1)),
            ShutterDirection::Stop => JsonValue::Number(JsonNumber::PosInt(0)),
            ShutterDirection::Opening => JsonValue::Number(JsonNumber::NegInt(-1i64)),
        },
        entries@[it].0@ == "Target"@,
        entries@[it].1 == JsonValue::Number(JsonNumber::PosInt(target)),
        forall|j: int| ip < j < entries@.len() ==> (#[trigger] entries@[j]).0@ != "Position"@,
        forall|j: int| id < j < entries@.len() ==> (#[trigger] entries@[j]).0@ != "Direction"@,
        forall|j: int| it < j < entries@.len() ==> (#[trigger] entries@[j]).0@ != "Target"@,
    ensures
        shutter_status_of(JsonValue::Object(entries)) == Some(
            ShutterStatus { position: position as u8, direction, target: target as u8 },
        ),
{
    law_member_is_the_keyed_entry(entries, ip, "Position"@);
    law_member_is_the_keyed_entry(entries, id, "Direction"@);
    law_member_is_the_keyed_entry(entries, it, "Target"@);
}

} // verus!
