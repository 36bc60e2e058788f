use vstd::prelude::*;
use crate::db::DbErrWrapper;
use crate::devices::registry::model::Model;

verus! {

/// Why an operation on a stored device failed.
#[derive(Debug)]
pub enum DeviceErr {
    NotFound,
    DbErr(DbErrWrapper),
}

impl DeviceErr {
    /// The error for a database error.
    pub fn from_db(err: sea_orm::DbErr) -> (r: DeviceErr)
        ensures
            r matches DeviceErr::DbErr(w) && w.error() == err,
    {
        DeviceErr::DbErr(DbErrWrapper::new(err))
    }

    /// The message that the API answers with.
    pub fn message(&self) -> (r: &'static str)
        ensures
            r@ == match self {
                DeviceErr::NotFound => "there is no such a name registered"@,
                DeviceErr::DbErr(_) => "db error ocured"@,
            },
    {
        match self {
            DeviceErr::NotFound => "there is no such a name registered",
            DeviceErr::DbErr(err) => err.message(),
        }
    }
}

/// Whether the 128 bits `id` are a random (version 4, RFC 4122 variant)
/// UUID: version nibble 4, variant bits `10`.
pub open spec fn is_random_uuid(id: u128) -> bool {
    &&& (id >> 76u128) & 0xfu128 == 4
    &&& (id >> 62u128) & 0x3u128 == 2
}

/// A new identifier for a stored device, as its 128 bits.
/// Trusted: `uuid::Uuid::new_v4`, read out with `as_u128`. `new_v4` takes
/// random bits from the operating system and sets the version nibble to 4
/// and the variant bits to `10`; that is all that is claimed of the value.
/// The call panics when the system's random source fails, which no
/// precondition can exclude.
#[verifier::external_body]
fn fresh_device_id() -> (r: u128)
    ensures
        is_random_uuid(r),
{
    uuid::Uuid::new_v4().as_u128()
}

/// The outcome of a database operation, with its error wrapped.
pub fn wrap_db_result<T>(result: Result<T, sea_orm::DbErr>) -> (r: Result<T, DbErrWrapper>)
    ensures
        match result {
            Ok(v) => r == Ok::<T, DbErrWrapper>(v),
            Err(e) => r matches Err(w) && w.error() == e,
        },
{
    match result {
        Ok(v) => Ok(v),
        Err(e) => Err(DbErrWrapper::new(e)),
    }
}

/// The outcome of looking a device up by its identifier, given what the
/// database found: the device, `NotFound` when there is none, or the
/// database error.
pub fn get_by_id(found: Result<Option<Model>, sea_orm::DbErr>) -> (r: Result<Model, DeviceErr>)
    ensures
        match found {
            Ok(Some(m)) => r == Ok::<Model, DeviceErr>(m),
            Ok(None) => r matches Err(DeviceErr::NotFound),
            Err(e) => r matches Err(DeviceErr::DbErr(w)) && w.error() == e,
        },
{
    match found {
        Ok(Some(m)) => Ok(m),
        Ok(None) => Err(DeviceErr::NotFound),
        Err(e) => Err(DeviceErr::from_db(e)),
    }
}

/// The record to insert for a new device: the device's fields under a new
/// random identifier (whatever identifier the device came with is dropped).
pub fn new_device(device: Model) -> (r: Model)
    ensures
        is_random_uuid(r.id),
        r.display_name == device.display_name,
        r.device_name == device.device_name,
        r.channel == device.channel,
        r.kind == device.kind,
        r.is_reporting_voltage == device.is_reporting_voltage,
{
    Model {
        id: fresh_device_id(),
        channel: device.channel,
        device_name: device.device_name,
        display_name: device.display_name,
        kind: device.kind,
        is_reporting_voltage: device.is_reporting_voltage,
    }
}

/// The outcome of inserting a device, given what the database answered,
/// and whether listeners of changes are to be told: only on success.
pub fn add_outcome(inserted: Result<Model, sea_orm::DbErr>) -> (r: (Result<Model, DbErrWrapper>, bool))
    ensures
        match inserted {
            Ok(m) => r.0 == Ok::<Model, DbErrWrapper>(m) && r.1,
            Err(e) => (r.0 matches Err(w) && w.error() == e) && !r.1,
        },
{
    match inserted {
        Ok(m) => (Ok(m), true),
        Err(e) => (Err(DbErrWrapper::new(e)), false),
    }
}

/// The outcome of deleting a device, given the number of rows the database
/// deleted, and whether listeners of changes are to be told: no row deleted
/// is `NotFound`; only a deletion is told.
pub fn remove_outcome(deleted: Result<u64, sea_orm::DbErr>) -> (r: (Result<(), DeviceErr>, bool))
    ensures
        match deleted {
            Ok(rows) => if rows == 0 {
                (r.0 matches Err(DeviceErr::NotFound)) && !r.1
            } else {
                r.0 == Ok::<(), DeviceErr>(()) && r.1
            },
            Err(e) => (r.0 matches Err(DeviceErr::DbErr(w)) && w.error() == e) && !r.1,
        },
{
    match deleted {
        Ok(rows) => {
            if rows == 0 {
                (Err(DeviceErr::NotFound), false)
            } else {
                (Ok(()), true)
            }
        },
        Err(e) => (Err(DeviceErr::from_db(e)), false),
    }
}

} // verus!
