use vstd::prelude::*;
use crate::db::DbErrWrapper;
use crate::devices::registry::model::Model;
use crate::devices::registry::service::DeviceErr;
use crate::gql::Void;

verus! {

/// The queries of the API on stored devices.
#[derive(Default)]
pub struct DevicesQuery;

/// The mutations of the API on stored devices.
#[derive(Default)]
pub struct DevicesMutation;

impl DevicesQuery {
    /// The answer to a query for all devices, given what the database gave.
    pub fn all_devices(&self, fetched: Result<Vec<Model>, DbErrWrapper>) -> (r: Result<Vec<Model>, &'static str>)
        ensures
            match fetched {
                Ok(v) => r == Ok::<Vec<Model>, &'static str>(v),
                Err(_) => r matches Err(m) && m@ == "db error ocured"@,
            },
    {
        match fetched {
            Ok(v) => Ok(v),
            Err(e) => Err(e.message()),
        }
    }
}

impl DevicesMutation {
    /// The answer to adding a device, given what the database stored.
    pub fn add_device(&self, inserted: Result<Model, DbErrWrapper>) -> (r: Result<Model, &'static str>)
        ensures
            match inserted {
                Ok(m) => r == Ok::<Model, &'static str>(m),
                Err(_) => r matches Err(m) && m@ == "db error ocured"@,
            },
    {
        match inserted {
            Ok(m) => Ok(m),
            Err(e) => Err(e.message()),
        }
    }

    /// The answer to removing a device, given the outcome of the removal.
    pub fn remove_device(&self, removed: Result<(), DeviceErr>) -> (r: Result<Void, &'static str>)
        ensures
            match removed {
                Ok(()) => r == Ok::<Void, &'static str>(Void),
                Err(DeviceErr::NotFound) => r matches Err(m) && m@ == "there is no such a name registered"@,
                Err(DeviceErr::DbErr(_)) => r matches Err(m) && m@ == "db error ocured"@,
            },
    {
        match removed {
            Ok(()) => Ok(Void::from_unit(())),
            Err(e) => Err(e.message()),
        }
    }
}

} // verus!
