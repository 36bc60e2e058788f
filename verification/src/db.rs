use vstd::prelude::*;

verus! {

/// A database error, as `sea_orm` reports it.
#[verifier::external_type_specification]
#[verifier::external_body]
pub struct ExDbErr(sea_orm::DbErr);

/// A database error on its way to the API.
#[derive(Debug)]
pub struct DbErrWrapper(sea_orm::DbErr);

impl DbErrWrapper {
    /// The error that this one wraps.
    pub closed spec fn error(&self) -> sea_orm::DbErr {
        self.0
    }

    /// Wraps `err`.
    pub fn new(err: sea_orm::DbErr) -> (r: Self)
        ensures
            r.error() == err,
    {
        DbErrWrapper(err)
    }

    /// The wrapped error, to be logged.
    pub fn inner(&self) -> (r: &sea_orm::DbErr)
        ensures
            *r == self.error(),
    {
        &self.0
    }

    /// The message that the API answers with; the error itself is only
    /// logged.
    pub fn message(&self) -> (r: &'static str)
        ensures
            r@ == "db error ocured"@,
    {
        "db error ocured"
    }
}

} // verus!
