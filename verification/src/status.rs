//! How an operation can fail, and the status that a failure is reported with.
//!
//! A business-rule rejection is no failure: it is an ordinary reply that says
//! so. A failure is either a referenced entity that does not exist or a fault
//! of storage, which is reported without detail.

use vstd::prelude::*;

verus! {

/// A failure of an operation.
#[derive(Clone, Copy, Debug, PartialEq, Eq, Structural)]
pub enum Failure {
    /// The referenced account or market item does not exist.
    NotFound,
    /// Storage failed, or an amount left the range that can be stored.
    Internal,
}

impl Failure {
    /// The status that reports the failure: 404 for a missing entity, 500
    /// for anything internal.
    pub open spec fn code(self) -> int {
        match self {
            Failure::NotFound => 404,
            Failure::Internal => 500,
        }
    }

    /// The status that reports the failure.
    pub fn status_code(&self) -> (code: u16)
        ensures
            code == self.code(),
    {
        match self {
            Failure::NotFound => 404,
            Failure::Internal => 500,
        }
    }
}

/// The status of every reply that is not a failure, rejections included.
pub const STATUS_OK: u16 = 200;

/// What a read of one entity from storage gave.
#[derive(Clone, Copy, Debug, PartialEq, Eq)]
pub enum Lookup<T> {
    /// The entity exists.
    Found(T),
    /// Storage answered, and there is no such entity.
    Missing,
    /// Storage did not answer.
    Failed,
}

impl<T> Lookup<T> {
    /// The reply to a read: the entity where it exists, `NotFound` where it
    /// does not, `Internal` where storage failed.
    pub fn reply(self) -> (r: Result<T, Failure>)
        ensures
            r == match self {
                Lookup::Found(entity) => Ok::<T, Failure>(entity),
                Lookup::Missing => Err(Failure::NotFound),
                Lookup::Failed => Err(Failure::Internal),
            },
    {
        match self {
            Lookup::Found(entity) => Ok(entity),
            Lookup::Missing => Err(Failure::NotFound),
            Lookup::Failed => Err(Failure::Internal),
        }
    }
}

} // verus!
