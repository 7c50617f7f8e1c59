//! A unit of work: a transaction the service runs its changes in, known by a
//! random identifier.

use vstd::prelude::*;
use crate::errors::UnitOfWorkId;

verus! {

/// A unit of work, as the use cases see it: its identifier.
pub trait UnitOfWork {
    fn get_id(&self) -> &UnitOfWorkId;
}

/// A unit of work on the Oracle database.
#[derive(Debug)]
pub struct OracleUow {
    id: UnitOfWorkId,
}

impl OracleUow {
    pub closed spec fn id(&self) -> UnitOfWorkId {
        self.id
    }

    /// A unit of work with a fresh random identifier.
    pub fn new() -> (r: Self)
        ensures
            (r.id().value() >> 76u128) & 0xfu128 == 4u128,
            (r.id().value() >> 62u128) & 0x3u128 == 2u128,
    {
        OracleUow { id: UnitOfWorkId::new() }
    }
}

impl UnitOfWork for OracleUow {
    fn get_id(&self) -> (r: &UnitOfWorkId)
        ensures
            *r == self.id(),
    {
        &self.id
    }
}

} // verus!
