//! The decisions of running work as one atomic unit: begin a unit of work, run
//! the work on it, then commit the unit if the work succeeded or roll it back
//! if it failed.
//!
//! The caller performs each step (begin, work, commit, rollback) and hands
//! its outcome to the function of this module that decides what comes next.

use vstd::prelude::*;
use crate::errors::UnitOfWorkError;

verus! {

/// What follows `begin`: on success the work runs on the unit that `begin`
/// gave; on failure the whole run fails with the failure converted into the
/// work's error type, and neither commit nor rollback happens.
pub fn atomic_begun<H, E: From<UnitOfWorkError>>(begun: Result<H, UnitOfWorkError>) -> (r: Result<H, E>)
    ensures
        begun matches Ok(h) ==> r == Ok::<H, E>(h),
        begun matches Err(e) ==> r matches Err(x) && call_ensures(E::from, (e,), x),
{
    match begun {
        Ok(h) => Ok(h),
        Err(e) => Err(E::from(e)),
    }
}

/// A run whose work succeeded: the unit must be committed; the work's value is
/// kept until the commit's outcome is known.
pub struct CommitPending<T> {
    value: T,
}

/// A run whose work failed: the unit must be rolled back; the work's error is
/// kept until the rollback's outcome is known.
pub struct RollbackPending<E> {
    error: E,
}

impl<T> CommitPending<T> {
    /// The work's value.
    pub closed spec fn value(&self) -> T {
        self.value
    }

    /// What follows the commit: the work's value if the commit succeeded,
    /// else the commit's failure converted into the work's error type.
    pub fn committed<E: From<UnitOfWorkError>>(self, commit: Result<(), UnitOfWorkError>) -> (r: Result<T, E>)
        ensures
            commit is Ok ==> r == Ok::<T, E>(self.value()),
            commit matches Err(e) ==> r matches Err(x) && call_ensures(E::from, (e,), x),
    {
        match commit {
            Ok(()) => Ok(self.value),
            Err(e) => Err(E::from(e)),
        }
    }
}

impl<E> RollbackPending<E> {
    /// The work's error.
    pub closed spec fn error(&self) -> E {
        self.error
    }

    /// What follows the rollback: the work's own error, whether the rollback
    /// succeeded or failed.
    pub fn rolled_back<T>(self, rollback: Result<(), UnitOfWorkError>) -> (r: Result<T, E>)
        ensures
            r == Err::<T, E>(self.error()),
    {
        Err(self.error)
    }
}

/// What the outcome of the work asks for next.
pub enum AfterWork<T, E> {
    Commit(CommitPending<T>),
    Rollback(RollbackPending<E>),
}

/// What follows the work: commit when it succeeded, keeping its value;
/// roll back when it failed, keeping its error.
pub fn atomic_worked<T, E>(work: Result<T, E>) -> (r: AfterWork<T, E>)
    ensures
        work matches Ok(v) ==> r matches AfterWork::Commit(p) && p.value() == v,
        work matches Err(e) ==> r matches AfterWork::Rollback(p) && p.error() == e,
{
    match work {
        Ok(value) => AfterWork::Commit(CommitPending { value }),
        Err(error) => AfterWork::Rollback(RollbackPending { error }),
    }
}

} // verus!
