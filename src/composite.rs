use vstd::prelude::*;
use crate::error::LogError;

verus! {

/// A drain: accepts records of type `R`, and reports success or an error.
///
/// Drains that share state across threads guard it themselves.
pub trait SendSyncDrain<R> {
    /// Logging `record` may succeed. A drain that states nothing may.
    open spec fn may_succeed(&self, record: R) -> bool {
        true
    }

    /// Logging `record` may fail with an error carrying `message`. A drain that states
    /// nothing may.
    open spec fn may_fail_with(&self, record: R, message: Seq<char>) -> bool {
        true
    }

    /// Logs one record.
    fn log(&self, record: &R) -> (r: Result<(), LogError>)
        ensures
            match r {
                Ok(()) => self.may_succeed(*record),
                Err(e) => self.may_fail_with(*record, e.message@),
            },
    ;
}

/// A drain that hands each record to all of its drains in order, and stops at the
/// first that fails.
#[derive(Debug)]
pub struct DuplicateMultiple<D> {
    pub drains: Vec<D>,
}

/// Every drain of `drains` before index `i` may accept the record.
pub open spec fn all_succeed_before<R, D: SendSyncDrain<R>>(drains: Seq<D>, record: R, i: int) -> bool {
    forall|k: int| 0 <= k < i ==> #[trigger] drains[k].may_succeed(record)
}

impl<R, D: SendSyncDrain<R>> SendSyncDrain<R> for DuplicateMultiple<D> {
    open spec fn may_succeed(&self, record: R) -> bool {
        all_succeed_before(self.drains@, record, self.drains@.len() as int)
    }

    open spec fn may_fail_with(&self, record: R, message: Seq<char>) -> bool {
        exists|i: int|
            0 <= i < self.drains@.len() && all_succeed_before(self.drains@, record, i)
                && #[trigger] self.drains@[i].may_fail_with(record, message)
    }

    fn log(&self, record: &R) -> (r: Result<(), LogError>) {
        let mut i: usize = 0;
        while i < self.drains.len()
            invariant
                i <= self.drains@.len(),
                all_succeed_before(self.drains@, *record, i as int),
            decreases self.drains.len() - i,
        {
            match self.drains[i].log(record) {
                Ok(()) => {},
                Err(e) => {
                    assert(self.drains@[i as int].may_fail_with(*record, e.message@));
                    return Err(e);
                },
            }
            i = i + 1;
        }
        Ok(())
    }
}

} // verus!
