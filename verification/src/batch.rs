//! The sequential compile batch.
//!
//! Compilation is one item at a time: the caller takes the next script from
//! the queue, runs the external compiler on it, and reports the exit status
//! back. A non-zero exit fails the batch with `CompilerExitedNonZero` and
//! halts it: no further queued item is handed out. Progress is the plain
//! pair of counters `completed` of `total`.

use vstd::prelude::*;
use crate::error::ScaError;

verus! {

/// A batch of build scripts to compile, drained from the back of the queue.
pub struct CompileBatch {
    pub items: Vec<Vec<String>>,
    pub total: usize,
    pub completed: usize,
    pub failed: bool,
}

impl CompileBatch {
    /// A batch never reports more work than it was given: the items still
    /// queued and the items completed never exceed the total.
    pub open spec fn wf(&self) -> bool {
        self.completed + self.items@.len() <= self.total
    }

    /// A fresh batch over the given scripts: nothing completed, not failed.
    pub fn new(items: Vec<Vec<String>>) -> (r: Self)
        ensures
            r.wf(),
            r.items == items,
            r.total == items@.len(),
            r.completed == 0,
            !r.failed,
    {
        let total: usize = items.len();
        CompileBatch { items, total, completed: 0, failed: false }
    }

    /// Hands out the next script to compile, from the back of the queue.
    /// A failed or exhausted batch hands out nothing and stays as it is.
    pub fn next_item(&mut self) -> (r: Option<Vec<String>>)
        ensures
            old(self).failed || old(self).items@.len() == 0 ==> r is None && *final(self)
                == *old(self),
            !old(self).failed && old(self).items@.len() > 0 ==> {
                &&& r == Some(old(self).items@.last())
                &&& final(self).items@ == old(self).items@.drop_last()
                &&& final(self).total == old(self).total
                &&& final(self).completed == old(self).completed
                &&& !final(self).failed
            },
            old(self).wf() ==> final(self).wf(),
            old(self).wf() && !old(self).failed && old(self).items@.len() > 0
                ==> final(self).completed < final(self).total,
    {
        if self.failed {
            return None;
        }
        if self.items.len() == 0 {
            return None;
        }
        self.items.pop()
    }

    /// Records the exit status of the compiler run on the item last handed
    /// out. A zero exit counts the item as completed; any other exit fails
    /// the batch with `CompilerExitedNonZero` and leaves the queue untouched,
    /// so the batch stops before any further item.
    pub fn record_result(&mut self, exit_ok: bool) -> (r: Result<(), ScaError>)
        requires
            old(self).completed < old(self).total,
        ensures
            exit_ok ==> {
                &&& r == Ok::<(), ScaError>(())
                &&& final(self).completed == old(self).completed + 1
                &&& final(self).items == old(self).items
                &&& final(self).total == old(self).total
                &&& final(self).failed == old(self).failed
            },
            !exit_ok ==> {
                &&& r == Err::<(), ScaError>(ScaError::CompilerExitedNonZero)
                &&& final(self).failed
                &&& final(self).items == old(self).items
                &&& final(self).total == old(self).total
                &&& final(self).completed == old(self).completed
            },
    {
        if exit_ok {
            self.completed = self.completed + 1;
            Ok(())
        } else {
            self.failed = true;
            Err(ScaError::CompilerExitedNonZero)
        }
    }
}

} // verus!
