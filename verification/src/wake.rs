//! Wake handles: opaque references to suspended consumers.

use vstd::prelude::*;

verus! {

/// The task handle of the `futures` crate, `futures::task::Task`. Nothing inside a handle is
/// visible to the proofs; two handles are told apart only by equality.
#[verifier::external_type_specification]
#[verifier::external_body]
pub struct ExTask(futures::task::Task);

/// `futures::task::Task::notify` asks the executor to poll the task behind the handle again.
/// It returns nothing and changes no value of this library, so the contract is empty. The call
/// ends in the `Notify` implementation of the executor that made the handle, which is asked not
/// to panic but is not bound to it: that the call returns is taken on trust from the executor.
pub assume_specification[ futures::task::Task::notify ](task: &futures::task::Task)
;

/// The wake handles that one state change released, one per readiness kind.
pub struct Wakes {
    /// Consumer that waited for the open result.
    pub on_open: Option<futures::task::Task>,
    /// Consumer that waited for data or end of stream.
    pub on_data: Option<futures::task::Task>,
    /// Consumer that waited for the exit status.
    pub on_exit: Option<futures::task::Task>,
}

impl Wakes {
    /// No handle at all.
    pub open spec fn none() -> Wakes {
        Wakes { on_open: None, on_data: None, on_exit: None }
    }

    /// Number of handles held.
    pub open spec fn count(self) -> nat {
        (if self.on_open is Some { 1nat } else { 0nat })
            + (if self.on_data is Some { 1nat } else { 0nat })
            + (if self.on_exit is Some { 1nat } else { 0nat })
    }

    /// Wakes every consumer whose handle is held, and returns how many were woken. Each wake is
    /// the executor's own code, reached through the handle: this call returns only where that
    /// returns.
    pub fn notify(self) -> (woken: usize)
        ensures
            woken == self.count(),
    {
        let mut woken: usize = 0;
        if let Some(task) = self.on_open {
            task.notify();
            woken = woken + 1;
        }
        if let Some(task) = self.on_data {
            task.notify();
            woken = woken + 1;
        }
        if let Some(task) = self.on_exit {
            task.notify();
            woken = woken + 1;
        }
        woken
    }
}

} // verus!
