//! The connection driver: the one task that advances the protocol engine.

use crate::outcome::{DriverPoll, EnginePoll, ReadOutcome};
use crate::session::{SessionModel, SessionState};
use futures::task::Task;
use vstd::prelude::*;

verus! {

/// Bookkeeping of the driver around each poll of the engine. It keeps the driver's own wake
/// handle, so that whoever queues outbound work can have the driver run again at once.
pub struct ConnectionDriver {
    wake: Option<Task>,
}

impl View for ConnectionDriver {
    type V = Option<Task>;

    /// The handle by which the driver can be woken, if it has stored one.
    closed spec fn view(&self) -> Option<Task> {
        self.wake
    }
}

/// What the driver reports for one outcome of the engine.
pub open spec fn verdict<E>(outcome: EnginePoll<E>) -> DriverPoll {
    match outcome {
        EnginePoll::Pending => DriverPoll::Suspended,
        EnginePoll::Finished => DriverPoll::Finished,
        EnginePoll::Failed(_) => DriverPoll::Failed,
    }
}

/// The session after the driver has seen one outcome of the engine: a failure is stored as the
/// session's fatal error, and nothing else changes.
pub open spec fn settled<E>(session: SessionModel<E>, outcome: EnginePoll<E>) -> SessionModel<E> {
    match outcome {
        EnginePoll::Failed(error) => SessionModel { fatal_error: Some(error), ..session },
        _ => session,
    }
}

impl ConnectionDriver {
    /// A driver that has not run yet and so cannot be woken.
    pub fn new() -> (driver: ConnectionDriver)
        ensures
            driver@ is None,
    {
        ConnectionDriver { wake: None }
    }

    /// First half of one turn, before the engine is polled: stores `waker`, the driver's own
    /// handle, in place of the one stored before.
    pub fn begin_poll(&mut self, waker: Task)
        ensures
            final(self)@ == Some(waker),
    {
        self.wake = Some(waker);
    }

    /// Second half of one turn, with what the engine's poll gave. No progress leaves the driver
    /// suspended; completion ends it; a failure is stored in the session as its fatal error and
    /// ends it too. No channel changes and no consumer is woken.
    pub fn finish_poll<E>(&self, session: &mut SessionState<E>, outcome: EnginePoll<E>) -> (status:
        DriverPoll)
        requires
            old(session).wf(),
        ensures
            final(session).wf(),
            status == verdict(outcome),
            final(session)@ == settled(old(session)@, outcome),
    {
        match outcome {
            EnginePoll::Pending => DriverPoll::Suspended,
            EnginePoll::Finished => DriverPoll::Finished,
            EnginePoll::Failed(error) => {
                session.record_error(error);
                DriverPoll::Failed
            },
        }
    }

    /// Wakes the driver through the handle it stored, which is used up by that. Returns whether
    /// there was a handle. The wake is the executor's own code, reached through the handle: this
    /// call returns only where that returns.
    pub fn wake(&mut self) -> (woken: bool)
        ensures
            woken == old(self)@ is Some,
            final(self)@ is None,
    {
        match self.wake.take() {
            Some(task) => {
                task.notify();
                true
            },
            None => false,
        }
    }
}

/// A fatal error of the engine ends the driver and is kept for whoever asks for the last error;
/// nothing else happens. No channel is added, removed or changed, so no buffer, cursor, exit
/// status or open result differs and nobody parked is released: a read that would block before
/// the failure would block after it.
pub proof fn lemma_fatal_error_only_recorded<E>(session: SessionModel<E>, error: E)
    ensures
        verdict(EnginePoll::Failed(error)) == DriverPoll::Failed,
        settled(session, EnginePoll::Failed(error)).fatal_error == Some(error),
        settled(session, EnginePoll::Failed(error)).channels == session.channels,
        forall|channel: u32, requested: nat|
            (#[trigger] session.channels[channel].read_outcome(requested))
                == ReadOutcome::WouldBlock ==> settled(
                session,
                EnginePoll::Failed(error),
            ).channels[channel].read_outcome(requested) == ReadOutcome::WouldBlock,
{
}

/// A poll of the engine that does not fail leaves the whole session as it was, the fatal error
/// included.
pub proof fn lemma_progress_leaves_session<E>(session: SessionModel<E>, outcome: EnginePoll<E>)
    requires
        !(outcome is Failed),
    ensures
        settled(session, outcome) == session,
        verdict(outcome) != DriverPoll::Failed,
{
}

} // verus!
