//! Consumer-facing handles: the open future, the channel, and the exit-status future. Each
//! holds a channel identifier only; the state lives in the session and is passed to every call.

use crate::model::{Readiness, Request};
use crate::outcome::{ExitPoll, OpenFailure, ReadOutcome};
use crate::session::SessionState;
use futures::task::Task;
use vstd::prelude::*;

verus! {

/// Where an open future stands.
#[derive(Clone, Copy, Debug, PartialEq, Eq, Structural)]
pub enum OpenPhase {
    /// Never polled.
    Init,
    /// The engine was asked to look at its input again; the answer to that is awaited.
    AwaitingEngine,
    /// The open result is awaited.
    AwaitingOpenResult,
    /// The channel was opened and handed out.
    Opened,
    /// The open request was refused and the refusal handed out.
    Failed,
}

/// The command request that is due once a channel is confirmed open.
#[derive(Clone, Copy, Debug, PartialEq, Eq)]
pub struct ExecRequest<'a> {
    /// The confirmed channel.
    pub channel: u32,
    /// Whether the remote side is asked to acknowledge the request.
    pub want_reply: bool,
    /// The command line to run.
    pub command: &'a str,
}

/// What one poll of an open future asks of its caller, or gives it.
#[derive(Debug, PartialEq, Eq)]
pub enum OpenPoll<'a> {
    /// Make the engine abandon the read it is in the middle of, so that the driver's next turn
    /// examines what has arrived since; then report that with
    /// [`ChannelOpenFuture::engine_flushed`] and poll again.
    FlushInbound,
    /// The channel is open. Send `request` to the engine and wake the connection driver, so that
    /// the request leaves without waiting for unrelated readiness.
    Opened { channel: Channel, request: ExecRequest<'a> },
    /// The open request was refused.
    Failed(OpenFailure),
    /// No answer yet; the caller is woken when there is one.
    Pending,
    /// The future was resolved by an earlier poll.
    Completed,
}

/// Snapshot of an open future.
pub struct OpenFutureModel {
    /// The channel being opened.
    pub channel: u32,
    /// The command to run once it is open.
    pub command: Seq<char>,
    /// Where the future stands.
    pub phase: OpenPhase,
}

/// A channel that was requested and is not yet established.
pub struct ChannelOpenFuture<'a> {
    cmd: &'a str,
    id: u32,
    phase: OpenPhase,
}

/// A channel to a process running at the remote host.
#[derive(Debug, PartialEq, Eq)]
pub struct Channel {
    id: u32,
}

/// A future that resolves to the exit status of the remote process.
#[derive(Debug, PartialEq, Eq)]
pub struct ExitStatusFuture {
    id: u32,
}

impl<'a> View for ChannelOpenFuture<'a> {
    type V = OpenFutureModel;

    closed spec fn view(&self) -> OpenFutureModel {
        OpenFutureModel { channel: self.id, command: self.cmd@, phase: self.phase }
    }
}

impl View for Channel {
    type V = u32;

    /// The identifier of the channel.
    closed spec fn view(&self) -> u32 {
        self.id
    }
}

impl View for ExitStatusFuture {
    type V = u32;

    /// The identifier of the channel.
    closed spec fn view(&self) -> u32 {
        self.id
    }
}

impl OpenFutureModel {
    /// The phase after a poll that found `answer` as the open result.
    pub open spec fn next_phase(self, answer: Option<Result<(), OpenFailure>>) -> OpenPhase {
        match self.phase {
            OpenPhase::Init => OpenPhase::AwaitingEngine,
            OpenPhase::AwaitingOpenResult => match answer {
                Some(Ok(_)) => OpenPhase::Opened,
                Some(Err(_)) => OpenPhase::Failed,
                None => OpenPhase::AwaitingOpenResult,
            },
            phase => phase,
        }
    }

    /// Whether a poll in this phase looks at the channel state at all.
    pub open spec fn looks(self) -> bool {
        self.phase == OpenPhase::AwaitingOpenResult
    }
}

impl<'a> ChannelOpenFuture<'a> {
    /// The future of the channel `id`, which will run `cmd` once the channel is open.
    pub fn new(cmd: &'a str, id: u32) -> (future: ChannelOpenFuture<'a>)
        ensures
            future@ == (OpenFutureModel { channel: id, command: cmd@, phase: OpenPhase::Init }),
    {
        ChannelOpenFuture { cmd, id, phase: OpenPhase::Init }
    }

    /// Where the future stands.
    pub fn phase(&self) -> (phase: OpenPhase)
        ensures
            phase == self@.phase,
    {
        self.phase
    }

    /// The channel being opened.
    pub fn id(&self) -> (id: u32)
        ensures
            id == self@.channel,
    {
        self.id
    }

    /// The engine has abandoned its read as [`OpenPoll::FlushInbound`] asked: the open result
    /// is awaited from now on. In any other phase nothing changes.
    pub fn engine_flushed(&mut self)
        ensures
            final(self)@ == (OpenFutureModel {
                phase: if old(self)@.phase == OpenPhase::AwaitingEngine {
                    OpenPhase::AwaitingOpenResult
                } else {
                    old(self)@.phase
                },
                ..old(self)@
            }),
    {
        if self.phase == OpenPhase::AwaitingEngine {
            self.phase = OpenPhase::AwaitingOpenResult;
        }
    }

    /// The opener goes away: the handle it may have left in the channel's open slot is dropped
    /// and will not be woken.
    pub fn cancel<E>(&self, session: &mut SessionState<E>)
        requires
            old(session).wf(),
        ensures
            final(session).wf(),
            final(session)@ == if old(session)@.has_channel(self@.channel) {
                old(session)@.with_channel(
                    self@.channel,
                    old(session)@.channels[self@.channel].disarm(Readiness::Open),
                )
            } else {
                old(session)@
            },
    {
        session.disarm(self.id, Readiness::Open);
    }

    /// Advances the future by one poll.
    ///
    /// Until the engine has been flushed the poll asks for that and leaves the session alone.
    /// After that it consumes the open result: a confirmation gives the channel and the command
    /// request that is now due, a refusal gives its reason, and with no answer yet `waker` is
    /// parked in the channel's open slot in place of whoever waited there before. Once resolved,
    /// the future reports that it is completed and touches nothing.
    pub fn poll<E>(&mut self, session: &mut SessionState<E>, waker: Task) -> (step: OpenPoll<'a>)
        requires
            old(session).wf(),
            old(session)@.has_channel(old(self)@.channel),
        ensures
            final(session).wf(),
            final(self)@ == (OpenFutureModel {
                phase: old(self)@.next_phase(
                    old(session)@.channels[old(self)@.channel].open_result,
                ),
                ..old(self)@
            }),
            final(session)@ == if old(self)@.looks() {
                old(session)@.serve(old(self)@.channel, (Request::PollOpen { waker }))
            } else {
                old(session)@
            },
            match old(self)@.phase {
                OpenPhase::Init | OpenPhase::AwaitingEngine => step == OpenPoll::<'a>::FlushInbound,
                OpenPhase::AwaitingOpenResult => match old(session)@.channels[old(
                    self,
                )@.channel].open_result {
                    Some(Ok(_)) => step matches OpenPoll::Opened { channel, request }
                        && channel@ == old(self)@.channel
                        && request.channel == old(self)@.channel
                        && request.want_reply
                        && request.command@ == old(self)@.command,
                    Some(Err(reason)) => step == OpenPoll::<'a>::Failed(reason),
                    None => step == OpenPoll::<'a>::Pending,
                },
                OpenPhase::Opened | OpenPhase::Failed => step == OpenPoll::<'a>::Completed,
            },
    {
        match self.phase {
            OpenPhase::Init => {
                self.phase = OpenPhase::AwaitingEngine;
                OpenPoll::FlushInbound
            },
            OpenPhase::AwaitingEngine => OpenPoll::FlushInbound,
            OpenPhase::AwaitingOpenResult => {
                match session.poll_open_result(self.id, waker) {
                    Some(Ok(_)) => {
                        self.phase = OpenPhase::Opened;
                        OpenPoll::Opened {
                            channel: Channel { id: self.id },
                            request: ExecRequest {
                                channel: self.id,
                                want_reply: true,
                                command: self.cmd,
                            },
                        }
                    },
                    Some(Err(reason)) => {
                        self.phase = OpenPhase::Failed;
                        OpenPoll::Failed(reason)
                    },
                    None => OpenPoll::Pending,
                }
            },
            OpenPhase::Opened => OpenPoll::Completed,
            OpenPhase::Failed => OpenPoll::Completed,
        }
    }
}

impl Channel {
    /// The reader goes away: the handle it may have left in the channel's data slot is dropped
    /// and will not be woken.
    pub fn cancel<E>(&self, session: &mut SessionState<E>)
        requires
            old(session).wf(),
        ensures
            final(session).wf(),
            final(session)@ == if old(session)@.has_channel(self@) {
                old(session)@.with_channel(
                    self@,
                    old(session)@.channels[self@].disarm(Readiness::Data),
                )
            } else {
                old(session)@
            },
    {
        session.disarm(self.id, Readiness::Data);
    }

    /// The identifier of the channel.
    pub fn id(&self) -> (id: u32)
        ensures
            id == self@,
    {
        self.id
    }

    /// Reads buffered output of the remote process into `buf`; see
    /// [`crate::channel_state::ChannelState::read`].
    pub fn read<E>(&mut self, session: &mut SessionState<E>, buf: &mut [u8], waker: Task) -> (outcome:
        ReadOutcome)
        requires
            old(session).wf(),
            old(session)@.has_channel(old(self)@),
        ensures
            final(self)@ == old(self)@,
            final(session).wf(),
            outcome == old(session)@.channels[old(self)@].read_outcome(old(buf)@.len()),
            final(session)@ == old(session)@.serve(
                old(self)@,
                (Request::Read { requested: old(buf)@.len(), waker }),
            ),
            final(buf)@ == old(session)@.channels[old(self)@].read_bytes(old(buf)@.len()) + old(
                buf,
            )@.skip(old(session)@.channels[old(self)@].read_len(old(buf)@.len()) as int),
    {
        session.read(self.id, buf, waker)
    }

    /// Turns the channel into the future of its exit status.
    pub fn exit_status(self) -> (future: ExitStatusFuture)
        ensures
            future@ == self@,
    {
        ExitStatusFuture { id: self.id }
    }
}

impl ExitStatusFuture {
    /// The waiter goes away: the handle it may have left in the channel's exit slot is dropped
    /// and will not be woken.
    pub fn cancel<E>(&self, session: &mut SessionState<E>)
        requires
            old(session).wf(),
        ensures
            final(session).wf(),
            final(session)@ == if old(session)@.has_channel(self@) {
                old(session)@.with_channel(
                    self@,
                    old(session)@.channels[self@].disarm(Readiness::Exit),
                )
            } else {
                old(session)@
            },
    {
        session.disarm(self.id, Readiness::Exit);
    }

    /// The identifier of the channel.
    pub fn id(&self) -> (id: u32)
        ensures
            id == self@,
    {
        self.id
    }

    /// Asks for the exit status; see
    /// [`crate::channel_state::ChannelState::poll_exit_status`].
    pub fn poll<E>(&mut self, session: &mut SessionState<E>, waker: Task) -> (outcome: ExitPoll)
        requires
            old(session).wf(),
            old(session)@.has_channel(old(self)@),
        ensures
            final(self)@ == old(self)@,
            final(session).wf(),
            outcome == old(session)@.channels[old(self)@].exit_outcome(),
            final(session)@ == old(session)@.serve(old(self)@, (Request::PollExit { waker })),
    {
        session.poll_exit_status(self.id, waker)
    }
}

} // verus!
