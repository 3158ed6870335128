//! The mathematical model of one channel: what it holds, and how engine events and consumer
//! operations change it.

use crate::outcome::{ExitPoll, OpenFailure, ReadOutcome};
use crate::wake::Wakes;
use futures::task::Task;
use vstd::prelude::*;

verus! {

/// The three conditions a consumer can wait for.
#[derive(Clone, Copy, Debug, PartialEq, Eq, Structural)]
pub enum Readiness {
    /// The open request was answered.
    Open,
    /// Data arrived, or the stream ended.
    Data,
    /// The exit status arrived, or the channel closed.
    Exit,
}

/// An event that the protocol engine reports for one channel.
pub enum Event {
    /// The remote side confirmed the open request.
    OpenConfirmed,
    /// The remote side refused the open request.
    OpenFailed(OpenFailure),
    /// Bytes arrived; `ext` is set for an extended stream such as stderr.
    Data { ext: Option<u32>, bytes: Seq<u8> },
    /// No more data will arrive.
    Eof,
    /// The remote side tore the channel down.
    Close,
    /// The remote process exited.
    ExitStatus(u32),
}

/// An operation of a consumer on one channel.
pub enum Request {
    /// Read up to `requested` bytes; park `waker` if the read would block.
    Read { requested: nat, waker: Task },
    /// Ask for the exit status; park `waker` if it is not known yet.
    PollExit { waker: Task },
    /// Ask for the open result; park `waker` if it is not known yet.
    PollOpen { waker: Task },
}

/// Anything that touches a channel: an engine event, a consumer operation, or a consumer that
/// goes away and withdraws from the slot it may be parked in.
pub enum Step {
    Engine(Event),
    Consumer(Request),
    Withdraw(Readiness),
}

/// Snapshot of one channel.
pub struct ChannelModel {
    /// The inbound buffer: bytes delivered by the engine, oldest first. It is emptied when the
    /// last of them has been read, and not before.
    pub inbound: Seq<u8>,
    /// How many bytes at the front of the buffer have been read already.
    pub read_cursor: nat,
    /// No more data will arrive.
    pub eof: bool,
    /// The remote side tore the channel down.
    pub closed: bool,
    /// Exit code of the remote process, once reported.
    pub exit_status: Option<u32>,
    /// Answer to the open request, until the opener consumes it.
    pub open_result: Option<Result<(), OpenFailure>>,
    /// Whether the open request was ever answered. An answer is accepted once.
    pub open_answered: bool,
    /// Consumer parked until the open request is answered.
    pub on_open: Option<Task>,
    /// Consumer parked until data arrives or the stream ends.
    pub on_data: Option<Task>,
    /// Consumer parked until the exit status arrives or the channel closes.
    pub on_exit: Option<Task>,
}

/// The smaller of two lengths.
pub open spec fn shorter(a: nat, b: nat) -> nat {
    if a <= b {
        a
    } else {
        b
    }
}

impl ChannelModel {
    /// A channel whose open request was just issued.
    pub open spec fn fresh() -> ChannelModel {
        ChannelModel {
            inbound: Seq::empty(),
            read_cursor: 0,
            eof: false,
            closed: false,
            exit_status: None,
            open_result: None,
            open_answered: false,
            on_open: None,
            on_data: None,
            on_exit: None,
        }
    }

    /// Bytes delivered by the engine and not yet read, oldest first.
    pub open spec fn pending(self) -> Seq<u8> {
        self.inbound.skip(self.read_cursor as int)
    }

    /// Whether engine events still change the channel. A closed channel is frozen: later events
    /// are ignored. An open request is answered once: later answers are ignored.
    pub open spec fn accepts(self, event: Event) -> bool {
        &&& !self.closed
        &&& (event is OpenConfirmed || event is OpenFailed) ==> !self.open_answered
        &&& event matches Event::Data { ext, .. } ==> ext is None
    }

    /// The handle parked on one readiness kind.
    pub open spec fn slot(self, kind: Readiness) -> Option<Task> {
        match kind {
            Readiness::Open => self.on_open,
            Readiness::Data => self.on_data,
            Readiness::Exit => self.on_exit,
        }
    }

    /// Whether the condition of one readiness kind already holds.
    pub open spec fn satisfied(self, kind: Readiness) -> bool {
        match kind {
            Readiness::Open => self.open_result is Some,
            Readiness::Data => self.pending().len() > 0 || self.eof,
            Readiness::Exit => self.exit_status is Some || self.closed,
        }
    }

    /// The read cursor lies inside the buffer, and the buffer is empty whenever all of it has
    /// been read; a closed channel has reached end of stream; an answer to the open request was
    /// counted; and nobody is parked on a condition that already holds.
    pub open spec fn inv(self) -> bool {
        &&& self.read_cursor <= self.inbound.len()
        &&& self.read_cursor == self.inbound.len() ==> self.read_cursor == 0
        &&& self.closed ==> self.eof
        &&& self.open_result is Some ==> self.open_answered
        &&& self.on_open is Some ==> !self.satisfied(Readiness::Open)
        &&& self.on_data is Some ==> !self.satisfied(Readiness::Data)
        &&& self.on_exit is Some ==> !self.satisfied(Readiness::Exit)
    }

    /// The channel after one engine event. An event that the channel does not accept, see
    /// [`ChannelModel::accepts`], changes nothing.
    pub open spec fn deliver(self, event: Event) -> ChannelModel {
        if !self.accepts(event) {
            self
        } else {
            match event {
                Event::OpenConfirmed => ChannelModel {
                    open_result: Some(Ok(())),
                    open_answered: true,
                    on_open: None,
                    ..self
                },
                Event::OpenFailed(reason) => ChannelModel {
                    open_result: Some(Err(reason)),
                    open_answered: true,
                    on_open: None,
                    ..self
                },
                Event::Data { ext, bytes } => ChannelModel {
                    inbound: self.inbound + bytes,
                    on_data: None,
                    ..self
                },
                Event::Eof => ChannelModel { eof: true, on_data: None, ..self },
                Event::Close => ChannelModel {
                    eof: true,
                    closed: true,
                    on_data: None,
                    on_exit: None,
                    ..self
                },
                Event::ExitStatus(code) => ChannelModel {
                    exit_status: Some(code),
                    on_exit: None,
                    ..self
                },
            }
        }
    }

    /// The handles that one engine event releases. An event that the channel does not accept
    /// releases none: the consumers parked on a closed channel, or on an open request that was
    /// answered before, stay parked.
    pub open spec fn released(self, event: Event) -> Wakes {
        if !self.accepts(event) {
            Wakes::none()
        } else {
            match event {
                Event::OpenConfirmed => Wakes { on_open: self.on_open, ..Wakes::none() },
                Event::OpenFailed(_) => Wakes { on_open: self.on_open, ..Wakes::none() },
                Event::Data { .. } => Wakes { on_data: self.on_data, ..Wakes::none() },
                Event::Eof => Wakes { on_data: self.on_data, ..Wakes::none() },
                Event::Close => Wakes {
                    on_data: self.on_data,
                    on_exit: self.on_exit,
                    ..Wakes::none()
                },
                Event::ExitStatus(_) => Wakes { on_exit: self.on_exit, ..Wakes::none() },
            }
        }
    }

    /// How many bytes a read of up to `requested` bytes copies.
    pub open spec fn read_len(self, requested: nat) -> nat {
        shorter(requested, self.pending().len())
    }

    /// The bytes that a read of up to `requested` bytes copies.
    pub open spec fn read_bytes(self, requested: nat) -> Seq<u8> {
        self.pending().take(self.read_len(requested) as int)
    }

    /// What a read of up to `requested` bytes reports.
    pub open spec fn read_outcome(self, requested: nat) -> ReadOutcome {
        if self.pending().len() > 0 {
            ReadOutcome::Read(self.read_len(requested) as usize)
        } else if self.eof {
            ReadOutcome::EndOfStream
        } else {
            ReadOutcome::WouldBlock
        }
    }

    /// Whether a read of up to `requested` bytes takes the last buffered byte.
    pub open spec fn drains(self, requested: nat) -> bool {
        self.read_cursor + self.read_len(requested) == self.inbound.len()
    }

    /// The channel after a read of up to `requested` bytes by the consumer behind `waker`. A
    /// read that leaves bytes behind only moves the cursor; the read that takes the last byte
    /// empties the buffer and puts the cursor back to its start.
    pub open spec fn after_read(self, requested: nat, waker: Task) -> ChannelModel {
        ChannelModel {
            inbound: if self.drains(requested) {
                Seq::empty()
            } else {
                self.inbound
            },
            read_cursor: if self.drains(requested) {
                0
            } else {
                self.read_cursor + self.read_len(requested)
            },
            on_data: if self.pending().len() == 0 && !self.eof {
                Some(waker)
            } else {
                None
            },
            ..self
        }
    }

    /// What a poll for the exit status reports.
    pub open spec fn exit_outcome(self) -> ExitPoll {
        match self.exit_status {
            Some(code) => ExitPoll::Ready(code),
            None => if self.closed {
                ExitPoll::Lost
            } else {
                ExitPoll::Pending
            },
        }
    }

    /// The channel after a poll for the exit status by the consumer behind `waker`.
    pub open spec fn after_exit_poll(self, waker: Task) -> ChannelModel {
        ChannelModel {
            on_exit: if self.exit_status is None && !self.closed {
                Some(waker)
            } else {
                None
            },
            ..self
        }
    }

    /// The channel after the opener, the consumer behind `waker`, asked for the open result.
    /// The answer is consumed: a later look finds none.
    pub open spec fn after_open_poll(self, waker: Task) -> ChannelModel {
        ChannelModel {
            open_result: None,
            on_open: if self.open_result is None {
                Some(waker)
            } else {
                None
            },
            ..self
        }
    }

    /// The channel after the consumer of one readiness kind withdrew: its slot is empty.
    pub open spec fn disarm(self, kind: Readiness) -> ChannelModel {
        match kind {
            Readiness::Open => ChannelModel { on_open: None, ..self },
            Readiness::Data => ChannelModel { on_data: None, ..self },
            Readiness::Exit => ChannelModel { on_exit: None, ..self },
        }
    }

    /// The channel after one consumer operation.
    pub open spec fn serve(self, request: Request) -> ChannelModel {
        match request {
            Request::Read { requested, waker } => self.after_read(requested, waker),
            Request::PollExit { waker } => self.after_exit_poll(waker),
            Request::PollOpen { waker } => self.after_open_poll(waker),
        }
    }

    /// The channel after one step of either side.
    pub open spec fn step(self, step: Step) -> ChannelModel {
        match step {
            Step::Engine(event) => self.deliver(event),
            Step::Consumer(request) => self.serve(request),
            Step::Withdraw(kind) => self.disarm(kind),
        }
    }
}

} // verus!
