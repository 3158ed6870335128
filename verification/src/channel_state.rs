//! The per-channel record that the engine's events and the consumers' operations change.

use crate::model::{ChannelModel, Event, Readiness};
use crate::outcome::{ExitPoll, OpenFailure, ReadOutcome};
use crate::wake::Wakes;
use futures::task::Task;
use vstd::prelude::*;

verus! {

/// State of one channel: buffered inbound data, lifecycle flags, exit status, open result, and
/// one wake-handle slot per readiness kind.
pub struct ChannelState {
    closed: bool,
    on_data: Option<Task>,
    read_cursor: usize,
    inbound: Vec<u8>,
    eof: bool,
    on_exit: Option<Task>,
    exit_status: Option<u32>,
    on_open: Option<Task>,
    open_result: Option<Result<(), OpenFailure>>,
    open_answered: bool,
}

impl View for ChannelState {
    type V = ChannelModel;

    closed spec fn view(&self) -> ChannelModel {
        ChannelModel {
            inbound: self.inbound@,
            read_cursor: self.read_cursor as nat,
            eof: self.eof,
            closed: self.closed,
            exit_status: self.exit_status,
            open_result: self.open_result,
            open_answered: self.open_answered,
            on_open: self.on_open,
            on_data: self.on_data,
            on_exit: self.on_exit,
        }
    }
}

impl ChannelState {
    /// The snapshot satisfies [`ChannelModel::inv`].
    pub closed spec fn wf(&self) -> bool {
        self@.inv()
    }

    /// What a well-formed record guarantees of its snapshot.
    pub proof fn lemma_wf_inv(&self)
        requires
            self.wf(),
        ensures
            self@.inv(),
    {
    }

    /// The state of a channel whose open request was just issued.
    pub fn new() -> (state: ChannelState)
        ensures
            state.wf(),
            state@ == ChannelModel::fresh(),
    {
        let state = ChannelState {
            closed: false,
            on_data: None,
            read_cursor: 0,
            inbound: Vec::new(),
            eof: false,
            on_exit: None,
            exit_status: None,
            on_open: None,
            open_result: None,
            open_answered: false,
        };
        state
    }

    /// How many bytes the inbound buffer holds, read or not.
    pub fn buffered(&self) -> (len: usize)
        ensures
            len == self@.inbound.len(),
    {
        self.inbound.len()
    }

    /// How many bytes at the front of the inbound buffer have been read already.
    pub fn read_cursor(&self) -> (cursor: usize)
        ensures
            cursor == self@.read_cursor,
    {
        self.read_cursor
    }

    /// Whether the remote side tore the channel down.
    pub fn is_closed(&self) -> (closed: bool)
        ensures
            closed == self@.closed,
    {
        self.closed
    }

    /// The remote side confirmed the open request. The first answer on a channel that is not
    /// closed is stored, and the opener's handle is returned for the caller to wake. A later
    /// answer, or one on a closed channel, changes nothing and releases nobody.
    pub fn channel_open_confirmation(&mut self) -> (wakes: Wakes)
        requires
            old(self).wf(),
        ensures
            final(self).wf(),
            final(self)@ == old(self)@.deliver(Event::OpenConfirmed),
            wakes == old(self)@.released(Event::OpenConfirmed),
    {
        if self.closed || self.open_answered {
            return Wakes { on_open: None, on_data: None, on_exit: None };
        }
        self.open_result = Some(Ok(()));
        self.open_answered = true;
        let on_open = self.on_open.take();
        Wakes { on_open, on_data: None, on_exit: None }
    }

    /// The remote side refused the open request for `reason`. The first answer on a channel that
    /// is not closed is stored, and the opener's handle is returned for the caller to wake. A
    /// later answer, or one on a closed channel, changes nothing and releases nobody.
    pub fn channel_open_failure(&mut self, reason: OpenFailure) -> (wakes: Wakes)
        requires
            old(self).wf(),
        ensures
            final(self).wf(),
            final(self)@ == old(self)@.deliver(Event::OpenFailed(reason)),
            wakes == old(self)@.released(Event::OpenFailed(reason)),
    {
        if self.closed || self.open_answered {
            return Wakes { on_open: None, on_data: None, on_exit: None };
        }
        self.open_result = Some(Err(reason));
        self.open_answered = true;
        let on_open = self.on_open.take();
        Wakes { on_open, on_data: None, on_exit: None }
    }

    /// Bytes arrived. Those of the primary stream (`ext` unset) are appended to the buffer and
    /// the reader's handle is returned for the caller to wake. Those of an extended stream are
    /// dropped, and so are bytes for a closed channel: the buffer stays as it is and nobody is
    /// woken.
    pub fn data(&mut self, ext: Option<u32>, data: &[u8]) -> (wakes: Wakes)
        requires
            old(self).wf(),
        ensures
            final(self).wf(),
            final(self)@ == old(self)@.deliver((Event::Data { ext, bytes: data@ })),
            wakes == old(self)@.released((Event::Data { ext, bytes: data@ })),
    {
        if self.closed || ext.is_some() {
            return Wakes { on_open: None, on_data: None, on_exit: None };
        }
        self.inbound.extend_from_slice(data);
        assert(self.inbound@ =~= old(self).inbound@ + data@);
        let on_data = self.on_data.take();
        Wakes { on_open: None, on_data, on_exit: None }
    }

    /// No more data will arrive. Returns the reader's handle, for the caller to wake, so that a
    /// blocked reader sees the end of the stream. On a closed channel, whose stream has ended
    /// already, nothing changes and nobody is woken.
    pub fn channel_eof(&mut self) -> (wakes: Wakes)
        requires
            old(self).wf(),
        ensures
            final(self).wf(),
            final(self)@ == old(self)@.deliver(Event::Eof),
            wakes == old(self)@.released(Event::Eof),
    {
        if self.closed {
            return Wakes { on_open: None, on_data: None, on_exit: None };
        }
        self.eof = true;
        let on_data = self.on_data.take();
        Wakes { on_open: None, on_data, on_exit: None }
    }

    /// The remote process exited with `code`. Returns the handle of the exit-status waiter, for
    /// the caller to wake. On a closed channel the status stays as it is, known or lost for
    /// good, and nobody is woken.
    pub fn exit_status(&mut self, code: u32) -> (wakes: Wakes)
        requires
            old(self).wf(),
        ensures
            final(self).wf(),
            final(self)@ == old(self)@.deliver(Event::ExitStatus(code)),
            wakes == old(self)@.released(Event::ExitStatus(code)),
    {
        if self.closed {
            return Wakes { on_open: None, on_data: None, on_exit: None };
        }
        self.exit_status = Some(code);
        let on_exit = self.on_exit.take();
        Wakes { on_open: None, on_data: None, on_exit }
    }

    /// The remote side tore the channel down: the stream has ended and the channel is closed.
    /// Returns the handles of the reader and of the exit-status waiter, for the caller to wake.
    /// From now on the buffer, the exit status and the open result are changed by no event; a
    /// second close changes nothing and releases nobody.
    pub fn channel_close(&mut self) -> (wakes: Wakes)
        requires
            old(self).wf(),
        ensures
            final(self).wf(),
            final(self)@ == old(self)@.deliver(Event::Close),
            wakes == old(self)@.released(Event::Close),
    {
        if self.closed {
            return Wakes { on_open: None, on_data: None, on_exit: None };
        }
        self.eof = true;
        self.closed = true;
        let on_data = self.on_data.take();
        let on_exit = self.on_exit.take();
        Wakes { on_open: None, on_data, on_exit }
    }

    /// Copies buffered bytes, oldest first, to the front of `buf`: as many as are buffered, but
    /// no more than `buf` holds. A read that leaves bytes behind only moves the read cursor past
    /// what it copied; the read that takes the last byte empties the buffer and puts the cursor
    /// back to its start. When nothing is buffered
    /// the read reports the end of the stream if that was signalled; otherwise it would block,
    /// and `waker` is parked in the data slot in place of whoever waited there before.
    pub fn read(&mut self, buf: &mut [u8], waker: Task) -> (outcome: ReadOutcome)
        requires
            old(self).wf(),
        ensures
            final(self).wf(),
            outcome == old(self)@.read_outcome(old(buf)@.len()),
            final(self)@ == old(self)@.after_read(old(buf)@.len(), waker),
            final(buf)@ == old(self)@.read_bytes(old(buf)@.len()) + old(buf)@.skip(
                old(self)@.read_len(old(buf)@.len()) as int,
            ),
    {
        let available: usize = self.inbound.len() - self.read_cursor;
        let n: usize = if buf.len() <= available {
            buf.len()
        } else {
            available
        };
        let ghost pending = self@.pending();
        let ghost initial = buf@;
        let mut i: usize = 0;
        while i < n
            invariant
                i <= n,
                n <= available,
                available == self.inbound.len() - self.read_cursor,
                n <= buf@.len(),
                buf@.len() == initial.len(),
                *self == *old(self),
                pending == self.inbound@.skip(self.read_cursor as int),
                forall|j: int| 0 <= j < i ==> buf@[j] == pending[j],
                forall|j: int| i <= j < buf@.len() ==> buf@[j] == initial[j],
            decreases n - i,
        {
            buf[i] = self.inbound[self.read_cursor + i];
            i = i + 1;
        }
        assert(buf@ =~= pending.take(n as int) + initial.skip(n as int));
        self.read_cursor = self.read_cursor + n;
        if self.read_cursor == self.inbound.len() {
            self.read_cursor = 0;
            self.inbound.clear();
        }
        if available == 0 && !self.eof {
            self.on_data = Some(waker);
            ReadOutcome::WouldBlock
        } else {
            self.on_data = None;
            if available == 0 {
                ReadOutcome::EndOfStream
            } else {
                ReadOutcome::Read(n)
            }
        }
    }

    /// Reports the exit status if it is known, and that none will come if the channel closed
    /// without one. Otherwise `waker` is parked in the exit slot in place of whoever waited
    /// there before.
    pub fn poll_exit_status(&mut self, waker: Task) -> (outcome: ExitPoll)
        requires
            old(self).wf(),
        ensures
            final(self).wf(),
            outcome == old(self)@.exit_outcome(),
            final(self)@ == old(self)@.after_exit_poll(waker),
    {
        if let Some(code) = self.exit_status {
            self.on_exit = None;
            ExitPoll::Ready(code)
        } else if self.closed {
            self.on_exit = None;
            ExitPoll::Lost
        } else {
            self.on_exit = Some(waker);
            ExitPoll::Pending
        }
    }

    /// Takes the answer to the open request out of the record, so that it is seen once. When
    /// there is none yet, `waker` is parked in the open slot in place of whoever waited there
    /// before.
    pub fn poll_open_result(&mut self, waker: Task) -> (answer: Option<Result<(), OpenFailure>>)
        requires
            old(self).wf(),
        ensures
            final(self).wf(),
            answer == old(self)@.open_result,
            final(self)@ == old(self)@.after_open_poll(waker),
    {
        let answer = self.open_result.take();
        if answer.is_none() {
            self.on_open = Some(waker);
        } else {
            self.on_open = None;
        }
        answer
    }

    /// The consumer of one readiness kind goes away: its slot is emptied, so that the handle it
    /// may have left there is never used.
    pub fn disarm(&mut self, kind: Readiness)
        requires
            old(self).wf(),
        ensures
            final(self).wf(),
            final(self)@ == old(self)@.disarm(kind),
    {
        match kind {
            Readiness::Open => {
                self.on_open = None;
            },
            Readiness::Data => {
                self.on_data = None;
            },
            Readiness::Exit => {
                self.on_exit = None;
            },
        }
    }
}

impl Default for ChannelState {
    /// The state of a channel whose open request was just issued.
    fn default() -> (state: ChannelState)
        ensures
            state.wf(),
            state@ == ChannelModel::fresh(),
    {
        ChannelState::new()
    }
}

} // verus!
