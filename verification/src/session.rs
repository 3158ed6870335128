//! The session-wide registry: the channels by identifier, and the last fatal connection error.

use crate::channel::{ChannelOpenFuture, OpenFutureModel, OpenPhase};
use crate::channel_state::ChannelState;
use crate::model::{ChannelModel, Event, Readiness, Request};
use crate::outcome::{ExitPoll, OpenFailure, ReadOutcome};
use futures::task::Task;
use std::collections::HashMap;
use vstd::prelude::*;

verus! {

broadcast use vstd::std_specs::hash::group_hash_axioms;

/// Snapshot of a session.
pub struct SessionModel<E> {
    /// The registered channels by identifier.
    pub channels: Map<u32, ChannelModel>,
    /// The last fatal connection error that nobody has read yet.
    pub fatal_error: Option<E>,
}

impl<E> SessionModel<E> {
    /// A session with no channel and no error.
    pub open spec fn fresh() -> SessionModel<E> {
        SessionModel { channels: Map::empty(), fatal_error: None }
    }

    /// Whether a channel is registered under `channel`.
    pub open spec fn has_channel(self, channel: u32) -> bool {
        self.channels.contains_key(channel)
    }

    /// The session with the state of `channel` replaced.
    pub open spec fn with_channel(self, channel: u32, state: ChannelModel) -> SessionModel<E> {
        SessionModel { channels: self.channels.insert(channel, state), ..self }
    }

    /// The session after the engine reported `event` for `channel`: only that channel changes.
    pub open spec fn deliver(self, channel: u32, event: Event) -> SessionModel<E> {
        self.with_channel(channel, self.channels[channel].deliver(event))
    }

    /// The session after a consumer operation on `channel`: only that channel changes.
    pub open spec fn serve(self, channel: u32, request: Request) -> SessionModel<E> {
        self.with_channel(channel, self.channels[channel].serve(request))
    }

    /// Every registered channel satisfies [`ChannelModel::inv`].
    pub open spec fn inv(self) -> bool {
        forall|channel: u32| #[trigger]
            self.channels.contains_key(channel) ==> self.channels[channel].inv()
    }
}

/// State shared by the engine's event handlers and every consumer of one connection.
pub struct SessionState<E> {
    channels: HashMap<u32, ChannelState>,
    fatal_error: Option<E>,
}

impl<E> View for SessionState<E> {
    type V = SessionModel<E>;

    closed spec fn view(&self) -> SessionModel<E> {
        SessionModel {
            channels: Map::new(
                |channel: u32| self.channels@.contains_key(channel),
                |channel: u32| self.channels@[channel]@,
            ),
            fatal_error: self.fatal_error,
        }
    }
}

impl<E> SessionState<E> {
    /// Every registered channel is well formed.
    pub closed spec fn wf(&self) -> bool {
        forall|channel: u32| #[trigger]
            self.channels@.contains_key(channel) ==> self.channels@[channel].wf()
    }

    /// What a well-formed session guarantees of its snapshot.
    pub proof fn lemma_wf_inv(&self)
        requires
            self.wf(),
        ensures
            self@.inv(),
    {
        assert forall|channel: u32| #[trigger]
            self@.channels.contains_key(channel) implies self@.channels[channel].inv() by {
            self.channels@[channel].lemma_wf_inv();
        }
    }

    /// A session with no channel and no error.
    pub fn new() -> (state: SessionState<E>)
        ensures
            state.wf(),
            state@ == SessionModel::<E>::fresh(),
    {
        let state = SessionState { channels: HashMap::new(), fatal_error: None };
        assert(state@.channels =~= Map::<u32, ChannelModel>::empty());
        state
    }

    /// Whether a channel is registered under `channel`.
    pub fn has_channel(&self, channel: u32) -> (known: bool)
        ensures
            known == self@.has_channel(channel),
    {
        self.channels.contains_key(&channel)
    }

    /// `self` is `before` with `channel` taken out of the registry.
    spec fn lacks(&self, before: SessionModel<E>, channel: u32) -> bool {
        &&& self.wf()
        &&& self@.channels == before.channels.remove(channel)
        &&& self@.fatal_error == before.fatal_error
    }

    /// Takes the state of a registered channel out of the registry, to be changed and put back.
    fn take_out(&mut self, channel: u32) -> (state: ChannelState)
        requires
            old(self).wf(),
            old(self)@.has_channel(channel),
        ensures
            state.wf(),
            state@ == old(self)@.channels[channel],
            final(self).lacks(old(self)@, channel),
    {
        let state = self.channels.remove(&channel).unwrap();
        assert(self@.channels =~= old(self)@.channels.remove(channel));
        state
    }

    /// Puts a changed channel state back under its identifier.
    fn put_back(&mut self, channel: u32, state: ChannelState, Ghost(before): Ghost<SessionModel<E>>)
        requires
            state.wf(),
            old(self).lacks(before, channel),
        ensures
            final(self).wf(),
            final(self)@ == before.with_channel(channel, state@),
    {
        self.channels.insert(channel, state);
        // Every other channel is as it was when `channel` was taken out.
        assert forall|other: u32|
            #![trigger self@.channels.contains_key(other)]
            #![trigger before.channels.contains_key(other)]
            other != channel implies (self@.channels.contains_key(other)
            <==> before.channels.contains_key(other)) && (self@.channels.contains_key(other)
            ==> self@.channels[other] == before.channels[other]) by {
            if old(self)@.channels.contains_key(other) {
                assert(old(self)@.channels[other] == before.channels.remove(channel)[other]);
            }
        }
        assert(self@.channels =~= before.channels.insert(channel, state@));
    }

    /// The engine confirmed the open request of `channel`: the answer is stored and the opener
    /// woken. A later answer, or one for a closed channel, changes nothing and wakes nobody.
    /// Returns how many consumers were woken, and returns only where the executor's wake does.
    pub fn channel_open_confirmation(&mut self, channel: u32) -> (woken: usize)
        requires
            old(self).wf(),
            old(self)@.has_channel(channel),
        ensures
            final(self).wf(),
            final(self)@ == old(self)@.deliver(channel, Event::OpenConfirmed),
            woken == old(self)@.channels[channel].released(Event::OpenConfirmed).count(),
    {
        let mut state = self.take_out(channel);
        let wakes = state.channel_open_confirmation();
        self.put_back(channel, state, Ghost(old(self)@));
        wakes.notify()
    }

    /// The engine reported that the open request of `channel` was refused for `reason`: the
    /// answer is stored and the opener woken. A later answer, or one for a closed channel,
    /// changes nothing and wakes nobody. Returns how many consumers were woken, and returns only
    /// where the executor's wake does.
    pub fn channel_open_failure(&mut self, channel: u32, reason: OpenFailure) -> (woken: usize)
        requires
            old(self).wf(),
            old(self)@.has_channel(channel),
        ensures
            final(self).wf(),
            final(self)@ == old(self)@.deliver(channel, Event::OpenFailed(reason)),
            woken == old(self)@.channels[channel].released(Event::OpenFailed(reason)).count(),
    {
        let mut state = self.take_out(channel);
        let wakes = state.channel_open_failure(reason);
        self.put_back(channel, state, Ghost(old(self)@));
        wakes.notify()
    }

    /// The engine delivered bytes for `channel`. Those of the primary stream (`ext` unset) are
    /// appended to the channel's buffer and its reader is woken; those of an extended stream
    /// are dropped, and so are bytes for a closed channel. Returns how many consumers were
    /// woken, and returns only where the executor's wake does.
    pub fn data(&mut self, channel: u32, ext: Option<u32>, data: &[u8]) -> (woken: usize)
        requires
            old(self).wf(),
            old(self)@.has_channel(channel),
        ensures
            final(self).wf(),
            final(self)@ == old(self)@.deliver(channel, (Event::Data { ext, bytes: data@ })),
            woken == old(self)@.channels[channel].released(
                (Event::Data { ext, bytes: data@ }),
            ).count(),
    {
        let mut state = self.take_out(channel);
        let wakes = state.data(ext, data);
        self.put_back(channel, state, Ghost(old(self)@));
        wakes.notify()
    }

    /// The engine reported that `channel` was torn down: the stream has ended, the channel is
    /// closed, and both the reader and the exit-status waiter are woken. From now on no event
    /// changes the channel; a second close changes nothing and wakes nobody. Returns how many
    /// consumers were woken, and returns only where the executor's wake does.
    pub fn channel_close(&mut self, channel: u32) -> (woken: usize)
        requires
            old(self).wf(),
            old(self)@.has_channel(channel),
        ensures
            final(self).wf(),
            final(self)@ == old(self)@.deliver(channel, Event::Close),
            woken == old(self)@.channels[channel].released(Event::Close).count(),
    {
        let mut state = self.take_out(channel);
        let wakes = state.channel_close();
        self.put_back(channel, state, Ghost(old(self)@));
        wakes.notify()
    }

    /// The engine reported the end of the stream of `channel`: the reader is woken so that it
    /// sees the end instead of waiting. On a closed channel nothing changes. Returns how many
    /// consumers were woken, and returns only where the executor's wake does.
    pub fn channel_eof(&mut self, channel: u32) -> (woken: usize)
        requires
            old(self).wf(),
            old(self)@.has_channel(channel),
        ensures
            final(self).wf(),
            final(self)@ == old(self)@.deliver(channel, Event::Eof),
            woken == old(self)@.channels[channel].released(Event::Eof).count(),
    {
        let mut state = self.take_out(channel);
        let wakes = state.channel_eof();
        self.put_back(channel, state, Ghost(old(self)@));
        wakes.notify()
    }

    /// The engine reported that the process of `channel` exited with `code`: the code is stored
    /// and the exit-status waiter woken. On a closed channel the status stays as it is, known or
    /// lost for good. Returns how many consumers were woken, and returns only where the
    /// executor's wake does.
    pub fn exit_status(&mut self, channel: u32, code: u32) -> (woken: usize)
        requires
            old(self).wf(),
            old(self)@.has_channel(channel),
        ensures
            final(self).wf(),
            final(self)@ == old(self)@.deliver(channel, Event::ExitStatus(code)),
            woken == old(self)@.channels[channel].released(Event::ExitStatus(code)).count(),
    {
        let mut state = self.take_out(channel);
        let wakes = state.exit_status(code);
        self.put_back(channel, state, Ghost(old(self)@));
        wakes.notify()
    }

    /// Reads from the buffer of `channel` into `buf`; see [`ChannelState::read`].
    pub fn read(&mut self, channel: u32, buf: &mut [u8], waker: Task) -> (outcome: ReadOutcome)
        requires
            old(self).wf(),
            old(self)@.has_channel(channel),
        ensures
            final(self).wf(),
            outcome == old(self)@.channels[channel].read_outcome(old(buf)@.len()),
            final(self)@ == old(self)@.serve(
                channel,
                (Request::Read { requested: old(buf)@.len(), waker }),
            ),
            final(buf)@ == old(self)@.channels[channel].read_bytes(old(buf)@.len()) + old(
                buf,
            )@.skip(old(self)@.channels[channel].read_len(old(buf)@.len()) as int),
    {
        let mut state = self.take_out(channel);
        let outcome = state.read(buf, waker);
        self.put_back(channel, state, Ghost(old(self)@));
        outcome
    }

    /// Asks for the exit status of `channel`; see [`ChannelState::poll_exit_status`].
    pub fn poll_exit_status(&mut self, channel: u32, waker: Task) -> (outcome: ExitPoll)
        requires
            old(self).wf(),
            old(self)@.has_channel(channel),
        ensures
            final(self).wf(),
            outcome == old(self)@.channels[channel].exit_outcome(),
            final(self)@ == old(self)@.serve(channel, (Request::PollExit { waker })),
    {
        let mut state = self.take_out(channel);
        let outcome = state.poll_exit_status(waker);
        self.put_back(channel, state, Ghost(old(self)@));
        outcome
    }

    /// Takes the answer to the open request of `channel`; see
    /// [`ChannelState::poll_open_result`].
    pub fn poll_open_result(&mut self, channel: u32, waker: Task) -> (answer: Option<
        Result<(), OpenFailure>,
    >)
        requires
            old(self).wf(),
            old(self)@.has_channel(channel),
        ensures
            final(self).wf(),
            answer == old(self)@.channels[channel].open_result,
            final(self)@ == old(self)@.serve(channel, (Request::PollOpen { waker })),
    {
        let mut state = self.take_out(channel);
        let answer = state.poll_open_result(waker);
        self.put_back(channel, state, Ghost(old(self)@));
        answer
    }

    /// The consumer of one readiness kind of `channel` goes away: its slot is emptied. A channel
    /// that is not registered has no slot, and nothing changes.
    pub fn disarm(&mut self, channel: u32, kind: Readiness)
        requires
            old(self).wf(),
        ensures
            final(self).wf(),
            final(self)@ == if old(self)@.has_channel(channel) {
                old(self)@.with_channel(channel, old(self)@.channels[channel].disarm(kind))
            } else {
                old(self)@
            },
    {
        if self.channels.contains_key(&channel) {
            let mut state = self.take_out(channel);
            state.disarm(kind);
            self.put_back(channel, state, Ghost(old(self)@));
        }
    }

    /// Registers `channel` with the state of a channel whose open request was just issued. A
    /// state already stored under that identifier is replaced.
    pub fn register(&mut self, channel: u32)
        requires
            old(self).wf(),
        ensures
            final(self).wf(),
            final(self)@ == old(self)@.with_channel(channel, ChannelModel::fresh()),
    {
        let state = ChannelState::new();
        self.channels.insert(channel, state);
        assert(self@.channels =~= old(self)@.channels.insert(channel, ChannelModel::fresh()));
    }

    /// Starts opening `channel`, the identifier that the engine gave to a new open request, to
    /// run `cmd` on it: registers the channel and returns the future that resolves once the
    /// remote side has answered.
    pub fn open_exec<'a>(&mut self, channel: u32, cmd: &'a str) -> (future: ChannelOpenFuture<'a>)
        requires
            old(self).wf(),
        ensures
            final(self).wf(),
            final(self)@ == old(self)@.with_channel(channel, ChannelModel::fresh()),
            future@ == (OpenFutureModel { channel, command: cmd@, phase: OpenPhase::Init }),
    {
        self.register(channel);
        ChannelOpenFuture::new(cmd, channel)
    }

    /// Stores a fatal connection error in place of an earlier one. No channel changes and
    /// nobody is woken: a parked consumer stays parked.
    pub fn record_error(&mut self, error: E)
        requires
            old(self).wf(),
        ensures
            final(self).wf(),
            final(self)@ == (SessionModel { fatal_error: Some(error), ..old(self)@ }),
    {
        self.fatal_error = Some(error);
    }

    /// Hands out the last fatal connection error, if there is one, and clears it.
    pub fn last_error(&mut self) -> (error: Option<E>)
        requires
            old(self).wf(),
        ensures
            final(self).wf(),
            error == old(self)@.fatal_error,
            final(self)@ == (SessionModel { fatal_error: None, ..old(self)@ }),
    {
        let error = self.fatal_error.take();
        error
    }
}

impl<E> Default for SessionState<E> {
    /// A session with no channel and no error.
    fn default() -> (state: SessionState<E>)
        ensures
            state.wf(),
            state@ == SessionModel::<E>::fresh(),
    {
        SessionState::new()
    }
}

/// Channels do not affect one another. An engine event or a consumer operation on one channel
/// leaves every other channel, the set of registered channels and the fatal error as they were.
pub proof fn lemma_channels_isolated<E>(
    session: SessionModel<E>,
    channel: u32,
    state: ChannelModel,
    other: u32,
)
    requires
        session.has_channel(channel),
        other != channel,
    ensures
        session.with_channel(channel, state).has_channel(other) == session.has_channel(other),
        session.with_channel(channel, state).channels[other] == session.channels[other],
        session.with_channel(channel, state).channels.dom() == session.channels.dom(),
        session.with_channel(channel, state).fatal_error == session.fatal_error,
{
}

} // verus!
