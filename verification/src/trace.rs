//! Sequences of steps on one channel, and what holds of every such sequence.

use crate::model::{ChannelModel, Event, Readiness, Request, Step};
use crate::outcome::{ExitPoll, ReadOutcome};
use crate::wake::Wakes;
use futures::task::Task;
use vstd::prelude::*;

verus! {

impl Wakes {
    /// The handle released from the slot of one readiness kind.
    pub open spec fn slot(self, kind: Readiness) -> Option<Task> {
        match kind {
            Readiness::Open => self.on_open,
            Readiness::Data => self.on_data,
            Readiness::Exit => self.on_exit,
        }
    }
}

impl Request {
    /// The readiness kind that the operation may park its consumer on.
    pub open spec fn kind(self) -> Readiness {
        match self {
            Request::Read { .. } => Readiness::Data,
            Request::PollExit { .. } => Readiness::Exit,
            Request::PollOpen { .. } => Readiness::Open,
        }
    }

    /// The handle of the consumer behind the operation.
    pub open spec fn waker(self) -> Task {
        match self {
            Request::Read { waker, .. } => waker,
            Request::PollExit { waker } => waker,
            Request::PollOpen { waker } => waker,
        }
    }
}

impl ChannelModel {
    /// The channel after a sequence of steps, first to last.
    pub open spec fn run(self, steps: Seq<Step>) -> ChannelModel
        decreases steps.len(),
    {
        if steps.len() == 0 {
            self
        } else {
            self.run(steps.drop_last()).step(steps.last())
        }
    }

    /// The channel after a sequence of engine events, first to last.
    pub open spec fn deliver_all(self, events: Seq<Event>) -> ChannelModel
        decreases events.len(),
    {
        if events.len() == 0 {
            self
        } else {
            self.deliver_all(events.drop_last()).deliver(events.last())
        }
    }

    /// The bytes that one step hands to a reader.
    pub open spec fn handed_out(self, step: Step) -> Seq<u8> {
        match step {
            Step::Consumer(Request::Read { requested, .. }) => self.read_bytes(requested),
            _ => Seq::empty(),
        }
    }

    /// All bytes that a sequence of steps hands to readers, in the order of the reads.
    pub open spec fn consumed(self, steps: Seq<Step>) -> Seq<u8>
        decreases steps.len(),
    {
        if steps.len() == 0 {
            Seq::empty()
        } else {
            self.consumed(steps.drop_last()) + self.run(steps.drop_last()).handed_out(
                steps.last(),
            )
        }
    }
}

impl ChannelModel {
    /// The bytes that one step brings from the wire into the buffer: those of a data event that
    /// the channel accepts.
    pub open spec fn arriving(self, step: Step) -> Seq<u8> {
        match step {
            Step::Engine(Event::Data { ext, bytes }) => if self.accepts(
                (Event::Data { ext, bytes }),
            ) {
                bytes
            } else {
                Seq::empty()
            },
            _ => Seq::empty(),
        }
    }

    /// All bytes that a sequence of steps brings into the buffer, in wire order.
    pub open spec fn accepted(self, steps: Seq<Step>) -> Seq<u8>
        decreases steps.len(),
    {
        if steps.len() == 0 {
            Seq::empty()
        } else {
            self.accepted(steps.drop_last()) + self.run(steps.drop_last()).arriving(
                steps.last(),
            )
        }
    }
}

/// The bytes of all primary-stream data events among the steps, in wire order.
pub open spec fn delivered(steps: Seq<Step>) -> Seq<u8>
    decreases steps.len(),
{
    if steps.len() == 0 {
        Seq::empty()
    } else {
        delivered(steps.drop_last()) + match steps.last() {
            Step::Engine(Event::Data { ext, bytes }) => if ext is None {
                bytes
            } else {
                Seq::empty()
            },
            _ => Seq::empty(),
        }
    }
}

/// Whether a close report is among the steps.
pub open spec fn closes(steps: Seq<Step>) -> bool {
    exists|i: int| 0 <= i < steps.len() && steps[i] == Step::Engine(Event::Close)
}

/// Until a channel is closed it accepts all primary-stream data: over steps that hold no close
/// report, on a channel that is not closed, what is brought into the buffer is all that was
/// delivered.
pub proof fn lemma_open_channel_accepts_all(start: ChannelModel, steps: Seq<Step>)
    requires
        !start.closed,
        !closes(steps),
    ensures
        !start.run(steps).closed,
        start.accepted(steps) == delivered(steps),
    decreases steps.len(),
{
    if steps.len() > 0 {
        let earlier = steps.drop_last();
        assert forall|i: int| 0 <= i < earlier.len() implies earlier[i] != Step::Engine(
            Event::Close,
        ) by {
            assert(earlier[i] == steps[i]);
        }
        lemma_open_channel_accepts_all(start, earlier);
        assert(steps[steps.len() - 1] != Step::Engine(Event::Close));
    }
}

/// Every step of either side keeps the channel invariant.
pub proof fn lemma_step_keeps_inv(start: ChannelModel, step: Step)
    requires
        start.inv(),
    ensures
        start.step(step).inv(),
{
}

/// Every sequence of steps keeps the channel invariant: a closed channel has reached end of
/// stream, and no consumer stays parked on a condition that already holds.
pub proof fn lemma_run_keeps_inv(start: ChannelModel, steps: Seq<Step>)
    requires
        start.inv(),
    ensures
        start.run(steps).inv(),
    decreases steps.len(),
{
    if steps.len() > 0 {
        lemma_run_keeps_inv(start, steps.drop_last());
        lemma_step_keeps_inv(start.run(steps.drop_last()), steps.last());
    }
}

/// Data reaches readers in wire order. Whatever engine events and consumer operations are
/// interleaved, the bytes read so far followed by the bytes still unread are exactly the bytes
/// unread at the start followed by all primary-stream data accepted since, in the order of
/// delivery: nothing is lost, repeated or reordered.
pub proof fn lemma_wire_order(start: ChannelModel, steps: Seq<Step>)
    requires
        start.inv(),
    ensures
        start.consumed(steps) + start.run(steps).pending() == start.pending() + start.accepted(
            steps,
        ),
    decreases steps.len(),
{
    if steps.len() > 0 {
        let earlier = steps.drop_last();
        let before = start.run(earlier);
        lemma_wire_order(start, earlier);
        lemma_run_keeps_inv(start, earlier);
        // The last step moves bytes from the buffer to the reader, or from the wire to the
        // buffer; either way both sides grow by the same bytes at the same end.
        let after = before.step(steps.last());
        assert(before.handed_out(steps.last()) + after.pending() =~= before.pending()
            + before.arriving(steps.last()));
        assert(start.consumed(steps) + after.pending() =~= start.consumed(earlier) + (
        before.handed_out(steps.last()) + after.pending()));
        assert(start.consumed(earlier) + (before.pending() + before.arriving(steps.last())) =~= (
        start.consumed(earlier) + before.pending()) + before.arriving(steps.last()));
    }
}

/// What a sequence of engine events does to the slot of one readiness kind: the slot still
/// holds what it held at the start, or it is empty, and once empty it stays empty.
pub proof fn lemma_events_only_empty_slots(start: ChannelModel, events: Seq<Event>, kind: Readiness)
    ensures
        start.deliver_all(events).slot(kind) == start.slot(kind) || start.deliver_all(
            events,
        ).slot(kind) is None,
        forall|i: int|
            0 <= i <= events.len() && (#[trigger] start.deliver_all(events.take(i))).slot(kind)
                is None ==> start.deliver_all(events).slot(kind) is None,
    decreases events.len(),
{
    if events.len() == 0 {
        assert forall|i: int| 0 <= i <= events.len() implies events.take(i) =~= events by {}
    } else {
        let earlier = events.drop_last();
        lemma_events_only_empty_slots(start, earlier, kind);
        assert forall|i: int|
            0 <= i <= events.len() && (#[trigger] start.deliver_all(events.take(i))).slot(kind)
                is None implies start.deliver_all(events).slot(kind) is None by {
            if i == events.len() {
                assert(events.take(i) =~= events);
            } else {
                assert(events.take(i) =~= earlier.take(i));
            }
        }
    }
}

/// A replaced waiter is never woken, and nobody is woken twice. After a consumer operation on a
/// channel in any state, whoever was parked in that operation's slot before is gone from it: if
/// later engine events release a handle from that slot, it is the handle of the consumer behind
/// the operation, and no event before that one released anything from the slot.
pub proof fn lemma_replaced_waiter_never_woken(
    start: ChannelModel,
    request: Request,
    events: Seq<Event>,
    i: int,
)
    requires
        0 <= i < events.len(),
    ensures
        ({
            let armed = start.serve(request);
            let kind = request.kind();
            let fired = armed.deliver_all(events.take(i)).released(events[i]).slot(kind);
            fired is Some ==> {
                &&& fired == Some(request.waker())
                &&& forall|j: int|
                    0 <= j < i ==> (#[trigger] armed.deliver_all(events.take(j))).released(
                        events[j],
                    ).slot(kind) is None
            }
        }),
{
    let armed = start.serve(request);
    let kind = request.kind();
    let fired = armed.deliver_all(events.take(i)).released(events[i]).slot(kind);
    // What the slot holds when event `i` arrives is what the operation left in it.
    lemma_events_only_empty_slots(armed, events.take(i), kind);
    if fired is Some {
        assert forall|j: int| 0 <= j < i implies (#[trigger] armed.deliver_all(
            events.take(j),
        )).released(events[j]).slot(kind) is None by {
            let then = armed.deliver_all(events.take(j));
            if then.released(events[j]).slot(kind) is Some {
                // An event that releases a handle empties the slot, and the slot would still
                // be empty when event `i` arrives.
                assert(events.take(j + 1).drop_last() =~= events.take(j));
                assert(armed.deliver_all(events.take(j + 1)) == then.deliver(events[j]));
                assert(events.take(i).take(j + 1) =~= events.take(j + 1));
                assert(armed.deliver_all(events.take(i).take(j + 1)).slot(kind) is None);
            }
        }
    }
}

/// A consumer that went away is never woken. Once the slot of a readiness kind has been disarmed,
/// no later engine event releases a handle from it.
pub proof fn lemma_withdrawn_waiter_never_woken(
    start: ChannelModel,
    kind: Readiness,
    events: Seq<Event>,
    i: int,
)
    requires
        0 <= i < events.len(),
    ensures
        start.disarm(kind).deliver_all(events.take(i)).released(events[i]).slot(kind) is None,
{
    lemma_events_only_empty_slots(start.disarm(kind), events.take(i), kind);
}

/// Buffered data is drained before the end of the stream is reported. With `n > 0` bytes
/// buffered when the end of the stream is signalled, a read of up to `n` bytes gives exactly
/// those `n` bytes, and the read after it, of whatever size, reports the end of the stream.
pub proof fn lemma_drain_before_eof(
    start: ChannelModel,
    n: nat,
    first: Task,
    second: Task,
    size: nat,
)
    requires
        start.inv(),
        !start.closed,
        start.pending().len() == n,
        0 < n <= usize::MAX,
    ensures
        ({
            let ended = start.deliver(Event::Eof);
            let drained = ended.after_read(n, first);
            &&& ended.read_outcome(n) == ReadOutcome::Read(n as usize)
            &&& ended.read_bytes(n) == start.pending()
            &&& drained.pending().len() == 0
            &&& drained.inbound.len() == 0 && drained.read_cursor == 0
            &&& drained.read_outcome(size) == ReadOutcome::EndOfStream
            &&& drained.after_read(size, second).on_data is None
        }),
{
    let ended = start.deliver(Event::Eof);
    assert(ended.read_bytes(n) =~= start.pending());
}

/// Closing is idempotent. A second close report for a channel changes nothing and releases no
/// handle, whatever the state was before the first.
pub proof fn lemma_close_idempotent(start: ChannelModel)
    ensures
        start.deliver(Event::Close).deliver(Event::Close) == start.deliver(Event::Close),
        start.deliver(Event::Close).released(Event::Close) == Wakes::none(),
        start.deliver(Event::Close).released(Event::Close).count() == 0,
{
}

/// Closed is terminal. Whatever events the engine still reports for a closed channel, in any
/// number and order, the channel stays exactly as it was: the buffer, the read cursor, the exit
/// status and the open result do not change, the channel stays closed, and no handle is released
/// from any slot.
pub proof fn lemma_closed_is_terminal(start: ChannelModel, events: Seq<Event>)
    requires
        start.closed,
    ensures
        start.deliver_all(events) == start,
        forall|i: int|
            0 <= i < events.len() ==> (#[trigger] start.deliver_all(events.take(i))).released(
                events[i],
            ) == Wakes::none(),
    decreases events.len(),
{
    if events.len() > 0 {
        lemma_closed_is_terminal(start, events.drop_last());
    }
    assert forall|i: int| 0 <= i < events.len() implies (#[trigger] start.deliver_all(
        events.take(i),
    )).released(events[i]) == Wakes::none() by {
        lemma_closed_is_terminal(start, events.take(i));
    }
}

/// Once a channel is closed, an exit status that was lost stays lost and one that was known
/// stays the same: the poll for it gives the same answer after any further events.
pub proof fn lemma_exit_outcome_final_once_closed(start: ChannelModel, events: Seq<Event>)
    requires
        start.closed,
    ensures
        start.deliver_all(events).exit_outcome() == start.exit_outcome(),
        start.exit_outcome() != ExitPoll::Pending,
{
    lemma_closed_is_terminal(start, events);
}

/// The open request is answered once. After the first answer, no event changes the open result
/// that the opener finds or has consumed, and no event releases a handle from the open slot.
pub proof fn lemma_open_answered_once(start: ChannelModel, events: Seq<Event>)
    requires
        start.open_answered,
    ensures
        start.deliver_all(events).open_answered,
        start.deliver_all(events).open_result == start.open_result,
        forall|i: int|
            0 <= i < events.len() ==> (#[trigger] start.deliver_all(events.take(i))).released(
                events[i],
            ).on_open is None,
    decreases events.len(),
{
    if events.len() > 0 {
        lemma_open_answered_once(start, events.drop_last());
    }
    assert forall|i: int| 0 <= i < events.len() implies (#[trigger] start.deliver_all(
        events.take(i),
    )).released(events[i]).on_open is None by {
        lemma_open_answered_once(start, events.take(i));
    }
}

} // verus!
