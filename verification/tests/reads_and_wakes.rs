use async_ssh::{
    ChannelState, ExitPoll, OpenFailure, Readiness, ReadOutcome, SessionState, Wakes,
};
use futures::executor::{spawn, Notify};
use futures::future::lazy;
use futures::task::{current, Task};
use futures::Async;
use std::sync::{Arc, Mutex};

struct Counter {
    hits: Mutex<usize>,
}

impl Notify for Counter {
    fn notify(&self, _id: usize) {
        *self.hits.lock().unwrap() += 1;
    }
}

fn counter() -> Arc<Counter> {
    Arc::new(Counter { hits: Mutex::new(0) })
}

fn hits(counter: &Arc<Counter>) -> usize {
    *counter.hits.lock().unwrap()
}

fn waker(counter: &Arc<Counter>) -> Task {
    let mut spawned = spawn(lazy(|| Ok::<Task, ()>(current())));
    match spawned.poll_future_notify(counter, 0) {
        Ok(Async::Ready(task)) => task,
        _ => panic!("a lazy future resolves at its first poll"),
    }
}

fn session_with(channel: u32) -> SessionState<String> {
    let mut session: SessionState<String> = SessionState::new();
    session.register(channel);
    session
}

#[test]
fn data_events_are_read_in_wire_order() {
    let reader = counter();
    let mut session = session_with(1);
    session.data(1, None, b"ab");
    session.data(1, None, b"");
    session.data(1, None, b"cde");
    let mut buf = [0u8; 4];
    assert_eq!(session.read(1, &mut buf, waker(&reader)), ReadOutcome::Read(4));
    assert_eq!(&buf, b"abcd");
    session.data(1, None, b"fg");
    assert_eq!(session.read(1, &mut buf, waker(&reader)), ReadOutcome::Read(3));
    assert_eq!(&buf, b"efgd");
    assert_eq!(session.read(1, &mut buf, waker(&reader)), ReadOutcome::WouldBlock);
    assert_eq!(&buf, b"efgd");
}

#[test]
fn reads_of_any_size_give_back_every_byte_once_and_in_order() {
    let reader = counter();
    let mut session = session_with(1);
    let mut sent: Vec<u8> = Vec::new();
    let mut got: Vec<u8> = Vec::new();
    let mut next: u8 = 0;
    for round in 0..40usize {
        let mut chunk: Vec<u8> = Vec::new();
        for _ in 0..(round % 7) {
            chunk.push(next);
            next = next.wrapping_add(1);
        }
        session.data(1, None, &chunk);
        sent.extend_from_slice(&chunk);
        let mut buf = vec![0u8; round % 5];
        match session.read(1, &mut buf, waker(&reader)) {
            ReadOutcome::Read(n) => got.extend_from_slice(&buf[..n]),
            ReadOutcome::WouldBlock => {}
            ReadOutcome::EndOfStream => panic!("the stream has not ended"),
        }
    }
    session.channel_eof(1);
    loop {
        let mut buf = [0u8; 3];
        match session.read(1, &mut buf, waker(&reader)) {
            ReadOutcome::Read(n) => got.extend_from_slice(&buf[..n]),
            ReadOutcome::EndOfStream => break,
            ReadOutcome::WouldBlock => panic!("the stream has ended"),
        }
    }
    assert_eq!(got, sent);
}

#[test]
fn read_copies_no_more_than_the_buffer_holds_and_leaves_the_rest_untouched() {
    let reader = counter();
    let mut session = session_with(1);
    session.data(1, None, b"xy");
    let mut buf = [9u8; 5];
    assert_eq!(session.read(1, &mut buf, waker(&reader)), ReadOutcome::Read(2));
    assert_eq!(buf, [b'x', b'y', 9, 9, 9]);
}

#[test]
fn empty_buffer_reads_nothing_while_data_waits() {
    let reader = counter();
    let mut session = session_with(1);
    session.data(1, None, b"xy");
    let mut none = [0u8; 0];
    assert_eq!(session.read(1, &mut none, waker(&reader)), ReadOutcome::Read(0));
    // The reader was not parked, so the next data wakes nobody.
    assert_eq!(session.data(1, None, b"z"), 0);
    let mut buf = [0u8; 8];
    assert_eq!(session.read(1, &mut buf, waker(&reader)), ReadOutcome::Read(3));
    assert_eq!(&buf[..3], b"xyz");
}

#[test]
fn empty_buffer_on_an_empty_channel_blocks_or_ends_like_any_read() {
    let reader = counter();
    let mut session = session_with(1);
    let mut none = [0u8; 0];
    assert_eq!(session.read(1, &mut none, waker(&reader)), ReadOutcome::WouldBlock);
    assert_eq!(session.channel_eof(1), 1);
    assert_eq!(session.read(1, &mut none, waker(&reader)), ReadOutcome::EndOfStream);
}

#[test]
fn buffered_bytes_are_drained_before_end_of_stream() {
    let reader = counter();
    let mut session = session_with(1);
    session.data(1, None, b"hello");
    session.channel_eof(1);
    let mut buf = [0u8; 5];
    assert_eq!(session.read(1, &mut buf, waker(&reader)), ReadOutcome::Read(5));
    assert_eq!(&buf, b"hello");
    assert_eq!(session.read(1, &mut buf, waker(&reader)), ReadOutcome::EndOfStream);
    assert_eq!(session.read(1, &mut buf, waker(&reader)), ReadOutcome::EndOfStream);
}

#[test]
fn closing_does_not_discard_delivered_data() {
    let reader = counter();
    let mut session = session_with(1);
    session.data(1, None, b"abc");
    session.channel_close(1);
    let mut buf = [0u8; 2];
    assert_eq!(session.read(1, &mut buf, waker(&reader)), ReadOutcome::Read(2));
    assert_eq!(&buf, b"ab");
    assert_eq!(session.read(1, &mut buf, waker(&reader)), ReadOutcome::Read(1));
    assert_eq!(buf[0], b'c');
    assert_eq!(session.read(1, &mut buf, waker(&reader)), ReadOutcome::EndOfStream);
}

#[test]
fn extended_stream_data_is_dropped_and_wakes_nobody() {
    let reader = counter();
    let mut session = session_with(1);
    let mut buf = [0u8; 4];
    assert_eq!(session.read(1, &mut buf, waker(&reader)), ReadOutcome::WouldBlock);
    assert_eq!(session.data(1, Some(1), b"oops"), 0);
    assert_eq!(hits(&reader), 0);
    assert_eq!(session.read(1, &mut buf, waker(&reader)), ReadOutcome::WouldBlock);
    assert_eq!(session.data(1, None, b"ok"), 1);
    assert_eq!(hits(&reader), 1);
    assert_eq!(session.read(1, &mut buf, waker(&reader)), ReadOutcome::Read(2));
    assert_eq!(&buf[..2], b"ok");
}

#[test]
fn blocked_reader_is_woken_by_data_once() {
    let reader = counter();
    let mut session = session_with(1);
    let mut buf = [0u8; 4];
    assert_eq!(session.read(1, &mut buf, waker(&reader)), ReadOutcome::WouldBlock);
    assert_eq!(session.data(1, None, b"a"), 1);
    assert_eq!(session.data(1, None, b"b"), 0);
    assert_eq!(session.channel_eof(1), 0);
    assert_eq!(hits(&reader), 1);
}

#[test]
fn blocked_reader_is_woken_by_end_of_stream() {
    let reader = counter();
    let mut session = session_with(1);
    let mut buf = [0u8; 4];
    assert_eq!(session.read(1, &mut buf, waker(&reader)), ReadOutcome::WouldBlock);
    assert_eq!(session.channel_eof(1), 1);
    assert_eq!(hits(&reader), 1);
    assert_eq!(session.read(1, &mut buf, waker(&reader)), ReadOutcome::EndOfStream);
}

#[test]
fn second_waiter_replaces_the_first_which_is_never_woken() {
    let first = counter();
    let second = counter();
    let mut session = session_with(1);
    let mut buf = [0u8; 4];
    assert_eq!(session.read(1, &mut buf, waker(&first)), ReadOutcome::WouldBlock);
    assert_eq!(session.read(1, &mut buf, waker(&second)), ReadOutcome::WouldBlock);
    assert_eq!(session.data(1, None, b"x"), 1);
    assert_eq!(session.channel_eof(1), 0);
    assert_eq!(session.channel_close(1), 0);
    assert_eq!(hits(&first), 0);
    assert_eq!(hits(&second), 1);
}

#[test]
fn second_exit_waiter_replaces_the_first() {
    let first = counter();
    let second = counter();
    let mut session = session_with(1);
    assert_eq!(session.poll_exit_status(1, waker(&first)), ExitPoll::Pending);
    assert_eq!(session.poll_exit_status(1, waker(&second)), ExitPoll::Pending);
    assert_eq!(session.exit_status(1, 3), 1);
    assert_eq!(session.channel_close(1), 0);
    assert_eq!(hits(&first), 0);
    assert_eq!(hits(&second), 1);
}

#[test]
fn second_opener_replaces_the_first() {
    let first = counter();
    let second = counter();
    let mut session = session_with(1);
    assert_eq!(session.poll_open_result(1, waker(&first)), None);
    assert_eq!(session.poll_open_result(1, waker(&second)), None);
    assert_eq!(session.channel_open_confirmation(1), 1);
    assert_eq!(hits(&first), 0);
    assert_eq!(hits(&second), 1);
    assert_eq!(session.poll_open_result(1, waker(&second)), Some(Ok(())));
    assert_eq!(session.poll_open_result(1, waker(&second)), None);
}

#[test]
fn close_wakes_reader_and_exit_waiter_and_a_second_close_does_nothing() {
    let reader = counter();
    let waiter = counter();
    let mut session = session_with(1);
    let mut buf = [0u8; 4];
    assert_eq!(session.read(1, &mut buf, waker(&reader)), ReadOutcome::WouldBlock);
    assert_eq!(session.poll_exit_status(1, waker(&waiter)), ExitPoll::Pending);
    assert_eq!(session.channel_close(1), 2);
    assert_eq!(session.channel_close(1), 0);
    assert_eq!(hits(&reader), 1);
    assert_eq!(hits(&waiter), 1);
    assert_eq!(session.read(1, &mut buf, waker(&reader)), ReadOutcome::EndOfStream);
    assert_eq!(session.poll_exit_status(1, waker(&waiter)), ExitPoll::Lost);
    assert_eq!(session.channel_close(1), 0);
    assert_eq!(hits(&reader), 1);
    assert_eq!(hits(&waiter), 1);
}

#[test]
fn exit_status_is_pending_then_ready_and_stays_ready_after_close() {
    let waiter = counter();
    let mut session = session_with(1);
    assert_eq!(session.poll_exit_status(1, waker(&waiter)), ExitPoll::Pending);
    assert_eq!(session.exit_status(1, 127), 1);
    assert_eq!(hits(&waiter), 1);
    assert_eq!(session.poll_exit_status(1, waker(&waiter)), ExitPoll::Ready(127));
    session.channel_close(1);
    assert_eq!(session.poll_exit_status(1, waker(&waiter)), ExitPoll::Ready(127));
    assert_eq!(hits(&waiter), 1);
}

#[test]
fn exit_status_is_lost_when_the_channel_closes_without_one() {
    let waiter = counter();
    let mut session = session_with(1);
    assert_eq!(session.poll_exit_status(1, waker(&waiter)), ExitPoll::Pending);
    assert_eq!(session.channel_close(1), 1);
    assert_eq!(hits(&waiter), 1);
    assert_eq!(session.poll_exit_status(1, waker(&waiter)), ExitPoll::Lost);
}

#[test]
fn open_result_is_consumed_by_the_poll_that_sees_it() {
    let opener = counter();
    let mut session = session_with(1);
    session.channel_open_failure(1, OpenFailure::ResourceShortage);
    assert_eq!(
        session.poll_open_result(1, waker(&opener)),
        Some(Err(OpenFailure::ResourceShortage))
    );
    assert_eq!(session.poll_open_result(1, waker(&opener)), None);
    // The request was answered once; a second answer is ignored and wakes nobody.
    assert_eq!(session.channel_open_confirmation(1), 0);
    assert_eq!(hits(&opener), 0);
    assert_eq!(session.poll_open_result(1, waker(&opener)), None);
}

#[test]
fn channel_state_hands_out_the_handles_it_releases() {
    let reader = counter();
    let waiter = counter();
    let opener = counter();
    let mut state = ChannelState::default();
    let mut buf = [0u8; 1];
    assert_eq!(state.read(&mut buf, waker(&reader)), ReadOutcome::WouldBlock);
    assert_eq!(state.poll_exit_status(waker(&waiter)), ExitPoll::Pending);
    assert_eq!(state.poll_open_result(waker(&opener)), None);

    let wakes = state.channel_open_confirmation();
    assert!(wakes.on_open.is_some() && wakes.on_data.is_none() && wakes.on_exit.is_none());
    assert_eq!(wakes.notify(), 1);
    assert_eq!((hits(&opener), hits(&reader), hits(&waiter)), (1, 0, 0));

    let wakes = state.channel_close();
    assert!(wakes.on_open.is_none() && wakes.on_data.is_some() && wakes.on_exit.is_some());
    assert_eq!(wakes.notify(), 2);
    assert_eq!((hits(&opener), hits(&reader), hits(&waiter)), (1, 1, 1));

    let wakes = state.channel_close();
    assert!(wakes.on_open.is_none() && wakes.on_data.is_none() && wakes.on_exit.is_none());
    assert_eq!(wakes.notify(), 0);
    let wakes = state.data(None, b"late");
    assert_eq!(wakes.notify(), 0);
    let wakes = state.channel_eof();
    assert_eq!(wakes.notify(), 0);
    let wakes = state.exit_status(1);
    assert_eq!(wakes.notify(), 0);
    let wakes = state.channel_open_failure(OpenFailure::UnknownChannelType);
    assert_eq!(wakes.notify(), 0);
    assert_eq!((hits(&opener), hits(&reader), hits(&waiter)), (1, 1, 1));
}

#[test]
fn notify_wakes_every_handle_it_holds() {
    let a = counter();
    let b = counter();
    let c = counter();
    let wakes = Wakes { on_open: Some(waker(&a)), on_data: Some(waker(&b)), on_exit: Some(waker(&c)) };
    assert_eq!(wakes.notify(), 3);
    assert_eq!((hits(&a), hits(&b), hits(&c)), (1, 1, 1));
    let wakes = Wakes { on_open: None, on_data: Some(waker(&b)), on_exit: None };
    assert_eq!(wakes.notify(), 1);
    assert_eq!((hits(&a), hits(&b), hits(&c)), (1, 2, 1));
}

#[test]
fn buffer_is_reused_after_it_was_drained() {
    let reader = counter();
    let mut session = session_with(1);
    let mut buf = [0u8; 2];
    for round in 0..100u8 {
        session.data(1, None, &[round, round, round]);
        assert_eq!(session.read(1, &mut buf, waker(&reader)), ReadOutcome::Read(2));
        assert_eq!(buf, [round, round]);
        assert_eq!(session.read(1, &mut buf, waker(&reader)), ReadOutcome::Read(1));
        assert_eq!(buf[0], round);
        assert_eq!(session.read(1, &mut buf, waker(&reader)), ReadOutcome::WouldBlock);
        assert_eq!(hits(&reader), usize::from(round));
    }
}

#[test]
fn reader_that_went_away_is_not_woken() {
    let reader = counter();
    let mut session = session_with(1);
    let mut buf = [0u8; 4];
    assert_eq!(session.read(1, &mut buf, waker(&reader)), ReadOutcome::WouldBlock);
    session.disarm(1, Readiness::Data);
    assert_eq!(session.data(1, None, b"x"), 0);
    assert_eq!(session.channel_close(1), 0);
    assert_eq!(hits(&reader), 0);
}

#[test]
fn withdrawing_from_one_slot_leaves_the_others_armed() {
    let reader = counter();
    let waiter = counter();
    let opener = counter();
    let mut session = session_with(1);
    let mut buf = [0u8; 4];
    assert_eq!(session.read(1, &mut buf, waker(&reader)), ReadOutcome::WouldBlock);
    assert_eq!(session.poll_exit_status(1, waker(&waiter)), ExitPoll::Pending);
    assert_eq!(session.poll_open_result(1, waker(&opener)), None);
    session.disarm(1, Readiness::Exit);
    assert_eq!(session.channel_open_confirmation(1), 1);
    assert_eq!(session.channel_close(1), 1);
    assert_eq!((hits(&opener), hits(&reader), hits(&waiter)), (1, 1, 0));
}

#[test]
fn withdrawing_reaches_only_the_named_channel() {
    let first = counter();
    let second = counter();
    let mut session = session_with(1);
    session.register(2);
    assert_eq!(session.poll_open_result(1, waker(&first)), None);
    assert_eq!(session.poll_open_result(2, waker(&second)), None);
    session.disarm(2, Readiness::Open);
    session.disarm(3, Readiness::Open);
    assert!(!session.has_channel(3));
    assert_eq!(session.channel_open_confirmation(1), 1);
    assert_eq!(session.channel_open_confirmation(2), 0);
    assert_eq!((hits(&first), hits(&second)), (1, 0));
}

#[test]
fn channel_state_forgets_the_handle_of_a_withdrawn_consumer() {
    let waiter = counter();
    let mut state = ChannelState::new();
    assert_eq!(state.poll_exit_status(waker(&waiter)), ExitPoll::Pending);
    state.disarm(Readiness::Data);
    state.disarm(Readiness::Open);
    state.disarm(Readiness::Exit);
    let wakes = state.exit_status(0);
    assert!(wakes.on_exit.is_none());
    assert_eq!(wakes.notify(), 0);
    assert_eq!(hits(&waiter), 0);
    assert_eq!(state.poll_exit_status(waker(&waiter)), ExitPoll::Ready(0));
}

#[test]
fn data_after_close_is_dropped() {
    let reader = counter();
    let mut session = session_with(1);
    session.data(1, None, b"ab");
    assert_eq!(session.channel_close(1), 0);
    assert_eq!(session.data(1, None, b"late"), 0);
    let mut buf = [0u8; 8];
    assert_eq!(session.read(1, &mut buf, waker(&reader)), ReadOutcome::Read(2));
    assert_eq!(&buf[..2], b"ab");
    assert_eq!(session.data(1, None, b"later"), 0);
    assert_eq!(session.read(1, &mut buf, waker(&reader)), ReadOutcome::EndOfStream);
    assert_eq!(buf, [b'a', b'b', 0, 0, 0, 0, 0, 0]);
}

#[test]
fn exit_status_after_close_is_ignored_and_a_lost_status_stays_lost() {
    let waiter = counter();
    let mut session = session_with(1);
    assert_eq!(session.poll_exit_status(1, waker(&waiter)), ExitPoll::Pending);
    assert_eq!(session.channel_close(1), 1);
    assert_eq!(session.poll_exit_status(1, waker(&waiter)), ExitPoll::Lost);
    assert_eq!(session.exit_status(1, 7), 0);
    assert_eq!(session.poll_exit_status(1, waker(&waiter)), ExitPoll::Lost);
    assert_eq!(hits(&waiter), 1);
}

#[test]
fn exit_status_after_close_does_not_replace_the_known_one() {
    let waiter = counter();
    let mut session = session_with(1);
    assert_eq!(session.exit_status(1, 3), 0);
    assert_eq!(session.channel_close(1), 0);
    assert_eq!(session.exit_status(1, 9), 0);
    assert_eq!(session.poll_exit_status(1, waker(&waiter)), ExitPoll::Ready(3));
}

#[test]
fn exit_status_may_be_corrected_until_the_channel_closes() {
    let waiter = counter();
    let mut session = session_with(1);
    session.exit_status(1, 1);
    session.exit_status(1, 2);
    assert_eq!(session.poll_exit_status(1, waker(&waiter)), ExitPoll::Ready(2));
}

#[test]
fn open_answer_after_close_is_ignored_and_the_opener_stays_parked() {
    let opener = counter();
    let mut session = session_with(1);
    assert_eq!(session.poll_open_result(1, waker(&opener)), None);
    assert_eq!(session.channel_close(1), 0);
    assert_eq!(session.channel_open_confirmation(1), 0);
    assert_eq!(session.channel_open_failure(1, OpenFailure::ConnectFailed), 0);
    assert_eq!(hits(&opener), 0);
    assert_eq!(session.poll_open_result(1, waker(&opener)), None);
}

#[test]
fn open_request_is_answered_once() {
    let opener = counter();
    let mut session = session_with(1);
    assert_eq!(session.poll_open_result(1, waker(&opener)), None);
    assert_eq!(session.channel_open_failure(1, OpenFailure::ConnectFailed), 1);
    assert_eq!(session.channel_open_confirmation(1), 0);
    assert_eq!(session.channel_open_failure(1, OpenFailure::ResourceShortage), 0);
    assert_eq!(hits(&opener), 1);
    assert_eq!(
        session.poll_open_result(1, waker(&opener)),
        Some(Err(OpenFailure::ConnectFailed))
    );
}

#[test]
fn end_of_stream_after_close_wakes_nobody() {
    let reader = counter();
    let mut session = session_with(1);
    let mut buf = [0u8; 2];
    assert_eq!(session.read(1, &mut buf, waker(&reader)), ReadOutcome::WouldBlock);
    assert_eq!(session.channel_close(1), 1);
    assert_eq!(session.channel_eof(1), 0);
    assert_eq!(hits(&reader), 1);
}

#[test]
fn partial_read_moves_the_cursor_and_the_last_read_empties_the_buffer() {
    let reader = counter();
    let mut state = ChannelState::new();
    assert_eq!((state.buffered(), state.read_cursor()), (0, 0));
    state.data(None, b"abcde");
    assert_eq!((state.buffered(), state.read_cursor()), (5, 0));
    let mut buf = [0u8; 2];
    assert_eq!(state.read(&mut buf, waker(&reader)), ReadOutcome::Read(2));
    assert_eq!((state.buffered(), state.read_cursor()), (5, 2));
    state.data(None, b"f");
    assert_eq!((state.buffered(), state.read_cursor()), (6, 2));
    assert_eq!(state.read(&mut buf, waker(&reader)), ReadOutcome::Read(2));
    assert_eq!(&buf, b"cd");
    assert_eq!((state.buffered(), state.read_cursor()), (6, 4));
    assert_eq!(state.read(&mut buf, waker(&reader)), ReadOutcome::Read(2));
    assert_eq!(&buf, b"ef");
    assert_eq!((state.buffered(), state.read_cursor()), (0, 0));
    assert_eq!(state.read(&mut buf, waker(&reader)), ReadOutcome::WouldBlock);
    assert_eq!((state.buffered(), state.read_cursor()), (0, 0));
}

#[test]
fn empty_read_leaves_buffer_and_cursor_alone() {
    let reader = counter();
    let mut state = ChannelState::new();
    state.data(None, b"abc");
    let mut one = [0u8; 1];
    assert_eq!(state.read(&mut one, waker(&reader)), ReadOutcome::Read(1));
    let mut none = [0u8; 0];
    assert_eq!(state.read(&mut none, waker(&reader)), ReadOutcome::Read(0));
    assert_eq!((state.buffered(), state.read_cursor()), (3, 1));
}

#[test]
fn closed_channel_state_is_frozen() {
    let mut state = ChannelState::new();
    assert!(!state.is_closed());
    state.data(None, b"ab");
    assert_eq!(state.channel_close().notify(), 0);
    assert!(state.is_closed());
    assert_eq!(state.data(None, b"cd").notify(), 0);
    assert_eq!(state.exit_status(5).notify(), 0);
    assert_eq!(state.channel_open_confirmation().notify(), 0);
    assert_eq!(state.channel_eof().notify(), 0);
    assert_eq!(state.channel_close().notify(), 0);
    assert_eq!((state.buffered(), state.read_cursor()), (2, 0));
    assert!(state.is_closed());
}
