use hamilton_controller::command::{BridgeError, Command, QUEUE_CAPACITY};
use hamilton_controller::queue::{CommandQueue, Dequeued, EnqueueError};
use hamilton_controller::session::{Phase, SendOutcome, StreamSession, WorkerAction};

fn cmd(x: f32, y: f32, yaw: f32) -> Command {
    Command::new(x.to_bits(), y.to_bits(), yaw.to_bits())
}

fn values(c: Command) -> (f32, f32, f32) {
    (f32::from_bits(c.x), f32::from_bits(c.y), f32::from_bits(c.yaw))
}

#[test]
fn queue_is_first_in_first_out() {
    let mut q = CommandQueue::new();
    for i in 0..3u32 {
        assert_eq!(q.try_enqueue(Command::new(i, i + 1, i + 2)), Ok(()));
    }
    assert_eq!(q.len(), 3);
    for i in 0..3u32 {
        assert_eq!(q.dequeue(), Dequeued::Item(Command::new(i, i + 1, i + 2)));
    }
    assert_eq!(q.dequeue(), Dequeued::Empty);
    assert!(q.is_empty());
}

#[test]
fn queue_refuses_an_eleventh_command() {
    let mut q = CommandQueue::new();
    for i in 0..QUEUE_CAPACITY as u32 {
        assert_eq!(q.try_enqueue(Command::new(i, 0, 0)), Ok(()));
    }
    assert!(q.is_full());
    assert_eq!(q.try_enqueue(Command::new(99, 0, 0)), Err(EnqueueError::Full));
    assert_eq!(q.len(), 10);
    assert_eq!(q.dequeue(), Dequeued::Item(Command::new(0, 0, 0)));
    assert_eq!(q.try_enqueue(Command::new(99, 0, 0)), Ok(()));
}

#[test]
fn closed_queue_drains_then_reports_closed() {
    let mut q = CommandQueue::new();
    assert_eq!(q.try_enqueue(Command::new(1, 2, 3)), Ok(()));
    q.close();
    assert!(q.is_closed_now());
    assert_eq!(q.try_enqueue(Command::new(4, 5, 6)), Err(EnqueueError::Closed));
    assert_eq!(q.dequeue(), Dequeued::Item(Command::new(1, 2, 3)));
    assert_eq!(q.dequeue(), Dequeued::Closed);
}

#[test]
fn two_sends_then_teardown_stream_two_messages() {
    let mut s = StreamSession::new();
    assert_eq!(s.phase(), Phase::Connecting);
    assert_eq!(s.offer(cmd(0.5, -0.3, 0.1)), SendOutcome::Accepted);
    assert_eq!(s.offer(cmd(0.0, 0.0, 0.0)), SendOutcome::Accepted);
    assert_eq!(s.poll(), WorkerAction::Wait);
    s.connected();
    assert_eq!(s.phase(), Phase::Streaming);
    s.close();
    assert_eq!(s.phase(), Phase::Draining);
    match s.poll() {
        WorkerAction::Forward(c) => assert_eq!(values(c), (0.5, -0.3, 0.1)),
        other => panic!("unexpected {:?}", other),
    }
    match s.poll() {
        WorkerAction::Forward(c) => assert_eq!(values(c), (0.0, 0.0, 0.0)),
        other => panic!("unexpected {:?}", other),
    }
    assert_eq!(s.poll(), WorkerAction::HalfClose);
    s.stream_finished(true);
    assert_eq!(s.phase(), Phase::Closed);
    assert_eq!(s.poll(), WorkerAction::Stop);
    assert_eq!(s.shutdown_result(true), Ok(()));
}

#[test]
fn full_session_asks_the_producer_to_wait() {
    let mut s = StreamSession::new();
    s.connected();
    for i in 0..10u32 {
        assert_eq!(s.offer(Command::new(i, 0, 0)), SendOutcome::Accepted);
    }
    assert_eq!(s.offer(Command::new(10, 0, 0)), SendOutcome::Full);
    assert_eq!(s.queued(), 10);
    assert_eq!(s.poll(), WorkerAction::Forward(Command::new(0, 0, 0)));
    assert_eq!(s.offer(Command::new(10, 0, 0)), SendOutcome::Accepted);
    for i in 1..11u32 {
        assert_eq!(s.poll(), WorkerAction::Forward(Command::new(i, 0, 0)));
    }
    assert_eq!(s.poll(), WorkerAction::Wait);
}

#[test]
fn teardown_flushes_every_queued_command_in_order() {
    let mut s = StreamSession::new();
    s.connected();
    for i in 0..7u32 {
        assert_eq!(s.offer(Command::new(i, i, i)), SendOutcome::Accepted);
    }
    s.close();
    assert_eq!(s.offer(Command::new(50, 0, 0)), SendOutcome::Closed);
    for i in 0..7u32 {
        assert_eq!(s.poll(), WorkerAction::Forward(Command::new(i, i, i)));
    }
    assert_eq!(s.poll(), WorkerAction::HalfClose);
    s.stream_finished(true);
    assert_eq!(s.shutdown_result(true), Ok(()));
}

#[test]
fn close_before_connection_still_drains() {
    let mut s = StreamSession::new();
    assert_eq!(s.offer(Command::new(1, 1, 1)), SendOutcome::Accepted);
    s.close();
    assert_eq!(s.phase(), Phase::Connecting);
    s.connected();
    assert_eq!(s.phase(), Phase::Draining);
    assert_eq!(s.poll(), WorkerAction::Forward(Command::new(1, 1, 1)));
    assert_eq!(s.poll(), WorkerAction::HalfClose);
}

#[test]
fn unreachable_endpoint_reports_connection_error() {
    let mut s = StreamSession::new();
    assert_eq!(s.offer(Command::new(1, 2, 3)), SendOutcome::Accepted);
    s.connect_failed();
    assert_eq!(s.phase(), Phase::Failed(BridgeError::Connection));
    assert_eq!(
        s.offer(Command::new(4, 5, 6)),
        SendOutcome::Failed(BridgeError::Connection)
    );
    assert_eq!(s.poll(), WorkerAction::Stop);
    s.close();
    assert_eq!(s.shutdown_result(true), Err(BridgeError::Connection));
}

#[test]
fn zero_command_session_closes_cleanly() {
    let mut s = StreamSession::new();
    s.connected();
    s.close();
    assert_eq!(s.poll(), WorkerAction::HalfClose);
    s.stream_finished(true);
    assert_eq!(s.phase(), Phase::Closed);
    assert_eq!(s.shutdown_result(true), Ok(()));
}

#[test]
fn successive_sends_keep_call_order() {
    let mut s = StreamSession::new();
    s.connected();
    let a = cmd(0.25, 0.0, -1.0);
    let b = cmd(-0.25, 1.0, 0.0);
    assert_eq!(s.offer(a), SendOutcome::Accepted);
    assert_eq!(s.offer(b), SendOutcome::Accepted);
    assert_eq!(s.queued(), 2);
    assert_eq!(s.poll(), WorkerAction::Forward(a));
    assert_eq!(s.poll(), WorkerAction::Forward(b));
}

#[test]
fn broken_stream_fails_later_sends() {
    let mut s = StreamSession::new();
    s.connected();
    assert_eq!(s.offer(Command::new(1, 0, 0)), SendOutcome::Accepted);
    assert_eq!(s.poll(), WorkerAction::Forward(Command::new(1, 0, 0)));
    s.stream_finished(false);
    assert_eq!(s.phase(), Phase::Failed(BridgeError::StreamWrite));
    assert_eq!(
        s.offer(Command::new(2, 0, 0)),
        SendOutcome::Failed(BridgeError::StreamWrite)
    );
    assert_eq!(s.shutdown_result(true), Err(BridgeError::StreamWrite));
}

#[test]
fn stream_ending_before_drain_is_a_write_error() {
    let mut s = StreamSession::new();
    s.connected();
    assert_eq!(s.offer(Command::new(1, 0, 0)), SendOutcome::Accepted);
    s.close();
    s.stream_finished(true);
    assert_eq!(s.phase(), Phase::Failed(BridgeError::StreamWrite));
}

#[test]
fn faulty_join_is_reported() {
    let mut s = StreamSession::new();
    s.connected();
    s.close();
    assert_eq!(s.poll(), WorkerAction::HalfClose);
    s.stream_finished(true);
    assert_eq!(s.shutdown_result(false), Err(BridgeError::ShutdownJoin));
    let unfinished = StreamSession::new();
    assert_eq!(unfinished.shutdown_result(true), Err(BridgeError::ShutdownJoin));
}
