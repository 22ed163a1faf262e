use quanta_client::frame::Fault;
use quanta_client::protocol::ClientMessage;
use quanta_client::worker::{Delivery, Worker, WorkerAction, WorkerEvent, WorkerPhase};

type Pos = [f32; 3];
type W = Worker<&'static str, Pos, f32>;
type Act = WorkerAction<&'static str, Pos, f32>;
type Ev = WorkerEvent<&'static str, Pos, f32>;

fn run(mut w: W, events: Vec<Ev>) -> (W, Vec<Act>) {
    let mut actions = Vec::new();
    for e in events {
        let (next, a) = w.step(e);
        w = next;
        actions.push(a);
    }
    (w, actions)
}

#[test]
fn worker_builds_at_startup_and_submits() {
    let (w, first): (W, Act) = Worker::start([1.0, 2.0, 3.0]);
    assert_eq!(first, WorkerAction::Build([1.0, 2.0, 3.0]));
    let (w, actions) = run(
        w,
        vec![
            WorkerEvent::Built("cmd", [1.0, 2.0, 3.0], 64.0),
            WorkerEvent::Offered(Delivery::Delivered),
        ],
    );
    assert_eq!(actions[0], WorkerAction::Offer("cmd", [1.0, 2.0, 3.0], 64.0));
    assert_eq!(actions[1], WorkerAction::Listen);
    assert_eq!(w.phase, WorkerPhase::Idle);
}

#[test]
fn worker_move_only_updates_reference() {
    let (w, _): (W, Act) = Worker::start([0.0; 3]);
    let (w, _) = run(
        w,
        vec![
            WorkerEvent::Built("a", [0.0; 3], 16.0),
            WorkerEvent::Offered(Delivery::Delivered),
        ],
    );
    let (w, actions) = run(
        w,
        vec![
            WorkerEvent::Received(ClientMessage::PlayerMove([1.0, 0.0, 0.0])),
            WorkerEvent::Received(ClientMessage::PlayerMove([2.0, 0.0, 0.0])),
            WorkerEvent::Quiet,
            WorkerEvent::Checked(true),
        ],
    );
    assert_eq!(actions[0], WorkerAction::Listen);
    assert_eq!(actions[1], WorkerAction::Listen);
    assert_eq!(actions[2], WorkerAction::Check([2.0, 0.0, 0.0]));
    assert_eq!(actions[3], WorkerAction::Build([2.0, 0.0, 0.0]));
    assert_eq!(w.phase, WorkerPhase::Building);
}

#[test]
fn worker_without_rebuild_stays_idle() {
    let (w, _): (W, Act) = Worker::start([0.0; 3]);
    let (w, actions) = run(
        w,
        vec![
            WorkerEvent::Built("a", [0.0; 3], 16.0),
            WorkerEvent::Offered(Delivery::Delivered),
            WorkerEvent::Quiet,
            WorkerEvent::Checked(false),
        ],
    );
    assert_eq!(actions[3], WorkerAction::Listen);
    assert_eq!(w.phase, WorkerPhase::Idle);
}

#[test]
fn worker_keeps_update_while_slot_is_occupied() {
    let (w, _): (W, Act) = Worker::start([0.0; 3]);
    let (w, actions) = run(
        w,
        vec![
            WorkerEvent::Built("b", [4.0; 3], 32.0),
            WorkerEvent::Offered(Delivery::Occupied("b", [4.0; 3], 32.0)),
            WorkerEvent::Received(ClientMessage::PlayerMove([5.0; 3])),
            WorkerEvent::Quiet,
        ],
    );
    assert_eq!(actions[1], WorkerAction::Listen);
    assert_eq!(actions[3], WorkerAction::Offer("b", [4.0; 3], 32.0));
    assert_eq!(w.reference, [5.0; 3]);
    assert_eq!(w.phase, WorkerPhase::Offering);
}

#[test]
fn worker_stops_when_render_side_is_gone() {
    let (w, _): (W, Act) = Worker::start([0.0; 3]);
    let (w, actions) = run(
        w,
        vec![
            WorkerEvent::Built("c", [0.0; 3], 8.0),
            WorkerEvent::Offered(Delivery::Closed),
        ],
    );
    assert_eq!(actions[1], WorkerAction::Stop);
    assert_eq!(w.phase, WorkerPhase::Stopped);
    let (w, _): (W, Act) = Worker::start([0.0; 3]);
    let (_, actions) = run(w, vec![WorkerEvent::Disconnected]);
    assert_eq!(actions[0], WorkerAction::Stop);
}

#[test]
fn worker_event_out_of_order_is_fatal() {
    let (w, _): (W, Act) = Worker::start([0.0; 3]);
    let (w, actions) = run(w, vec![WorkerEvent::Quiet, WorkerEvent::Checked(true)]);
    assert_eq!(actions[0], WorkerAction::Fatal(Fault::OutOfOrder));
    assert_eq!(actions[1], WorkerAction::Fatal(Fault::OutOfOrder));
    assert_eq!(w.phase, WorkerPhase::Failed(Fault::OutOfOrder));
}

#[test]
fn submit_sent_to_worker_is_fatal() {
    let (w, _): (W, Act) = Worker::start([0.0; 3]);
    let (w, actions) = run(
        w,
        vec![
            WorkerEvent::Built("a", [0.0; 3], 16.0),
            WorkerEvent::Offered(Delivery::Delivered),
            WorkerEvent::Received(ClientMessage::Submit("x", [1.0; 3], 2.0)),
            WorkerEvent::Quiet,
        ],
    );
    assert_eq!(actions[2], WorkerAction::Fatal(Fault::ProtocolViolation));
    assert_eq!(actions[3], WorkerAction::Fatal(Fault::ProtocolViolation));
    assert_eq!(w.phase, WorkerPhase::Failed(Fault::ProtocolViolation));
    assert_eq!(w.reference, [0.0; 3]);
}
