//! The world-streaming worker's decisions as a state machine.
//!
//! The worker rebuilds the spatial index when the player's position calls for
//! it and hands the result to the render thread. Updates leave through a
//! channel that holds at most one: an offer that finds the slot occupied is
//! handed back and kept until the render thread has taken the earlier one, so
//! at most one update is ever outstanding.
use vstd::prelude::*;
use crate::frame::Fault;
use crate::protocol::ClientMessage;

verus! {

/// Result of offering a `Submit` to the render thread's channel.
#[derive(Debug, PartialEq)]
pub enum Delivery<C, V, R> {
    Delivered,
    /// The earlier update is still unconsumed; the offer comes back.
    Occupied(C, V, R),
    Closed,
}

/// What the worker's driver reports.
#[derive(Debug, PartialEq)]
pub enum WorkerEvent<C, V, R> {
    /// A message arrived from the render thread.
    Received(ClientMessage<C, V, R>),
    /// No further message is pending.
    Quiet,
    /// Whether the reference position calls for a rebuild.
    Checked(bool),
    /// A rebuild finished: upload command, new origin, new root size.
    Built(C, V, R),
    Offered(Delivery<C, V, R>),
    /// The render thread's end of the channels is closed.
    Disconnected,
}

/// What the worker's driver is asked to do next.
#[derive(Debug, PartialEq)]
pub enum WorkerAction<C, V, R> {
    /// Take pending messages without blocking.
    Listen,
    /// Decide whether this position calls for a rebuild.
    Check(V),
    /// Rebuild the spatial index around this position.
    Build(V),
    /// Offer this update as a `Submit`.
    Offer(C, V, R),
    Stop,
    Fatal(Fault),
}

#[derive(Debug, PartialEq)]
pub enum WorkerPhase<C, V, R> {
    Idle,
    Checking,
    Building,
    /// A finished update waits to be offered.
    ReadyToSubmit(C, V, R),
    /// An update is with the driver, being offered.
    Offering,
    Stopped,
    Failed(Fault),
}

pub struct Worker<C, V, R> {
    pub phase: WorkerPhase<C, V, R>,
    /// The most recent player position received.
    pub reference: V,
}

impl<C, V, R> WorkerPhase<C, V, R> {
    /// An update has been built and not yet delivered.
    pub open spec fn holds_update(&self) -> bool {
        self is ReadyToSubmit || self is Offering
    }

    /// The phases in which the driver listens for messages.
    pub open spec fn listening(&self) -> bool {
        self is Idle || self is ReadyToSubmit
    }
}

impl<C, V, R> Worker<C, V, R> {
    pub open spec fn with_phase(self, p: WorkerPhase<C, V, R>) -> Self {
        Worker { phase: p, ..self }
    }

    pub open spec fn stop(self) -> (Self, WorkerAction<C, V, R>) {
        (self.with_phase(WorkerPhase::Stopped), WorkerAction::Stop)
    }

    pub open spec fn halt(self, f: Fault) -> (Self, WorkerAction<C, V, R>) {
        (self.with_phase(WorkerPhase::Failed(f)), WorkerAction::Fatal(f))
    }

    /// The next state and action after event `e`.
    pub open spec fn next(self, e: WorkerEvent<C, V, R>) -> (Self, WorkerAction<C, V, R>) {
        match self.phase {
            WorkerPhase::Stopped => (self, WorkerAction::Stop),
            WorkerPhase::Failed(f) => (self, WorkerAction::Fatal(f)),
            _ => match e {
                WorkerEvent::Disconnected => self.stop(),
                WorkerEvent::Received(m) => if self.phase.listening() {
                    match m {
                        ClientMessage::PlayerMove(v) => (
                            Worker { reference: v, ..self },
                            WorkerAction::Listen,
                        ),
                        ClientMessage::Submit(_, _, _) => self.halt(Fault::ProtocolViolation),
                    }
                } else {
                    self.halt(Fault::OutOfOrder)
                },
                WorkerEvent::Quiet => match self.phase {
                    WorkerPhase::Idle => (
                        self.with_phase(WorkerPhase::Checking),
                        WorkerAction::Check(self.reference),
                    ),
                    WorkerPhase::ReadyToSubmit(c, o, r) => (
                        self.with_phase(WorkerPhase::Offering),
                        WorkerAction::Offer(c, o, r),
                    ),
                    _ => self.halt(Fault::OutOfOrder),
                },
                WorkerEvent::Checked(rebuild) => match self.phase {
                    WorkerPhase::Checking => if rebuild {
                        (self.with_phase(WorkerPhase::Building), WorkerAction::Build(self.reference))
                    } else {
                        (self.with_phase(WorkerPhase::Idle), WorkerAction::Listen)
                    },
                    _ => self.halt(Fault::OutOfOrder),
                },
                WorkerEvent::Built(c, o, r) => match self.phase {
                    WorkerPhase::Building => (
                        self.with_phase(WorkerPhase::Offering),
                        WorkerAction::Offer(c, o, r),
                    ),
                    _ => self.halt(Fault::OutOfOrder),
                },
                WorkerEvent::Offered(d) => match self.phase {
                    WorkerPhase::Offering => match d {
                        Delivery::Delivered => (
                            self.with_phase(WorkerPhase::Idle),
                            WorkerAction::Listen,
                        ),
                        Delivery::Occupied(c, o, r) => (
                            self.with_phase(WorkerPhase::ReadyToSubmit(c, o, r)),
                            WorkerAction::Listen,
                        ),
                        Delivery::Closed => self.stop(),
                    },
                    _ => self.halt(Fault::OutOfOrder),
                },
            },
        }
    }
}

impl<C, V: Copy, R> Worker<C, V, R> {
    /// A worker that starts by building around the initial position.
    pub fn start(position: V) -> (r: (Self, WorkerAction<C, V, R>))
        ensures
            r.0.phase == WorkerPhase::<C, V, R>::Building,
            r.0.reference == position,
            r.1 == WorkerAction::<C, V, R>::Build(position),
    {
        (Worker { phase: WorkerPhase::Building, reference: position }, WorkerAction::Build(position))
    }

    fn halt_exec(self, f: Fault) -> (r: (Self, WorkerAction<C, V, R>))
        ensures
            r == self.halt(f),
    {
        (Worker { phase: WorkerPhase::Failed(f), ..self }, WorkerAction::Fatal(f))
    }

    /// Takes the outcome of the last action and decides the next one.
    pub fn step(self, e: WorkerEvent<C, V, R>) -> (r: (Self, WorkerAction<C, V, R>))
        ensures
            r == self.next(e),
    {
        let Worker { phase, reference } = self;
        // The stopped worker; the other arms set the phase they move to.
        let s = Worker { phase: WorkerPhase::Stopped, reference };
        match phase {
            WorkerPhase::Stopped => (s, WorkerAction::Stop),
            WorkerPhase::Failed(f) => (Worker { phase: WorkerPhase::Failed(f), reference }, WorkerAction::Fatal(f)),
            WorkerPhase::Idle => match e {
                WorkerEvent::Disconnected => (s, WorkerAction::Stop),
                WorkerEvent::Received(ClientMessage::PlayerMove(v)) => (
                    Worker { phase: WorkerPhase::Idle, reference: v },
                    WorkerAction::Listen,
                ),
                WorkerEvent::Received(ClientMessage::Submit(_, _, _)) => s.halt_exec(Fault::ProtocolViolation),
                WorkerEvent::Quiet => (
                    Worker { phase: WorkerPhase::Checking, reference },
                    WorkerAction::Check(reference),
                ),
                _ => s.halt_exec(Fault::OutOfOrder),
            },
            WorkerPhase::ReadyToSubmit(c, o, r) => match e {
                WorkerEvent::Disconnected => (s, WorkerAction::Stop),
                WorkerEvent::Received(ClientMessage::PlayerMove(v)) => (
                    Worker { phase: WorkerPhase::ReadyToSubmit(c, o, r), reference: v },
                    WorkerAction::Listen,
                ),
                WorkerEvent::Received(ClientMessage::Submit(_, _, _)) => s.halt_exec(Fault::ProtocolViolation),
                WorkerEvent::Quiet => (
                    Worker { phase: WorkerPhase::Offering, reference },
                    WorkerAction::Offer(c, o, r),
                ),
                _ => s.halt_exec(Fault::OutOfOrder),
            },
            WorkerPhase::Checking => match e {
                WorkerEvent::Disconnected => (s, WorkerAction::Stop),
                WorkerEvent::Checked(rebuild) => if rebuild {
                    (Worker { phase: WorkerPhase::Building, reference }, WorkerAction::Build(reference))
                } else {
                    (Worker { phase: WorkerPhase::Idle, reference }, WorkerAction::Listen)
                },
                _ => s.halt_exec(Fault::OutOfOrder),
            },
            WorkerPhase::Building => match e {
                WorkerEvent::Disconnected => (s, WorkerAction::Stop),
                WorkerEvent::Built(c, o, r) => (
                    Worker { phase: WorkerPhase::Offering, reference },
                    WorkerAction::Offer(c, o, r),
                ),
                _ => s.halt_exec(Fault::OutOfOrder),
            },
            WorkerPhase::Offering => match e {
                WorkerEvent::Disconnected => (s, WorkerAction::Stop),
                WorkerEvent::Offered(Delivery::Delivered) => (
                    Worker { phase: WorkerPhase::Idle, reference },
                    WorkerAction::Listen,
                ),
                WorkerEvent::Offered(Delivery::Occupied(c, o, r)) => (
                    Worker { phase: WorkerPhase::ReadyToSubmit(c, o, r), reference },
                    WorkerAction::Listen,
                ),
                WorkerEvent::Offered(Delivery::Closed) => (s, WorkerAction::Stop),
                _ => s.halt_exec(Fault::OutOfOrder),
            },
        }
    }
}

} // verus!
