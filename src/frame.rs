//! The render thread's frame loop as a state machine.
//!
//! Each call of [`FrameLoop::step`] takes the outcome of the work that the
//! previous action asked for and returns the next state and the next action.
//! The driver performs the action on the device, the window or the channels
//! and reports back with the matching event.
use vstd::prelude::*;
use crate::protocol::{ClientMessage, Incoming};

verus! {

/// Number of iterations between two throughput reports.
pub const REPORT_PERIOD: u64 = 30;

/// Result of asking the swapchain for the next presentable image.
#[derive(Debug, Clone, Copy, PartialEq, Eq, Structural)]
pub enum AcquireOutcome {
    Ready,
    Stale,
    Failed,
}

/// Result of submitting a frame's command buffer and scheduling presentation.
#[derive(Debug, Clone, Copy, PartialEq, Eq, Structural)]
pub enum PresentOutcome {
    Flushed,
    Stale,
    Failed,
}

/// The pending device work that the render thread holds: either nothing
/// outstanding (a "now" token) or a chain of submitted operations.
#[derive(Debug, Clone, Copy, PartialEq, Eq, Structural)]
pub enum Chain {
    Now,
    Pending,
}

/// Conditions that end the process.
#[derive(Debug, Clone, Copy, PartialEq, Eq, Structural)]
pub enum Fault {
    /// Image acquisition failed for a reason other than a stale surface.
    AcquireFailed,
    /// The worker's end of a channel is closed.
    WorkerGone,
    /// The worker sent a message of a shape that it must not send.
    ProtocolViolation,
    /// An event arrived that the current phase does not wait for.
    OutOfOrder,
}

/// What the driver reports after performing an action.
#[derive(Debug, PartialEq)]
pub enum Event<C, V, R> {
    /// Finished device work was reclaimed.
    Reclaimed,
    /// Swapchain recreation succeeded (`true`) or failed.
    Recreated(bool),
    Acquired(AcquireOutcome),
    /// The frame was submitted; carries the camera position sampled afterwards.
    Presented(PresentOutcome, V),
    /// The pending chain was replaced by a "now" token.
    ChainReset,
    /// The player position was handed to the worker's channel (`true`), or the
    /// channel is closed.
    Sent(bool),
    Received(Incoming<C, V, R>),
    /// The chain was signalled, flushed and waited for.
    Waited,
    /// The worker's upload command was put on the device queue.
    Executed,
    /// Window and camera were advanced and input drained.
    InputDrained { resized: bool, quit: bool },
}

/// What the driver is asked to do next.
#[derive(Debug, PartialEq)]
pub enum Action<C, V, R> {
    /// Start an iteration: measure elapsed time, report throughput when
    /// `report` holds, reclaim finished device work.
    Reclaim { report: bool },
    Recreate,
    Acquire,
    /// Record and submit the frame's one draw with these push constants.
    Draw { origin: V, root_size: R },
    ResetChain,
    SendMove(V),
    Poll,
    FlushAndWait,
    Execute(C),
    /// Update the window, integrate the camera, drain the input events.
    Integrate,
    Stop,
    Fatal(Fault),
}

/// Where the frame loop stands within an iteration.
#[derive(Debug, PartialEq)]
pub enum Phase<C, V, R> {
    Reclaiming,
    Recreating,
    Acquiring,
    Presenting,
    /// The chain is being reset after a failed submission; holds the camera
    /// position still to be sent.
    Dropping(V),
    Sending,
    Polling,
    /// First wait of the barrier; holds the received update.
    Draining(C, V, R),
    /// The upload command is on the queue; holds the new origin and root size.
    Uploading(V, R),
    /// Second wait of the barrier.
    Committing(V, R),
    Settling,
    Integrating,
    Stopped,
    Failed(Fault),
}

/// State of the render thread's loop.
pub struct FrameLoop<C, V, R> {
    pub phase: Phase<C, V, R>,
    pub needs_recreate: bool,
    pub chain: Chain,
    /// Origin of the spatial index in use.
    pub origin: V,
    /// Root size of the spatial index in use.
    pub root_size: R,
    /// Iteration counter, modulo the report period.
    pub counter: u64,
    /// Number of updates committed to the spatial index buffer.
    pub generation: Ghost<nat>,
}

impl<C, V, R> Phase<C, V, R> {
    /// A write of the spatial index buffer may be in flight on the device.
    pub open spec fn writing(&self) -> bool {
        self is Uploading || self is Committing
    }

    /// The iteration has handed the player position to the worker.
    pub open spec fn moved(&self) -> bool {
        ||| self is Sending
        ||| self is Polling
        ||| self is Draining
        ||| self is Uploading
        ||| self is Committing
        ||| self is Settling
        ||| self is Integrating
    }
}


impl<C, V, R> FrameLoop<C, V, R> {
    pub open spec fn wf(&self) -> bool {
        self.counter < REPORT_PERIOD
    }

    /// The same state in another phase.
    pub open spec fn with_phase(self, p: Phase<C, V, R>) -> Self {
        FrameLoop { phase: p, ..self }
    }

    /// Ends the iteration and starts the next one.
    pub open spec fn begin_next(self) -> (Self, Action<C, V, R>) {
        let c = ((self.counter + 1) % (REPORT_PERIOD as int)) as u64;
        (FrameLoop { phase: Phase::Reclaiming, counter: c, ..self }, Action::Reclaim { report: c == 0 })
    }

    /// Ends the process for `f`.
    pub open spec fn halt(self, f: Fault) -> (Self, Action<C, V, R>) {
        (self.with_phase(Phase::Failed(f)), Action::Fatal(f))
    }

    /// The next state and action after event `e`.
    pub open spec fn next(self, e: Event<C, V, R>) -> (Self, Action<C, V, R>) {
        match self.phase {
            Phase::Stopped => (self, Action::Stop),
            Phase::Failed(f) => (self, Action::Fatal(f)),
            Phase::Reclaiming => match e {
                Event::Reclaimed => if self.needs_recreate {
                    (self.with_phase(Phase::Recreating), Action::Recreate)
                } else {
                    (self.with_phase(Phase::Acquiring), Action::Acquire)
                },
                _ => self.halt(Fault::OutOfOrder),
            },
            Phase::Recreating => match e {
                Event::Recreated(ok) => if ok {
                    (FrameLoop { phase: Phase::Acquiring, needs_recreate: false, ..self }, Action::Acquire)
                } else {
                    self.begin_next()
                },
                _ => self.halt(Fault::OutOfOrder),
            },
            Phase::Acquiring => match e {
                Event::Acquired(AcquireOutcome::Ready) => (
                    self.with_phase(Phase::Presenting),
                    Action::Draw { origin: self.origin, root_size: self.root_size },
                ),
                Event::Acquired(AcquireOutcome::Stale) => FrameLoop {
                    needs_recreate: true,
                    ..self
                }.begin_next(),
                Event::Acquired(AcquireOutcome::Failed) => self.halt(Fault::AcquireFailed),
                _ => self.halt(Fault::OutOfOrder),
            },
            Phase::Presenting => match e {
                Event::Presented(PresentOutcome::Flushed, pos) => (
                    FrameLoop { phase: Phase::Sending, chain: Chain::Pending, ..self },
                    Action::SendMove(pos),
                ),
                Event::Presented(PresentOutcome::Stale, pos) => (
                    FrameLoop { phase: Phase::Dropping(pos), needs_recreate: true, ..self },
                    Action::ResetChain,
                ),
                Event::Presented(PresentOutcome::Failed, pos) => (
                    self.with_phase(Phase::Dropping(pos)),
                    Action::ResetChain,
                ),
                _ => self.halt(Fault::OutOfOrder),
            },
            Phase::Dropping(pos) => match e {
                Event::ChainReset => (
                    FrameLoop { phase: Phase::Sending, chain: Chain::Now, ..self },
                    Action::SendMove(pos),
                ),
                _ => self.halt(Fault::OutOfOrder),
            },
            Phase::Sending => match e {
                Event::Sent(ok) => if ok {
                    (self.with_phase(Phase::Polling), Action::Poll)
                } else {
                    self.halt(Fault::WorkerGone)
                },
                _ => self.halt(Fault::OutOfOrder),
            },
            Phase::Polling => match e {
                Event::Received(Incoming::Empty) => (
                    self.with_phase(Phase::Integrating),
                    Action::Integrate,
                ),
                Event::Received(Incoming::Message(ClientMessage::Submit(c, o, r))) => (
                    self.with_phase(Phase::Draining(c, o, r)),
                    Action::FlushAndWait,
                ),
                Event::Received(Incoming::Message(ClientMessage::PlayerMove(_))) => self.halt(
                    Fault::ProtocolViolation,
                ),
                Event::Received(Incoming::Disconnected) => self.halt(Fault::WorkerGone),
                _ => self.halt(Fault::OutOfOrder),
            },
            Phase::Draining(c, o, r) => match e {
                Event::Waited => (
                    FrameLoop { phase: Phase::Uploading(o, r), chain: Chain::Pending, ..self },
                    Action::Execute(c),
                ),
                _ => self.halt(Fault::OutOfOrder),
            },
            Phase::Uploading(o, r) => match e {
                Event::Executed => (self.with_phase(Phase::Committing(o, r)), Action::FlushAndWait),
                _ => self.halt(Fault::OutOfOrder),
            },
            Phase::Committing(o, r) => match e {
                Event::Waited => (
                    FrameLoop {
                        phase: Phase::Settling,
                        origin: o,
                        root_size: r,
                        generation: Ghost((self.generation@ + 1) as nat),
                        ..self
                    },
                    Action::ResetChain,
                ),
                _ => self.halt(Fault::OutOfOrder),
            },
            Phase::Settling => match e {
                Event::ChainReset => (
                    FrameLoop { phase: Phase::Integrating, chain: Chain::Now, ..self },
                    Action::Integrate,
                ),
                _ => self.halt(Fault::OutOfOrder),
            },
            Phase::Integrating => match e {
                Event::InputDrained { resized, quit } => {
                    let s = FrameLoop { needs_recreate: self.needs_recreate || resized, ..self };
                    if quit {
                        (s.with_phase(Phase::Stopped), Action::Stop)
                    } else {
                        s.begin_next()
                    }
                },
                _ => self.halt(Fault::OutOfOrder),
            },
        }
    }
}

impl<C, V: Copy, R: Copy> FrameLoop<C, V, R> {
    /// A loop that has drawn nothing yet, with the initial origin and root
    /// size, together with the action that starts the first iteration.
    pub fn start(origin: V, root_size: R) -> (r: (Self, Action<C, V, R>))
        ensures
            r.0.wf(),
            (r.0.phase is Reclaiming),
            !r.0.needs_recreate,
            r.0.chain == Chain::Now,
            r.0.origin == origin,
            r.0.root_size == root_size,
            r.0.counter == 1,
            r.0.generation@ == 0,
            r.1 == (Action::<C, V, R>::Reclaim { report: false }),
    {
        (
            FrameLoop {
                phase: Phase::Reclaiming,
                needs_recreate: false,
                chain: Chain::Now,
                origin,
                root_size,
                counter: 1,
                generation: Ghost(0),
            },
            Action::Reclaim { report: false },
        )
    }

    fn begin_next_exec(self) -> (r: (Self, Action<C, V, R>))
        requires
            self.wf(),
        ensures
            r == self.begin_next(),
            r.0.wf(),
    {
        let c: u64 = (self.counter + 1) % REPORT_PERIOD;
        (FrameLoop { phase: Phase::Reclaiming, counter: c, ..self }, Action::Reclaim { report: c == 0 })
    }

    fn halt_exec(self, f: Fault) -> (r: (Self, Action<C, V, R>))
        requires
            self.wf(),
        ensures
            r == self.halt(f),
            r.0.wf(),
    {
        (FrameLoop { phase: Phase::Failed(f), ..self }, Action::Fatal(f))
    }

    /// Takes the outcome of the last action and decides the next one.
    pub fn step(self, e: Event<C, V, R>) -> (r: (Self, Action<C, V, R>))
        requires
            self.wf(),
        ensures
            r == self.next(e),
            r.0.wf(),
    {
        let FrameLoop { phase, needs_recreate, chain, origin, root_size, counter, generation } =
            self;
        // The state without its phase, which each arm below sets.
        let s = FrameLoop {
            phase: Phase::Reclaiming,
            needs_recreate,
            chain,
            origin,
            root_size,
            counter,
            generation,
        };
        match phase {
            Phase::Stopped => (s.with_phase_exec(Phase::Stopped), Action::Stop),
            Phase::Failed(f) => (s.with_phase_exec(Phase::Failed(f)), Action::Fatal(f)),
            Phase::Reclaiming => match e {
                Event::Reclaimed => if needs_recreate {
                    (s.with_phase_exec(Phase::Recreating), Action::Recreate)
                } else {
                    (s.with_phase_exec(Phase::Acquiring), Action::Acquire)
                },
                _ => s.halt_exec(Fault::OutOfOrder),
            },
            Phase::Recreating => match e {
                Event::Recreated(ok) => if ok {
                    (FrameLoop { phase: Phase::Acquiring, needs_recreate: false, ..s }, Action::Acquire)
                } else {
                    s.begin_next_exec()
                },
                _ => s.halt_exec(Fault::OutOfOrder),
            },
            Phase::Acquiring => match e {
                Event::Acquired(AcquireOutcome::Ready) => (
                    s.with_phase_exec(Phase::Presenting),
                    Action::Draw { origin, root_size },
                ),
                Event::Acquired(AcquireOutcome::Stale) => FrameLoop {
                    needs_recreate: true,
                    ..s
                }.begin_next_exec(),
                Event::Acquired(AcquireOutcome::Failed) => s.halt_exec(Fault::AcquireFailed),
                _ => s.halt_exec(Fault::OutOfOrder),
            },
            Phase::Presenting => match e {
                Event::Presented(PresentOutcome::Flushed, pos) => (
                    FrameLoop { phase: Phase::Sending, chain: Chain::Pending, ..s },
                    Action::SendMove(pos),
                ),
                Event::Presented(PresentOutcome::Stale, pos) => (
                    FrameLoop { phase: Phase::Dropping(pos), needs_recreate: true, ..s },
                    Action::ResetChain,
                ),
                Event::Presented(PresentOutcome::Failed, pos) => (
                    s.with_phase_exec(Phase::Dropping(pos)),
                    Action::ResetChain,
                ),
                _ => s.halt_exec(Fault::OutOfOrder),
            },
            Phase::Dropping(pos) => match e {
                Event::ChainReset => (
                    FrameLoop { phase: Phase::Sending, chain: Chain::Now, ..s },
                    Action::SendMove(pos),
                ),
                _ => s.halt_exec(Fault::OutOfOrder),
            },
            Phase::Sending => match e {
                Event::Sent(ok) => if ok {
                    (s.with_phase_exec(Phase::Polling), Action::Poll)
                } else {
                    s.halt_exec(Fault::WorkerGone)
                },
                _ => s.halt_exec(Fault::OutOfOrder),
            },
            Phase::Polling => match e {
                Event::Received(Incoming::Empty) => (
                    s.with_phase_exec(Phase::Integrating),
                    Action::Integrate,
                ),
                Event::Received(Incoming::Message(ClientMessage::Submit(c, o, r))) => (
                    s.with_phase_exec(Phase::Draining(c, o, r)),
                    Action::FlushAndWait,
                ),
                Event::Received(Incoming::Message(ClientMessage::PlayerMove(_))) => s.halt_exec(
                    Fault::ProtocolViolation,
                ),
                Event::Received(Incoming::Disconnected) => s.halt_exec(Fault::WorkerGone),
                _ => s.halt_exec(Fault::OutOfOrder),
            },
            Phase::Draining(c, o, r) => match e {
                Event::Waited => (
                    FrameLoop { phase: Phase::Uploading(o, r), chain: Chain::Pending, ..s },
                    Action::Execute(c),
                ),
                _ => s.halt_exec(Fault::OutOfOrder),
            },
            Phase::Uploading(o, r) => match e {
                Event::Executed => (
                    s.with_phase_exec(Phase::Committing(o, r)),
                    Action::FlushAndWait,
                ),
                _ => s.halt_exec(Fault::OutOfOrder),
            },
            Phase::Committing(o, r) => match e {
                Event::Waited => (
                    FrameLoop {
                        phase: Phase::Settling,
                        origin: o,
                        root_size: r,
                        generation: Ghost((generation@ + 1) as nat),
                        ..s
                    },
                    Action::ResetChain,
                ),
                _ => s.halt_exec(Fault::OutOfOrder),
            },
            Phase::Settling => match e {
                Event::ChainReset => (
                    FrameLoop { phase: Phase::Integrating, chain: Chain::Now, ..s },
                    Action::Integrate,
                ),
                _ => s.halt_exec(Fault::OutOfOrder),
            },
            Phase::Integrating => match e {
                Event::InputDrained { resized, quit } => {
                    let t = FrameLoop { needs_recreate: needs_recreate || resized, ..s };
                    if quit {
                        (t.with_phase_exec(Phase::Stopped), Action::Stop)
                    } else {
                        t.begin_next_exec()
                    }
                },
                _ => s.halt_exec(Fault::OutOfOrder),
            },
        }
    }

    fn with_phase_exec(self, p: Phase<C, V, R>) -> (r: Self)
        ensures
            r == self.with_phase(p),
    {
        FrameLoop { phase: p, ..self }
    }
}

} // verus!
