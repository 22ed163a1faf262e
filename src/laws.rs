//! Properties of the frame loop that hold across transitions.
use vstd::prelude::*;
use crate::frame::{AcquireOutcome, Action, Chain, Event, Fault, FrameLoop, Phase, PresentOutcome};
use crate::protocol::{ClientMessage, Incoming};
use crate::worker::{Delivery, Worker, WorkerAction, WorkerEvent};

verus! {

/// No draw observes the spatial index buffer mid-write: a draw is never
/// issued while an upload may be in flight, and it carries the origin and root
/// size of the last committed update; an upload starts only after the chain of
/// earlier draws was waited for; and a write stops being in flight only through
/// the second wait, which commits it.
pub proof fn lemma_no_tear<C, V, R>(s: FrameLoop<C, V, R>, e: Event<C, V, R>)
    requires
        s.wf(),
    ensures
        s.next(e).1 is Draw ==> !s.phase.writing() && !s.next(e).0.phase.writing(),
        s.next(e).1 is Draw ==> s.next(e).1 == (Action::<C, V, R>::Draw {
            origin: s.origin,
            root_size: s.root_size,
        }),
        s.next(e).1 is Execute ==> (s.phase is Draining && e is Waited),
        s.next(e).0.phase.writing() && !s.phase.writing() ==> (s.phase is Draining && e is Waited),
        s.phase.writing() && !s.next(e).0.phase.writing() && !(s.next(e).0.phase is Failed) ==> {
            &&& s.phase is Committing
            &&& e is Waited
            &&& s.next(e).0.generation@ == s.generation@ + 1
        },
{
}

/// A received update is applied exactly once and whole: after the barrier
/// (wait, upload, wait, reset) the origin and root size are exactly those of
/// the update, the committed generation has advanced by one, and the next draw
/// carries them.
pub proof fn lemma_single_apply<C, V, R>(s: FrameLoop<C, V, R>, c: C, o: V, r: R)
    requires
        s.wf(),
        s.phase is Polling,
    ensures
        ({
            let (s1, a1) = s.next(Event::Received(Incoming::Message(ClientMessage::Submit(c, o, r))));
            let (s2, a2) = s1.next(Event::Waited);
            let (s3, a3) = s2.next(Event::Executed);
            let (s4, a4) = s3.next(Event::Waited);
            let (s5, a5) = s4.next(Event::ChainReset);
            &&& a1 == Action::<C, V, R>::FlushAndWait
            &&& a2 == Action::<C, V, R>::Execute(c)
            &&& a3 == Action::<C, V, R>::FlushAndWait
            &&& a4 == Action::<C, V, R>::ResetChain
            &&& a5 == Action::<C, V, R>::Integrate
            &&& s5.origin == o
            &&& s5.root_size == r
            &&& s5.generation@ == s.generation@ + 1
            &&& s5.chain == Chain::Now
            &&& s5.phase is Integrating
        }),
{
}

/// Origin and root size change together and only at the commit of an update,
/// which advances the generation by exactly one; no other step changes the
/// generation.
pub proof fn lemma_params_change_only_on_commit<C, V, R>(s: FrameLoop<C, V, R>, e: Event<C, V, R>)
    requires
        s.wf(),
    ensures
        s.next(e).0.generation@ != s.generation@ ==> {
            &&& s.phase is Committing
            &&& e is Waited
            &&& s.next(e).0.generation@ == s.generation@ + 1
        },
        s.next(e).0.origin != s.origin || s.next(e).0.root_size != s.root_size
            ==> s.next(e).0.generation@ == s.generation@ + 1,
        e is Waited ==> (s.phase matches Phase::Committing(o, r) ==> {
            &&& s.next(e).0.origin == o
            &&& s.next(e).0.root_size == r
        }),
{
}

/// The player position is sent exactly once in an iteration that gets past
/// submission: a `SendMove` is issued exactly when the phase crosses from
/// not-yet-moved to moved, the moved mark clears only where an iteration ends,
/// and the position sent is the camera position reported with the submission.
pub proof fn lemma_one_move_per_iteration<C, V, R>(s: FrameLoop<C, V, R>, e: Event<C, V, R>)
    requires
        s.wf(),
    ensures
        (s.next(e).1 is SendMove) == (!s.phase.moved() && s.next(e).0.phase.moved()),
        s.phase.moved() && !s.next(e).0.phase.moved() ==> {
            ||| s.next(e).1 is Reclaim
            ||| s.next(e).1 is Stop
            ||| s.next(e).1 is Fatal
        },
        s.next(e).1 is Reclaim ==> !s.next(e).0.phase.moved(),
        s.phase is Presenting ==> (e matches Event::Presented(PresentOutcome::Flushed, p)
            ==> s.next(e).1 == Action::<C, V, R>::SendMove(p)),
        s.phase is Presenting ==> (e matches Event::Presented(_, p) ==> {
            ||| s.next(e).1 == Action::<C, V, R>::SendMove(p)
            ||| s.next(e).0.phase == Phase::<C, V, R>::Dropping(p)
        }),
        e is ChainReset ==> (s.phase matches Phase::Dropping(p)
            ==> s.next(e).1 == Action::<C, V, R>::SendMove(p)),
{
}

/// A stale surface at acquisition skips the iteration with no draw; the next
/// iteration recreates the swapchain before it acquires again; a failed
/// recreation skips that iteration too and leaves origin and root size as they
/// were, and a successful one goes on to acquire.
pub proof fn lemma_stale_surface_recovery<C, V, R>(s: FrameLoop<C, V, R>)
    requires
        s.wf(),
        s.phase is Acquiring,
    ensures
        ({
            let (s1, a1) = s.next(Event::Acquired(AcquireOutcome::Stale));
            let (s2, a2) = s1.next(Event::Reclaimed);
            let (s3, a3) = s2.next(Event::Recreated(false));
            let (s4, a4) = s2.next(Event::Recreated(true));
            &&& a1 is Reclaim
            &&& s1.needs_recreate
            &&& s1.origin == s.origin && s1.root_size == s.root_size
            &&& a2 == Action::<C, V, R>::Recreate
            &&& a3 is Reclaim
            &&& s3.needs_recreate
            &&& s3.origin == s.origin && s3.root_size == s.root_size
            &&& a4 == Action::<C, V, R>::Acquire
            &&& !s4.needs_recreate
        }),
{
}

/// A message of the wrong shape from the worker, or a closed channel, ends the
/// process at once, and every later step repeats the same fatal action.
pub proof fn lemma_protocol_strictness<C, V, R>(s: FrameLoop<C, V, R>, v: V, e: Event<C, V, R>)
    requires
        s.wf(),
        s.phase is Polling,
    ensures
        ({
            let (t, a) = s.next(Event::Received(Incoming::Message(ClientMessage::PlayerMove(v))));
            &&& a == Action::<C, V, R>::Fatal(Fault::ProtocolViolation)
            &&& t.next(e).1 == Action::<C, V, R>::Fatal(Fault::ProtocolViolation)
        }),
        s.next(Event::Received(Incoming::Disconnected)).1 == Action::<C, V, R>::Fatal(
            Fault::WorkerGone,
        ),
{
}

/// The worker holds at most one update at a time: a rebuild starts only after
/// a check from idle, an update leaves the worker's hands only when it is
/// delivered (or the worker stops or fails), and an update is offered only right after
/// it was built or while it waits for the earlier one to be consumed.
pub proof fn lemma_single_outstanding<C, V, R>(s: Worker<C, V, R>, e: WorkerEvent<C, V, R>)
    ensures
        s.next(e).1 is Build ==> (s.phase is Checking),
        s.next(e).0.phase is Checking ==> (s.phase is Idle),
        s.phase.holds_update() && !s.next(e).0.phase.holds_update() ==> {
            ||| s.phase is Offering && e == WorkerEvent::<C, V, R>::Offered(Delivery::Delivered)
            ||| s.next(e).0.phase is Stopped
            ||| s.next(e).0.phase is Failed
        },
        s.next(e).1 is Offer ==> (s.phase is Building || s.phase is ReadyToSubmit),
        s.next(e).0.phase.holds_update() ==> (s.phase.holds_update() || s.phase is Building),
{
}

/// A received position only replaces the reference position: it starts no
/// rebuild, and every check and rebuild uses the most recent position.
pub proof fn lemma_latest_position<C, V, R>(s: Worker<C, V, R>, v: V, e: WorkerEvent<C, V, R>)
    requires
        s.phase.listening(),
    ensures
        ({
            let (t, a) = s.next(WorkerEvent::Received(ClientMessage::PlayerMove(v)));
            &&& t.reference == v
            &&& t.phase == s.phase
            &&& a == WorkerAction::<C, V, R>::Listen
        }),
        !(e is Received) ==> s.next(e).0.reference == s.reference,
        s.next(e).1 is Check ==> s.next(e).1 == WorkerAction::<C, V, R>::Check(s.reference),
        s.next(e).1 is Build ==> s.next(e).1 == WorkerAction::<C, V, R>::Build(s.reference),
{
}

/// A `Submit` sent to the worker ends the worker at once, and every later step
/// repeats the same fatal action.
pub proof fn lemma_worker_protocol_strictness<C, V, R>(
    s: Worker<C, V, R>,
    c: C,
    o: V,
    r: R,
    e: WorkerEvent<C, V, R>,
)
    requires
        s.phase.listening(),
    ensures
        ({
            let (t, a) = s.next(WorkerEvent::Received(ClientMessage::Submit(c, o, r)));
            &&& a == WorkerAction::<C, V, R>::Fatal(Fault::ProtocolViolation)
            &&& t.next(e).1 == WorkerAction::<C, V, R>::Fatal(Fault::ProtocolViolation)
        }),
{
}

} // verus!
