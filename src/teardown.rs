use vstd::prelude::*;

use crate::branch::{
    attach_steps, held_after, lemma_held_after_concat, GraphOp, Holding, MediaKind,
};

verus! {

/// Drain time for a video-only branch, in milliseconds.
pub const VIDEO_GRACE_MS: u64 = 300;

/// Drain time for a branch that multiplexes audio and video, in milliseconds.
pub const AV_GRACE_MS: u64 = 600;

/// The phases of an idle-barrier teardown of an attached branch.
#[derive(Debug, Clone, Copy, PartialEq, Eq, Structural)]
pub enum TeardownPhase {
    Attached,
    BarrierArmed,
    Unlinking,
    Draining,
    Removed,
}

/// What moves a teardown from one phase to the next.
#[derive(Debug, Clone, Copy, PartialEq, Eq, Structural)]
pub enum TeardownEvent {
    /// A `Stop` reached the supervisor.
    StopRequested,
    /// The idle barrier on the video connection fired.
    BarrierFired,
    /// The connections were unlinked and the end-of-stream marker pushed.
    Unlinked,
    /// The grace period ran out on the cleanup worker.
    GraceElapsed,
}

/// The state of one branch's teardown.
#[derive(Debug, Clone, Copy, PartialEq, Eq, Structural)]
pub struct Teardown {
    pub phase: TeardownPhase,
    /// Whether the branch also records audio.
    pub audio: bool,
}

pub open spec fn grace(audio: bool) -> u64 {
    if audio {
        AV_GRACE_MS
    } else {
        VIDEO_GRACE_MS
    }
}

/// What the barrier callback does: unlink every connection, then push the
/// end-of-stream marker, so that no track ends ahead of another.
pub open spec fn unlink_ops(audio: bool) -> Seq<GraphOp> {
    let sound = if audio {
        seq![GraphOp::Unlink(MediaKind::Audio)]
    } else {
        Seq::empty()
    };
    seq![GraphOp::Unlink(MediaKind::Video)] + sound + seq![GraphOp::SendEndOfStream]
}

/// What the cleanup worker does once the grace period is over.
pub open spec fn removal_ops(audio: bool) -> Seq<GraphOp> {
    let sound = if audio {
        seq![GraphOp::ReleaseConnection(MediaKind::Audio)]
    } else {
        Seq::empty()
    };
    seq![GraphOp::StopBranch, GraphOp::ReleaseConnection(MediaKind::Video)] + sound
        + seq![GraphOp::RemoveBranch]
}

/// The next phase and the operations to perform when `ev` comes in `phase`.
/// An event that does not belong to the phase changes nothing.
pub open spec fn teardown_step(phase: TeardownPhase, audio: bool, ev: TeardownEvent) -> (
    TeardownPhase,
    Seq<GraphOp>,
) {
    match (phase, ev) {
        (TeardownPhase::Attached, TeardownEvent::StopRequested) => (
            TeardownPhase::BarrierArmed,
            seq![GraphOp::ArmIdleBarrier],
        ),
        (TeardownPhase::BarrierArmed, TeardownEvent::BarrierFired) => (
            TeardownPhase::Unlinking,
            unlink_ops(audio),
        ),
        (TeardownPhase::Unlinking, TeardownEvent::Unlinked) => (
            TeardownPhase::Draining,
            seq![GraphOp::Wait(grace(audio))],
        ),
        (TeardownPhase::Draining, TeardownEvent::GraceElapsed) => (
            TeardownPhase::Removed,
            removal_ops(audio),
        ),
        _ => (phase, Seq::empty()),
    }
}

/// The teardown that the supervisor performs inline on shutdown: the same
/// operations as the barrier-driven one, without the barrier.
pub open spec fn synchronous_ops(audio: bool) -> Seq<GraphOp> {
    unlink_ops(audio) + seq![GraphOp::Wait(grace(audio))] + removal_ops(audio)
}

/// The operations of a whole barrier-driven teardown, event after event.
pub open spec fn deferred_ops(audio: bool) -> Seq<GraphOp> {
    seq![GraphOp::ArmIdleBarrier] + synchronous_ops(audio)
}

pub fn grace_ms(audio: bool) -> (r: u64)
    ensures
        r == grace(audio),
{
    if audio {
        AV_GRACE_MS
    } else {
        VIDEO_GRACE_MS
    }
}

fn push_unlinks(ops: &mut Vec<GraphOp>, audio: bool)
    ensures
        final(ops)@ == old(ops)@ + unlink_ops(audio),
{
    ops.push(GraphOp::Unlink(MediaKind::Video));
    if audio {
        ops.push(GraphOp::Unlink(MediaKind::Audio));
    }
    ops.push(GraphOp::SendEndOfStream);
    assert(ops@ =~= old(ops)@ + unlink_ops(audio));
}

fn push_removals(ops: &mut Vec<GraphOp>, audio: bool)
    ensures
        final(ops)@ == old(ops)@ + removal_ops(audio),
{
    ops.push(GraphOp::StopBranch);
    ops.push(GraphOp::ReleaseConnection(MediaKind::Video));
    if audio {
        ops.push(GraphOp::ReleaseConnection(MediaKind::Audio));
    }
    ops.push(GraphOp::RemoveBranch);
    assert(ops@ =~= old(ops)@ + removal_ops(audio));
}

/// The operations of the inline teardown used on shutdown.
pub fn synchronous_teardown(audio: bool) -> (r: Vec<GraphOp>)
    ensures
        r@ == synchronous_ops(audio),
{
    let mut r: Vec<GraphOp> = Vec::new();
    push_unlinks(&mut r, audio);
    r.push(GraphOp::Wait(grace_ms(audio)));
    push_removals(&mut r, audio);
    assert(r@ =~= synchronous_ops(audio));
    r
}

impl Teardown {
    /// The teardown state of a freshly attached branch.
    pub fn new(audio: bool) -> (r: Self)
        ensures
            r.phase == TeardownPhase::Attached,
            r.audio == audio,
    {
        Teardown { phase: TeardownPhase::Attached, audio }
    }

    /// Moves the teardown on by `ev` and returns the operations to perform.
    pub fn on_event(&mut self, ev: TeardownEvent) -> (r: Vec<GraphOp>)
        ensures
            (final(self).phase, r@) == teardown_step(old(self).phase, old(self).audio, ev),
            final(self).audio == old(self).audio,
    {
        let mut r: Vec<GraphOp> = Vec::new();
        match (self.phase, ev) {
            (TeardownPhase::Attached, TeardownEvent::StopRequested) => {
                self.phase = TeardownPhase::BarrierArmed;
                r.push(GraphOp::ArmIdleBarrier);
                assert(r@ =~= seq![GraphOp::ArmIdleBarrier]);
            },
            (TeardownPhase::BarrierArmed, TeardownEvent::BarrierFired) => {
                self.phase = TeardownPhase::Unlinking;
                push_unlinks(&mut r, self.audio);
                assert(r@ =~= unlink_ops(self.audio));
            },
            (TeardownPhase::Unlinking, TeardownEvent::Unlinked) => {
                self.phase = TeardownPhase::Draining;
                r.push(GraphOp::Wait(grace_ms(self.audio)));
                assert(r@ =~= seq![GraphOp::Wait(grace(self.audio))]);
            },
            (TeardownPhase::Draining, TeardownEvent::GraceElapsed) => {
                self.phase = TeardownPhase::Removed;
                push_removals(&mut r, self.audio);
                assert(r@ =~= removal_ops(self.audio));
            },
            _ => {
                assert(r@ =~= Seq::<GraphOp>::empty());
            },
        }
        r
    }
}

/// The idle barrier acts at most once: once it has fired, firing again
/// changes nothing and asks for no operation.
pub proof fn lemma_barrier_fires_once(audio: bool)
    ensures
        ({
            let (p, ops) = teardown_step(TeardownPhase::BarrierArmed, audio, TeardownEvent::BarrierFired);
            let (q, again) = teardown_step(p, audio, TeardownEvent::BarrierFired);
            &&& ops == unlink_ops(audio)
            &&& q == p
            &&& again.len() == 0
        }),
{
}

/// Driving a teardown through its four events in order reaches `Removed` and
/// performs exactly the operations of `deferred_ops`.
pub proof fn lemma_teardown_runs_through(audio: bool)
    ensures
        ({
            let (p1, o1) = teardown_step(TeardownPhase::Attached, audio, TeardownEvent::StopRequested);
            let (p2, o2) = teardown_step(p1, audio, TeardownEvent::BarrierFired);
            let (p3, o3) = teardown_step(p2, audio, TeardownEvent::Unlinked);
            let (p4, o4) = teardown_step(p3, audio, TeardownEvent::GraceElapsed);
            &&& p4 == TeardownPhase::Removed
            &&& o1 + o2 + o3 + o4 == deferred_ops(audio)
        }),
{
    assert(seq![GraphOp::ArmIdleBarrier] + unlink_ops(audio) + seq![GraphOp::Wait(grace(audio))]
        + removal_ops(audio) =~= deferred_ops(audio));
}

proof fn lemma_attach_holds(audio: bool)
    ensures
        held_after(Set::empty(), attach_steps(audio)) == crate::branch::attached_holdings(audio),
{
    reveal_with_fuel(held_after, 8);
    let s = attach_steps(audio);
    assert(held_after(Set::empty(), s) =~= crate::branch::attached_holdings(audio));
}

proof fn lemma_synchronous_releases(audio: bool)
    ensures
        held_after(crate::branch::attached_holdings(audio), synchronous_ops(audio)) == Set::<Holding>::empty(),
{
    let h = crate::branch::attached_holdings(audio);
    let u = unlink_ops(audio);
    let w = seq![GraphOp::Wait(grace(audio))];
    let r = removal_ops(audio);
    lemma_held_after_concat(h, u + w, r);
    lemma_held_after_concat(h, u, w);
    reveal_with_fuel(held_after, 5);
    let h1 = held_after(h, u);
    if audio {
        assert(h1 =~= set![Holding::Branch, Holding::Connection(MediaKind::Video), Holding::Connection(MediaKind::Audio)]);
    } else {
        assert(h1 =~= set![Holding::Branch, Holding::Connection(MediaKind::Video)]);
    }
    assert(held_after(h1, w) == h1);
    assert(held_after(h1, r) =~= Set::<Holding>::empty());
}

/// A branch that was attached and then torn down, by the idle barrier or
/// inline on shutdown, leaves no resource behind in the pipeline.
pub proof fn lemma_attach_then_teardown_holds_nothing(audio: bool)
    ensures
        held_after(Set::empty(), attach_steps(audio) + deferred_ops(audio)) == Set::<Holding>::empty(),
        held_after(Set::empty(), attach_steps(audio) + synchronous_ops(audio)) == Set::<Holding>::empty(),
{
    let h = crate::branch::attached_holdings(audio);
    let arm = seq![GraphOp::ArmIdleBarrier];
    lemma_attach_holds(audio);
    lemma_synchronous_releases(audio);
    lemma_held_after_concat(Set::empty(), attach_steps(audio), deferred_ops(audio));
    lemma_held_after_concat(Set::empty(), attach_steps(audio), synchronous_ops(audio));
    lemma_held_after_concat(h, arm, synchronous_ops(audio));
    reveal_with_fuel(held_after, 2);
    assert(held_after(h, arm) == h);
}

} // verus!
