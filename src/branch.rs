use vstd::prelude::*;

verus! {

/// The kind of media a fan-out connection carries.
#[derive(Debug, Clone, Copy, PartialEq, Eq, Structural)]
pub enum MediaKind {
    Video,
    Audio,
}

/// One operation on the live media graph, as the narrow graph interface
/// offers it. The executor performs it and reports whether it succeeded.
#[derive(Debug, Clone, Copy, PartialEq, Eq, Structural)]
pub enum GraphOp {
    /// Insert the recording branch into the pipeline as a sub-element.
    InsertBranch,
    /// Request a new dynamic output connection from the fan-out point of a kind.
    RequestConnection(MediaKind),
    /// Link that connection to the branch's entry point of the same kind.
    Link(MediaKind),
    /// Bring the branch to the running state of its parent.
    SyncState,
    /// Install the one-shot idle barrier on the video connection.
    ArmIdleBarrier,
    /// Unlink the connection from the branch's entry point.
    Unlink(MediaKind),
    /// Push an end-of-stream marker into the branch.
    SendEndOfStream,
    /// Wait the given number of milliseconds for the branch to drain.
    Wait(u64),
    /// Bring the branch to its stopped state.
    StopBranch,
    /// Give the dynamic connection back to its fan-out point.
    ReleaseConnection(MediaKind),
    /// Take the branch out of the pipeline.
    RemoveBranch,
}

/// A graph resource that a recording holds while attached.
#[derive(Debug, Clone, Copy, PartialEq, Eq, Structural)]
pub enum Holding {
    Branch,
    Connection(MediaKind),
    Linked(MediaKind),
}

/// The resource that `op` acquires, if it acquires one.
pub open spec fn acquires(op: GraphOp) -> Option<Holding> {
    match op {
        GraphOp::InsertBranch => Some(Holding::Branch),
        GraphOp::RequestConnection(k) => Some(Holding::Connection(k)),
        GraphOp::Link(k) => Some(Holding::Linked(k)),
        _ => None,
    }
}

/// The resource that `op` gives up, if it gives one up.
pub open spec fn releases(op: GraphOp) -> Option<Holding> {
    match op {
        GraphOp::RemoveBranch => Some(Holding::Branch),
        GraphOp::ReleaseConnection(k) => Some(Holding::Connection(k)),
        GraphOp::Unlink(k) => Some(Holding::Linked(k)),
        _ => None,
    }
}

/// The operation that undoes a successful `op`.
pub open spec fn undo(op: GraphOp) -> Option<GraphOp> {
    match op {
        GraphOp::InsertBranch => Some(GraphOp::RemoveBranch),
        GraphOp::RequestConnection(k) => Some(GraphOp::ReleaseConnection(k)),
        GraphOp::Link(k) => Some(GraphOp::Unlink(k)),
        _ => None,
    }
}

/// The resources held after `op` is performed with `held` in hand.
pub open spec fn apply(held: Set<Holding>, op: GraphOp) -> Set<Holding> {
    match acquires(op) {
        Some(h) => held.insert(h),
        None => match releases(op) {
            Some(h) => held.remove(h),
            None => held,
        },
    }
}

/// The resources held after `ops` are performed in order, starting from `held`.
pub open spec fn held_after(held: Set<Holding>, ops: Seq<GraphOp>) -> Set<Holding>
    decreases ops.len(),
{
    if ops.len() == 0 {
        held
    } else {
        apply(held_after(held, ops.drop_last()), ops.last())
    }
}

/// The operations that attach a recording branch: insert it, then request
/// and link the video connection, and the audio one when `audio`, then
/// bring the branch to the pipeline's running state.
pub open spec fn attach_steps(audio: bool) -> Seq<GraphOp> {
    let video = seq![
        GraphOp::InsertBranch,
        GraphOp::RequestConnection(MediaKind::Video),
        GraphOp::Link(MediaKind::Video),
    ];
    let sound = if audio {
        seq![GraphOp::RequestConnection(MediaKind::Audio), GraphOp::Link(MediaKind::Audio)]
    } else {
        Seq::empty()
    };
    video + sound + seq![GraphOp::SyncState]
}

/// What undoes the successful operations `done`: the inverse of each one that
/// acquired something, latest first.
pub open spec fn rollback_of(done: Seq<GraphOp>) -> Seq<GraphOp>
    decreases done.len(),
{
    if done.len() == 0 {
        Seq::empty()
    } else {
        match undo(done.last()) {
            Some(u) => seq![u] + rollback_of(done.drop_last()),
            None => rollback_of(done.drop_last()),
        }
    }
}

/// The resources that the full attach sequence leaves held.
pub open spec fn attached_holdings(audio: bool) -> Set<Holding> {
    let video = set![
        Holding::Branch,
        Holding::Connection(MediaKind::Video),
        Holding::Linked(MediaKind::Video),
    ];
    if audio {
        video.insert(Holding::Connection(MediaKind::Audio)).insert(Holding::Linked(MediaKind::Audio))
    } else {
        video
    }
}

/// The operations to attach a branch, in order.
pub fn attach_plan(audio: bool) -> (r: Vec<GraphOp>)
    ensures
        r@ == attach_steps(audio),
{
    let mut r: Vec<GraphOp> = Vec::new();
    r.push(GraphOp::InsertBranch);
    r.push(GraphOp::RequestConnection(MediaKind::Video));
    r.push(GraphOp::Link(MediaKind::Video));
    if audio {
        r.push(GraphOp::RequestConnection(MediaKind::Audio));
        r.push(GraphOp::Link(MediaKind::Audio));
    }
    r.push(GraphOp::SyncState);
    assert(r@ =~= attach_steps(audio));
    r
}

fn undo_op(op: GraphOp) -> (r: Option<GraphOp>)
    ensures
        r == undo(op),
{
    match op {
        GraphOp::InsertBranch => Some(GraphOp::RemoveBranch),
        GraphOp::RequestConnection(k) => Some(GraphOp::ReleaseConnection(k)),
        GraphOp::Link(k) => Some(GraphOp::Unlink(k)),
        _ => None,
    }
}

/// The operations that undo the first `succeeded` operations of `plan`, after
/// the next one failed: nothing of a partial attach is left in place.
pub fn rollback_plan(plan: &Vec<GraphOp>, succeeded: usize) -> (r: Vec<GraphOp>)
    requires
        succeeded <= plan@.len(),
    ensures
        r@ == rollback_of(plan@.take(succeeded as int)),
{
    let mut r: Vec<GraphOp> = Vec::new();
    let mut i: usize = succeeded;
    while i > 0
        invariant
            i <= succeeded <= plan@.len(),
            rollback_of(plan@.take(succeeded as int)) == r@ + rollback_of(plan@.take(i as int)),
        decreases i,
    {
        let ghost before = plan@.take(i as int);
        assert(before.drop_last() =~= plan@.take(i - 1));
        assert(before.last() == plan@[i - 1]);
        let ghost r0 = r@;
        match undo_op(plan[i - 1]) {
            Some(u) => {
                r.push(u);
                assert(seq![u] + rollback_of(plan@.take(i - 1)) == rollback_of(before));
                assert(r0 + (seq![u] + rollback_of(plan@.take(i - 1))) =~= r@ + rollback_of(plan@.take(i - 1)));
            },
            None => {},
        }
        i = i - 1;
    }
    assert(plan@.take(0) =~= Seq::<GraphOp>::empty());
    assert(r@ =~= r@ + rollback_of(plan@.take(0)));
    r
}

/// Every operation of `ops` is a forward step of an attach.
pub open spec fn forward_only(ops: Seq<GraphOp>) -> bool {
    forall|i: int| 0 <= i < ops.len() ==> releases(#[trigger] ops[i]) is None
}

/// Each resource that `ops` acquires is acquired once, and not already in `held`.
pub open spec fn fresh(held: Set<Holding>, ops: Seq<GraphOp>) -> bool {
    &&& forall|i: int| 0 <= i < ops.len() && acquires(#[trigger] ops[i]) is Some
        ==> !held.contains(acquires(ops[i])->0)
    &&& forall|i: int, j: int|
        0 <= i < ops.len() && 0 <= j < ops.len() && i != j && acquires(#[trigger] ops[i]) is Some
            ==> acquires(ops[i]) != acquires(#[trigger] ops[j])
}

/// Performing `a` and then `b` is performing `a + b`.
pub proof fn lemma_held_after_concat(held: Set<Holding>, a: Seq<GraphOp>, b: Seq<GraphOp>)
    ensures
        held_after(held, a + b) == held_after(held_after(held, a), b),
    decreases b.len(),
{
    if b.len() == 0 {
        assert(a + b =~= a);
    } else {
        assert((a + b).drop_last() =~= a + b.drop_last());
        assert((a + b).last() == b.last());
        lemma_held_after_concat(held, a, b.drop_last());
    }
}

proof fn lemma_forward_members(held: Set<Holding>, ops: Seq<GraphOp>, h: Holding)
    requires
        forward_only(ops),
        held_after(held, ops).contains(h),
    ensures
        held.contains(h) || exists|i: int| 0 <= i < ops.len() && acquires(#[trigger] ops[i]) == Some(h),
    decreases ops.len(),
{
    if ops.len() > 0 {
        let rest = ops.drop_last();
        assert(forward_only(rest)) by {
            assert forall|i: int| 0 <= i < rest.len() implies releases(#[trigger] rest[i]) is None by {
                assert(rest[i] == ops[i]);
            }
        }
        assert(releases(ops[ops.len() - 1]) is None);
        if acquires(ops.last()) == Some(h) {
            assert(acquires(ops[ops.len() - 1]) == Some(h));
        } else {
            lemma_forward_members(held, rest, h);
            if !held.contains(h) {
                let i = choose|i: int| 0 <= i < rest.len() && acquires(#[trigger] rest[i]) == Some(h);
                assert(ops[i] == rest[i]);
            }
        }
    }
}

/// Undoing the successful steps of a partial attach, with `rollback_of`,
/// gives back every resource they acquired and nothing else.
pub proof fn lemma_rollback_restores(held: Set<Holding>, done: Seq<GraphOp>)
    requires
        forward_only(done),
        fresh(held, done),
    ensures
        held_after(held, done + rollback_of(done)) == held,
    decreases done.len(),
{
    if done.len() == 0 {
        assert(done + rollback_of(done) =~= done);
    } else {
        let rest = done.drop_last();
        let x = done.last();
        assert(x == done[done.len() - 1]);
        assert(forward_only(rest)) by {
            assert forall|i: int| 0 <= i < rest.len() implies releases(#[trigger] rest[i]) is None by {
                assert(rest[i] == done[i]);
            }
        }
        assert(fresh(held, rest)) by {
            assert forall|i: int| 0 <= i < rest.len() && acquires(#[trigger] rest[i]) is Some
                implies !held.contains(acquires(rest[i])->0) by {
                assert(rest[i] == done[i]);
            }
            assert forall|i: int, j: int|
                0 <= i < rest.len() && 0 <= j < rest.len() && i != j && acquires(#[trigger] rest[i]) is Some
                implies acquires(rest[i]) != acquires(#[trigger] rest[j]) by {
                assert(rest[i] == done[i]);
                assert(rest[j] == done[j]);
            }
        }
        lemma_rollback_restores(held, rest);
        let t = held_after(held, rest);
        assert(held_after(held, rest + rollback_of(rest)) == held);
        lemma_held_after_concat(held, rest, rollback_of(rest));
        match undo(x) {
            Some(u) => {
                let h = acquires(x)->0;
                assert(!t.contains(h)) by {
                    if t.contains(h) {
                        lemma_forward_members(held, rest, h);
                        if !held.contains(h) {
                            let i = choose|i: int| 0 <= i < rest.len() && acquires(#[trigger] rest[i]) == Some(h);
                            assert(rest[i] == done[i]);
                            assert(acquires(done[i]) == acquires(done[done.len() - 1]));
                        }
                    }
                }
                let two = rest + seq![x, u];
                assert(done + rollback_of(done) =~= two + rollback_of(rest));
                lemma_held_after_concat(held, two, rollback_of(rest));
                assert(two.drop_last() =~= rest.push(x));
                assert(rest.push(x).drop_last() =~= rest);
                assert(apply(apply(t, x), u) =~= t);
                assert(two.last() == u);
                assert(held_after(held, rest.push(x)) == apply(t, x));
                assert(held_after(held, two) == apply(held_after(held, rest.push(x)), u));
                assert(held_after(held, two) == t);
            },
            None => {
                assert(done + rollback_of(done) =~= rest.push(x) + rollback_of(rest));
                lemma_held_after_concat(held, rest.push(x), rollback_of(rest));
                assert(rest.push(x).drop_last() =~= rest);
                assert(apply(t, x) =~= t);
                assert(rest.push(x).last() == x);
                assert(held_after(held, rest.push(x)) == apply(t, x));
            },
        }
    }
}

/// A failed attach leaves nothing in place: for any step of the attach that
/// fails, the steps before it followed by their rollback hold no resource.
pub proof fn lemma_failed_attach_holds_nothing(audio: bool, failed_at: nat)
    requires
        failed_at < attach_steps(audio).len(),
    ensures
        ({
            let done = attach_steps(audio).take(failed_at as int);
            held_after(Set::empty(), done + rollback_of(done)) == Set::<Holding>::empty()
        }),
{
    let steps = attach_steps(audio);
    let done = steps.take(failed_at as int);
    assert(forward_only(done)) by {
        assert forall|i: int| 0 <= i < done.len() implies releases(#[trigger] done[i]) is None by {
            assert(done[i] == steps[i]);
        }
    }
    assert(fresh(Set::empty(), done)) by {
        assert forall|i: int, j: int|
            0 <= i < done.len() && 0 <= j < done.len() && i != j && acquires(#[trigger] done[i]) is Some
            implies acquires(done[i]) != acquires(#[trigger] done[j]) by {
            assert(done[i] == steps[i]);
            assert(done[j] == steps[j]);
        }
    }
    lemma_rollback_restores(Set::empty(), done);
}

} // verus!
