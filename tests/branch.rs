use camrec::branch::{attach_plan, rollback_plan, GraphOp, MediaKind};
use camrec::teardown::{
    grace_ms, synchronous_teardown, Teardown, TeardownEvent, TeardownPhase, AV_GRACE_MS,
    VIDEO_GRACE_MS,
};

const V: MediaKind = MediaKind::Video;
const A: MediaKind = MediaKind::Audio;

#[test]
fn video_only_attach_plan() {
    assert_eq!(
        attach_plan(false),
        vec![GraphOp::InsertBranch, GraphOp::RequestConnection(V), GraphOp::Link(V), GraphOp::SyncState]
    );
}

#[test]
fn audio_video_attach_plan() {
    assert_eq!(
        attach_plan(true),
        vec![
            GraphOp::InsertBranch,
            GraphOp::RequestConnection(V),
            GraphOp::Link(V),
            GraphOp::RequestConnection(A),
            GraphOp::Link(A),
            GraphOp::SyncState,
        ]
    );
}

#[test]
fn failed_insert_needs_no_rollback() {
    assert_eq!(rollback_plan(&attach_plan(true), 0), vec![]);
}

#[test]
fn failed_audio_link_rolls_everything_back() {
    let plan = attach_plan(true);
    assert_eq!(
        rollback_plan(&plan, 4),
        vec![
            GraphOp::ReleaseConnection(A),
            GraphOp::Unlink(V),
            GraphOp::ReleaseConnection(V),
            GraphOp::RemoveBranch,
        ]
    );
}

#[test]
fn failed_sync_rolls_everything_back() {
    let plan = attach_plan(false);
    assert_eq!(
        rollback_plan(&plan, 3),
        vec![GraphOp::Unlink(V), GraphOp::ReleaseConnection(V), GraphOp::RemoveBranch]
    );
    assert_eq!(rollback_plan(&plan, 1), vec![GraphOp::RemoveBranch]);
}

#[test]
fn grace_is_longer_with_audio() {
    assert_eq!(grace_ms(false), VIDEO_GRACE_MS);
    assert_eq!(grace_ms(true), AV_GRACE_MS);
    assert!(AV_GRACE_MS > VIDEO_GRACE_MS);
}

#[test]
fn teardown_runs_through_its_phases() {
    let mut t = Teardown::new(true);
    assert_eq!(t.on_event(TeardownEvent::StopRequested), vec![GraphOp::ArmIdleBarrier]);
    assert_eq!(t.phase, TeardownPhase::BarrierArmed);
    assert_eq!(
        t.on_event(TeardownEvent::BarrierFired),
        vec![GraphOp::Unlink(V), GraphOp::Unlink(A), GraphOp::SendEndOfStream]
    );
    assert_eq!(t.phase, TeardownPhase::Unlinking);
    assert_eq!(t.on_event(TeardownEvent::Unlinked), vec![GraphOp::Wait(600)]);
    assert_eq!(t.phase, TeardownPhase::Draining);
    assert_eq!(
        t.on_event(TeardownEvent::GraceElapsed),
        vec![
            GraphOp::StopBranch,
            GraphOp::ReleaseConnection(V),
            GraphOp::ReleaseConnection(A),
            GraphOp::RemoveBranch,
        ]
    );
    assert_eq!(t.phase, TeardownPhase::Removed);
}

#[test]
fn barrier_fires_once() {
    let mut t = Teardown::new(false);
    t.on_event(TeardownEvent::StopRequested);
    assert_eq!(t.on_event(TeardownEvent::BarrierFired), vec![GraphOp::Unlink(V), GraphOp::SendEndOfStream]);
    assert_eq!(t.on_event(TeardownEvent::BarrierFired), vec![]);
    assert_eq!(t.phase, TeardownPhase::Unlinking);
}

#[test]
fn out_of_order_events_are_ignored() {
    let mut t = Teardown::new(false);
    assert_eq!(t.on_event(TeardownEvent::BarrierFired), vec![]);
    assert_eq!(t.on_event(TeardownEvent::GraceElapsed), vec![]);
    assert_eq!(t.phase, TeardownPhase::Attached);
    t.on_event(TeardownEvent::StopRequested);
    assert_eq!(t.on_event(TeardownEvent::StopRequested), vec![]);
    assert_eq!(t.phase, TeardownPhase::BarrierArmed);
}

#[test]
fn synchronous_teardown_video_only() {
    assert_eq!(
        synchronous_teardown(false),
        vec![
            GraphOp::Unlink(V),
            GraphOp::SendEndOfStream,
            GraphOp::Wait(300),
            GraphOp::StopBranch,
            GraphOp::ReleaseConnection(V),
            GraphOp::RemoveBranch,
        ]
    );
}

#[test]
fn synchronous_teardown_unlinks_both_before_end_of_stream() {
    let ops = synchronous_teardown(true);
    let eos = ops.iter().position(|o| *o == GraphOp::SendEndOfStream).unwrap();
    let ua = ops.iter().position(|o| *o == GraphOp::Unlink(A)).unwrap();
    let uv = ops.iter().position(|o| *o == GraphOp::Unlink(V)).unwrap();
    assert!(ua < eos && uv < eos);
    assert_eq!(ops[eos + 1], GraphOp::Wait(600));
    assert_eq!(*ops.last().unwrap(), GraphOp::RemoveBranch);
}
