use camrec::attach::{AttachRun, AttachStatus};
use camrec::branch::{GraphOp, MediaKind};

/// Runs an attach whose operations succeed except the ones that `fails` picks,
/// and returns every operation asked for with the final status.
fn drive(audio: bool, fails: impl Fn(usize, GraphOp) -> bool) -> (Vec<GraphOp>, AttachStatus) {
    let mut run = AttachRun::new(audio);
    let mut ops = Vec::new();
    while let Some(op) = run.next_op() {
        let ok = !fails(ops.len(), op);
        ops.push(op);
        run.report(ok);
    }
    (ops, run.status())
}

#[test]
fn attach_succeeds_when_every_step_does() {
    let (ops, status) = drive(false, |_, _| false);
    assert_eq!(status, AttachStatus::Attached);
    assert_eq!(
        ops,
        vec![
            GraphOp::InsertBranch,
            GraphOp::RequestConnection(MediaKind::Video),
            GraphOp::Link(MediaKind::Video),
            GraphOp::SyncState,
        ]
    );
}

#[test]
fn failed_insert_leaves_graph_untouched() {
    let (ops, status) = drive(true, |_, op| op == GraphOp::InsertBranch);
    assert_eq!(status, AttachStatus::RolledBack);
    assert_eq!(ops, vec![GraphOp::InsertBranch]);
}

#[test]
fn failed_audio_link_is_rolled_back() {
    let (ops, status) = drive(true, |_, op| op == GraphOp::Link(MediaKind::Audio));
    assert_eq!(status, AttachStatus::RolledBack);
    assert_eq!(
        ops,
        vec![
            GraphOp::InsertBranch,
            GraphOp::RequestConnection(MediaKind::Video),
            GraphOp::Link(MediaKind::Video),
            GraphOp::RequestConnection(MediaKind::Audio),
            GraphOp::Link(MediaKind::Audio),
            GraphOp::ReleaseConnection(MediaKind::Audio),
            GraphOp::Unlink(MediaKind::Video),
            GraphOp::ReleaseConnection(MediaKind::Video),
            GraphOp::RemoveBranch,
        ]
    );
}

#[test]
fn failing_rollback_steps_still_complete_the_rollback() {
    let (ops, status) = drive(false, |i, _| i >= 2);
    assert_eq!(status, AttachStatus::RolledBack);
    assert_eq!(
        ops,
        vec![
            GraphOp::InsertBranch,
            GraphOp::RequestConnection(MediaKind::Video),
            GraphOp::Link(MediaKind::Video),
            GraphOp::ReleaseConnection(MediaKind::Video),
            GraphOp::RemoveBranch,
        ]
    );
}

#[test]
fn new_run_is_running() {
    let run = AttachRun::new(false);
    assert_eq!(run.status(), AttachStatus::Running);
    assert_eq!(run.next_op(), Some(GraphOp::InsertBranch));
}
