use vstd::prelude::*;

use crate::branch::{
    attach_plan, attach_steps, held_after, lemma_failed_attach_holds_nothing, rollback_of,
    rollback_plan, GraphOp, Holding,
};

verus! {

/// How an attach run stands.
#[derive(Debug, Clone, Copy, PartialEq, Eq, Structural)]
pub enum AttachStatus {
    /// Operations remain to be performed.
    Running,
    /// Every step succeeded: the branch is attached.
    Attached,
    /// A step failed and everything before it has been undone.
    RolledBack,
}

/// The abstract state of an attach run: how many steps succeeded, the step
/// that failed if one did, and how many rollback operations were performed.
pub struct AttachView {
    pub audio: bool,
    pub succeeded: nat,
    pub failed_at: Option<nat>,
    pub undone: nat,
}

/// The rollback owed when step `i` of the attach failed.
pub open spec fn owed_rollback(audio: bool, i: nat) -> Seq<GraphOp> {
    rollback_of(attach_steps(audio).take(i as int))
}

/// The operation an attach run in state `v` asks for next, if any.
pub open spec fn next_of(v: AttachView) -> Option<GraphOp> {
    match v.failed_at {
        None => if v.succeeded < attach_steps(v.audio).len() {
            Some(attach_steps(v.audio)[v.succeeded as int])
        } else {
            None
        },
        Some(i) => if v.undone < owed_rollback(v.audio, i).len() {
            Some(owed_rollback(v.audio, i)[v.undone as int])
        } else {
            None
        },
    }
}

pub open spec fn status_of(v: AttachView) -> AttachStatus {
    if next_of(v) is Some {
        AttachStatus::Running
    } else if v.failed_at is None {
        AttachStatus::Attached
    } else {
        AttachStatus::RolledBack
    }
}

/// The state after the executor reports `ok` for the operation asked for.
/// A failed forward step starts the rollback; a rollback operation counts
/// as done whether or not it succeeded.
pub open spec fn reported(v: AttachView, ok: bool) -> AttachView {
    match v.failed_at {
        None => if ok {
            AttachView { succeeded: v.succeeded + 1, ..v }
        } else {
            AttachView { failed_at: Some(v.succeeded), ..v }
        },
        Some(_) => AttachView { undone: v.undone + 1, ..v },
    }
}

/// Drives the attach of a recording branch: hands out the attach steps one
/// by one and, at the first failure, the operations that undo the steps
/// that succeeded, so that no partial attach is left in place.
pub struct AttachRun {
    audio: bool,
    plan: Vec<GraphOp>,
    undo: Vec<GraphOp>,
    succeeded: usize,
    failed: bool,
    failed_at: usize,
    undone: usize,
}

impl View for AttachRun {
    type V = AttachView;

    closed spec fn view(&self) -> AttachView {
        AttachView {
            audio: self.audio,
            succeeded: self.succeeded as nat,
            failed_at: if self.failed {
                Some(self.failed_at as nat)
            } else {
                None
            },
            undone: self.undone as nat,
        }
    }
}

impl AttachRun {
    pub closed spec fn wf(&self) -> bool {
        &&& self.plan@ == attach_steps(self.audio)
        &&& self.succeeded <= self.plan@.len()
        &&& self.failed ==> {
            &&& self.failed_at == self.succeeded
            &&& self.failed_at < self.plan@.len()
            &&& self.undo@ == owed_rollback(self.audio, self.failed_at as nat)
            &&& self.undone <= self.undo@.len()
        }
        &&& !self.failed ==> self.undone == 0
    }

    /// A run that has performed nothing yet.
    pub fn new(audio: bool) -> (r: Self)
        ensures
            r.wf(),
            r@ == (AttachView { audio, succeeded: 0, failed_at: None, undone: 0 }),
    {
        AttachRun {
            audio,
            plan: attach_plan(audio),
            undo: Vec::new(),
            succeeded: 0,
            failed: false,
            failed_at: 0,
            undone: 0,
        }
    }

    /// The next operation to perform, or `None` when the run is over.
    pub fn next_op(&self) -> (r: Option<GraphOp>)
        requires
            self.wf(),
        ensures
            r == next_of(self@),
    {
        if !self.failed {
            if self.succeeded < self.plan.len() {
                Some(self.plan[self.succeeded])
            } else {
                None
            }
        } else if self.undone < self.undo.len() {
            Some(self.undo[self.undone])
        } else {
            None
        }
    }

    /// Records the outcome of the operation that `next_op` asked for.
    pub fn report(&mut self, ok: bool)
        requires
            old(self).wf(),
            next_of(old(self)@) is Some,
        ensures
            final(self).wf(),
            final(self)@ == reported(old(self)@, ok),
    {
        if !self.failed {
            if ok {
                self.succeeded = self.succeeded + 1;
            } else {
                self.failed = true;
                self.failed_at = self.succeeded;
                self.undo = rollback_plan(&self.plan, self.succeeded);
            }
        } else if self.undone < self.undo.len() {
            self.undone = self.undone + 1;
        }
    }

    pub fn status(&self) -> (r: AttachStatus)
        requires
            self.wf(),
        ensures
            r == status_of(self@),
    {
        match self.next_op() {
            Some(_) => AttachStatus::Running,
            None => if self.failed {
                AttachStatus::RolledBack
            } else {
                AttachStatus::Attached
            },
        }
    }
}

/// How an attach run ends: `Attached` only after every step succeeded, and
/// `RolledBack` only after the whole rollback owed for the failed step was
/// performed, which leaves no resource of the branch in the pipeline.
pub proof fn lemma_attach_run_outcome(v: AttachView)
    requires
        v.succeeded <= attach_steps(v.audio).len(),
        v.failed_at is Some ==> v.failed_at->0 == v.succeeded && v.succeeded < attach_steps(v.audio).len(),
    ensures
        status_of(v) == AttachStatus::Attached ==> v.succeeded == attach_steps(v.audio).len(),
        status_of(v) == AttachStatus::RolledBack ==> {
            let done = attach_steps(v.audio).take(v.succeeded as int);
            &&& v.undone >= owed_rollback(v.audio, v.succeeded).len()
            &&& held_after(Set::empty(), done + rollback_of(done)) == Set::<Holding>::empty()
        },
{
    if v.failed_at is Some {
        lemma_failed_attach_holds_nothing(v.audio, v.succeeded);
    }
}

} // verus!
