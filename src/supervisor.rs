use vstd::prelude::*;

use crate::settings::{RecordCommand, RecordSettings};

verus! {

/// Where the supervisor stands with respect to the recording branch.
#[derive(Debug, Clone, Copy, PartialEq, Eq, Structural)]
pub enum Phase {
    /// No branch is attached.
    Idle,
    /// An attach was directed and its outcome is not yet known.
    Attaching,
    /// One branch is attached.
    Recording,
    /// The pipeline reported a fatal event; the session is over.
    Finished,
}

/// What the supervisor asks its executor to do for one command.
#[derive(Debug, Clone)]
pub enum Directive {
    /// Build and attach a branch for these settings, then report the outcome.
    Attach(RecordSettings),
    /// Tear down the attached branch through the idle barrier.
    Detach,
    /// Nothing: the command is redundant.
    Ignore,
}

/// An event read from the pipeline's status channel.
#[derive(Debug, Clone, Copy, PartialEq, Eq, Structural)]
pub enum StatusEvent {
    /// An unrecoverable error in the graph.
    Error,
    /// The stream ended.
    EndOfStream,
    /// Any other message.
    Other,
    /// No message within the poll timeout.
    Quiet,
}

/// What the supervisor loop does after a status event.
#[derive(Debug, Clone, Copy, PartialEq, Eq, Structural)]
pub enum StatusAction {
    /// Keep going.
    Continue,
    /// Leave the loop; when `teardown`, first tear the attached branch down inline.
    Shutdown { teardown: bool },
}

/// The recording decisions of the pipeline supervisor: which commands attach
/// or detach a branch, which are redundant, and when the session ends.
pub struct Supervisor {
    phase: Phase,
}

pub open spec fn is_fatal(ev: StatusEvent) -> bool {
    ev == StatusEvent::Error || ev == StatusEvent::EndOfStream
}

/// The directive for `cmd` in `phase`: a `Start` attaches only when idle, a
/// `Stop` detaches only when recording; anything else is ignored.
pub open spec fn directive_for(phase: Phase, cmd: RecordCommand) -> Directive {
    match cmd {
        RecordCommand::Start(s) => if phase == Phase::Idle {
            Directive::Attach(s)
        } else {
            Directive::Ignore
        },
        RecordCommand::Stop => if phase == Phase::Recording {
            Directive::Detach
        } else {
            Directive::Ignore
        },
    }
}

pub open spec fn after_command(phase: Phase, cmd: RecordCommand) -> Phase {
    match directive_for(phase, cmd) {
        Directive::Attach(_) => Phase::Attaching,
        Directive::Detach => Phase::Idle,
        Directive::Ignore => phase,
    }
}

pub open spec fn after_attach(ok: bool) -> Phase {
    if ok {
        Phase::Recording
    } else {
        Phase::Idle
    }
}

pub open spec fn status_action(phase: Phase, ev: StatusEvent) -> StatusAction {
    if is_fatal(ev) {
        StatusAction::Shutdown { teardown: phase == Phase::Recording }
    } else {
        StatusAction::Continue
    }
}

pub open spec fn after_status(phase: Phase, ev: StatusEvent) -> Phase {
    if is_fatal(ev) {
        Phase::Finished
    } else {
        phase
    }
}

impl View for Supervisor {
    type V = Phase;

    closed spec fn view(&self) -> Phase {
        self.phase
    }
}

impl Supervisor {
    /// A supervisor whose pipeline has just started: nothing attached.
    pub fn new() -> (r: Self)
        ensures
            r@ == Phase::Idle,
    {
        Supervisor { phase: Phase::Idle }
    }

    pub fn phase(&self) -> (r: Phase)
        ensures
            r == self@,
    {
        self.phase
    }

    pub fn is_recording(&self) -> (r: bool)
        ensures
            r == (self@ == Phase::Recording),
    {
        self.phase == Phase::Recording
    }

    /// Decides what `cmd` asks for. An `Attach` leaves the supervisor waiting
    /// for `on_attach_result`; a `Detach` makes it idle at once.
    pub fn on_command(&mut self, cmd: RecordCommand) -> (r: Directive)
        requires
            old(self)@ != Phase::Attaching,
        ensures
            r == directive_for(old(self)@, cmd),
            final(self)@ == after_command(old(self)@, cmd),
    {
        match cmd {
            RecordCommand::Start(s) => {
                if self.phase == Phase::Idle {
                    self.phase = Phase::Attaching;
                    Directive::Attach(s)
                } else {
                    Directive::Ignore
                }
            },
            RecordCommand::Stop => {
                if self.phase == Phase::Recording {
                    self.phase = Phase::Idle;
                    Directive::Detach
                } else {
                    Directive::Ignore
                }
            },
        }
    }

    /// Records whether the directed attach succeeded.
    pub fn on_attach_result(&mut self, ok: bool)
        requires
            old(self)@ == Phase::Attaching,
        ensures
            final(self)@ == after_attach(ok),
    {
        self.phase = if ok {
            Phase::Recording
        } else {
            Phase::Idle
        };
    }

    /// Reacts to a status event: a fatal one ends the session, after an
    /// inline teardown when a branch is attached.
    pub fn on_status(&mut self, ev: StatusEvent) -> (r: StatusAction)
        requires
            old(self)@ != Phase::Attaching,
        ensures
            r == status_action(old(self)@, ev),
            final(self)@ == after_status(old(self)@, ev),
    {
        match ev {
            StatusEvent::Error | StatusEvent::EndOfStream => {
                let teardown = self.phase == Phase::Recording;
                self.phase = Phase::Finished;
                StatusAction::Shutdown { teardown }
            },
            _ => StatusAction::Continue,
        }
    }
}

/// One input to the supervisor, in the order the loop delivers them.
pub enum Input {
    Command(RecordCommand),
    AttachResult(bool),
    Status(StatusEvent),
}

/// Whether `input` may come in `phase`: an attach outcome comes exactly
/// when one is awaited.
pub open spec fn accepts(phase: Phase, input: Input) -> bool {
    (phase == Phase::Attaching) == (input is AttachResult)
}

pub open spec fn next_phase(phase: Phase, input: Input) -> Phase {
    match input {
        Input::Command(c) => after_command(phase, c),
        Input::AttachResult(ok) => after_attach(ok),
        Input::Status(ev) => after_status(phase, ev),
    }
}

/// The change in the number of attached branches that `input` brings in
/// `phase`, read off what the executor is told and reports: a successful
/// attach adds one, a detach or an inline shutdown teardown removes one.
pub open spec fn branch_change(phase: Phase, input: Input) -> int {
    match input {
        Input::Command(c) => if directive_for(phase, c) is Detach {
            -1
        } else {
            0
        },
        Input::AttachResult(ok) => if ok {
            1
        } else {
            0
        },
        Input::Status(ev) => if status_action(phase, ev) == (StatusAction::Shutdown { teardown: true }) {
            -1
        } else {
            0
        },
    }
}

pub open spec fn run(phase: Phase, inputs: Seq<Input>) -> Phase
    decreases inputs.len(),
{
    if inputs.len() == 0 {
        phase
    } else {
        next_phase(run(phase, inputs.drop_last()), inputs.last())
    }
}

pub open spec fn well_ordered(phase: Phase, inputs: Seq<Input>) -> bool
    decreases inputs.len(),
{
    if inputs.len() == 0 {
        true
    } else {
        well_ordered(phase, inputs.drop_last()) && accepts(run(phase, inputs.drop_last()), inputs.last())
    }
}

/// The number of branches attached after `inputs`, starting from none.
pub open spec fn live_branches(phase: Phase, inputs: Seq<Input>) -> int
    decreases inputs.len(),
{
    if inputs.len() == 0 {
        0
    } else {
        live_branches(phase, inputs.drop_last()) + branch_change(run(phase, inputs.drop_last()), inputs.last())
    }
}

/// At most one recording at any time: for every well-ordered sequence of
/// inputs from a fresh supervisor, exactly one branch is attached when the
/// supervisor is recording, and none otherwise.
pub proof fn lemma_at_most_one_recording(inputs: Seq<Input>)
    requires
        well_ordered(Phase::Idle, inputs),
    ensures
        live_branches(Phase::Idle, inputs) == if run(Phase::Idle, inputs) == Phase::Recording {
            1int
        } else {
            0int
        },
        0 <= live_branches(Phase::Idle, inputs) <= 1,
    decreases inputs.len(),
{
    if inputs.len() > 0 {
        lemma_at_most_one_recording(inputs.drop_last());
    }
}

/// A fatal status event while a branch is attached ends the session with an
/// inline teardown of that branch; without a branch, with none.
pub proof fn lemma_fatal_event_tears_down(phase: Phase, ev: StatusEvent)
    requires
        is_fatal(ev),
    ensures
        status_action(phase, ev) == (StatusAction::Shutdown { teardown: phase == Phase::Recording }),
        after_status(phase, ev) == Phase::Finished,
        live_after_shutdown(phase, ev) == 0,
{
}

/// The number of branches left after `ev` in `phase`, counting one for a
/// recording and taking away the one that an inline teardown removes.
pub open spec fn live_after_shutdown(phase: Phase, ev: StatusEvent) -> int {
    (if phase == Phase::Recording {
        1int
    } else {
        0int
    }) + branch_change(phase, Input::Status(ev))
}

/// A `Stop` while no branch is attached changes nothing and directs nothing.
pub proof fn lemma_stop_when_idle_is_noop(phase: Phase)
    requires
        phase != Phase::Recording,
    ensures
        directive_for(phase, RecordCommand::Stop) is Ignore,
        after_command(phase, RecordCommand::Stop) == phase,
{
}

/// A second `Start` without a `Stop` in between is ignored: after a `Start`
/// whose attach succeeded, another `Start` leaves exactly one branch.
pub proof fn lemma_second_start_ignored(first: RecordSettings, second: RecordSettings)
    ensures
        ({
            let inputs = seq![
                Input::Command(RecordCommand::Start(first)),
                Input::AttachResult(true),
                Input::Command(RecordCommand::Start(second)),
            ];
            &&& directive_for(Phase::Recording, RecordCommand::Start(second)) is Ignore
            &&& well_ordered(Phase::Idle, inputs)
            &&& run(Phase::Idle, inputs) == Phase::Recording
            &&& live_branches(Phase::Idle, inputs) == 1
        }),
{
    let inputs = seq![
        Input::Command(RecordCommand::Start(first)),
        Input::AttachResult(true),
        Input::Command(RecordCommand::Start(second)),
    ];
    assert(inputs.drop_last().drop_last().drop_last() =~= Seq::<Input>::empty());
    assert(inputs.drop_last().drop_last() =~= seq![Input::Command(RecordCommand::Start(first))]);
    assert(inputs.drop_last() =~= seq![Input::Command(RecordCommand::Start(first)), Input::AttachResult(true)]);
    reveal_with_fuel(run, 4);
    reveal_with_fuel(well_ordered, 4);
    reveal_with_fuel(live_branches, 4);
}

} // verus!
