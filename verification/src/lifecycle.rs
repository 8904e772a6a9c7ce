//! The lifecycle state machine.
//!
//! A run is sequenced as staging, then (on a first run) materialization,
//! then launch, then (in run-once mode) cleanup; clean-only mode
//! short-circuits straight to cleanup.  The controller here decides the next
//! outside action from the current state alone; the surrounding program
//! performs that action and reports what happened as an event.  Every fatal
//! condition between directory creation and the end of materialization makes
//! the controller remove the directory before aborting, so a later run is
//! never misled by a half-written cache.

use vstd::prelude::*;
use vstd::string::StringExecFns;

verus! {

/// The command mode, mutually exclusive, from the first command-line
/// argument.
#[derive(Clone, Copy, Debug, PartialEq, Eq, Structural)]
pub enum Mode {
    /// Full flow; the staging directory is retained after the run.
    Normal,
    /// Full flow; the staging directory is removed after launch completes.
    RunOnce,
    /// Remove the staging directory if present and exit without launching.
    CleanOnly,
}

/// The mode a first argument selects: `-o`/`--once` and `-c`/`--clean` are
/// recognized; anything else falls through to the default.
pub open spec fn mode_spec(arg: Option<Seq<char>>) -> Mode {
    match arg {
        Option::None => Mode::Normal,
        Option::Some(s) => if s == "-o"@ || s == "--once"@ {
            Mode::RunOnce
        } else if s == "-c"@ || s == "--clean"@ {
            Mode::CleanOnly
        } else {
            Mode::Normal
        },
    }
}

/// Determines the command mode from the first command-line argument, if any.
pub fn parse_mode(arg: Option<&String>) -> (m: Mode)
    ensures
        m == mode_spec(
            match arg {
                Option::Some(s) => Option::Some(s@),
                Option::None => Option::None,
            },
        ),
{
    match arg {
        Option::None => Mode::Normal,
        Option::Some(s) => {
            let once_short = String::from_str("-o");
            let once_long = String::from_str("--once");
            let clean_short = String::from_str("-c");
            let clean_long = String::from_str("--clean");
            if *s == once_short || *s == once_long {
                Mode::RunOnce
            } else if *s == clean_short || *s == clean_long {
                Mode::CleanOnly
            } else {
                Mode::Normal
            }
        },
    }
}

/// The phase a run is in.
#[derive(Clone, Copy, Debug, PartialEq, Eq, Structural)]
pub enum Phase {
    /// Nothing has been done yet.
    Start,
    /// The staging directory is in place.
    Staged,
    /// The payloads were extracted and the two files written.
    Materialized,
    /// The companion process ran to completion.
    Launched,
    /// The run is over; finish normally.
    Done,
    /// A fatal condition was hit; abort with a diagnostic.
    Aborted,
    /// Materialization failed partway; the staging directory must be removed
    /// before the run aborts.
    Failed,
}

/// The next outside action the controller asks for.
#[derive(Clone, Copy, Debug, PartialEq, Eq, Structural)]
pub enum Action {
    /// Create the staging directory, or report that it already existed.
    EnsureDir,
    /// Read the trailer, extract the archive, write the two files.
    Materialize,
    /// Run the launch script and wait for it to complete.
    Launch,
    /// Remove the staging directory.
    RemoveDir,
    /// Exit normally.
    Finish,
    /// Report a fatal diagnostic and terminate.
    Abort,
}

/// What performing the requested action reported back.
#[derive(Clone, Copy, Debug, PartialEq, Eq, Structural)]
pub enum Event {
    /// The staging directory was created fresh.
    DirCreated,
    /// The staging directory already existed: a repeat launch.
    DirExisted,
    /// The staging directory could not be created.
    DirFailed,
    /// Extraction and both file writes succeeded.
    MaterializeOk,
    /// Extraction or a file write failed.
    MaterializeFailed,
    /// The companion process was spawned and waited for, whatever its exit
    /// status.
    LaunchDone,
    /// The companion process could not be spawned.
    LaunchFailed,
    /// The staging directory was removed.
    RemoveOk,
    /// The staging directory could not be removed; it may already be gone,
    /// so this is only a warning.
    RemoveFailed,
}

/// The top-level orchestration state.
#[derive(Clone, Copy, Debug, PartialEq, Eq, Structural)]
pub struct Controller {
    /// The command mode of this run.
    pub mode: Mode,
    /// The phase the run is in.
    pub phase: Phase,
    /// Whether the staging directory is present, as far as this run's own
    /// actions have created or removed it.
    pub dir_present: bool,
    /// Whether staging found the directory already there.
    pub dir_existed: bool,
}

impl Controller {
    /// The state a run starts in.
    pub open spec fn init_spec(mode: Mode) -> Controller {
        Controller { mode, phase: Phase::Start, dir_present: false, dir_existed: false }
    }

    /// States a run can actually be in.
    pub open spec fn wf(self) -> bool {
        &&& ((self.phase is Staged || self.phase is Materialized || self.phase is Launched
            || self.phase is Failed) ==> self.dir_present)
        &&& (self.mode is CleanOnly ==> self.phase is Start || self.phase is Done)
        &&& (self.phase is Start ==> !self.dir_present && !self.dir_existed)
    }

    /// Starts a run in the given mode.
    pub fn new(mode: Mode) -> (c: Controller)
        ensures
            c == Controller::init_spec(mode),
            c.wf(),
    {
        Controller { mode, phase: Phase::Start, dir_present: false, dir_existed: false }
    }

    /// The action the current state asks for next.
    pub open spec fn next_action_spec(self) -> Action {
        match self.phase {
            Phase::Start => if self.mode is CleanOnly {
                Action::RemoveDir
            } else {
                Action::EnsureDir
            },
            Phase::Staged => if self.dir_existed {
                Action::Launch
            } else {
                Action::Materialize
            },
            Phase::Materialized => Action::Launch,
            Phase::Launched => if self.mode is RunOnce {
                Action::RemoveDir
            } else {
                Action::Finish
            },
            Phase::Failed => Action::RemoveDir,
            Phase::Done => Action::Finish,
            Phase::Aborted => Action::Abort,
        }
    }

    /// Returns the action to perform next.
    pub fn next_action(&self) -> (a: Action)
        ensures
            a == self.next_action_spec(),
    {
        match self.phase {
            Phase::Start => match self.mode {
                Mode::CleanOnly => Action::RemoveDir,
                _ => Action::EnsureDir,
            },
            Phase::Staged => if self.dir_existed {
                Action::Launch
            } else {
                Action::Materialize
            },
            Phase::Materialized => Action::Launch,
            Phase::Launched => match self.mode {
                Mode::RunOnce => Action::RemoveDir,
                _ => Action::Finish,
            },
            Phase::Failed => Action::RemoveDir,
            Phase::Done => Action::Finish,
            Phase::Aborted => Action::Abort,
        }
    }

    /// Whether `ev` can answer the action the current state asks for.
    pub open spec fn event_allowed(self, ev: Event) -> bool {
        match self.next_action_spec() {
            Action::EnsureDir => ev is DirCreated || ev is DirExisted || ev is DirFailed,
            Action::Materialize => ev is MaterializeOk || ev is MaterializeFailed,
            Action::Launch => ev is LaunchDone || ev is LaunchFailed,
            Action::RemoveDir => ev is RemoveOk || ev is RemoveFailed,
            Action::Finish => false,
            Action::Abort => false,
        }
    }

    /// The state after the requested action reported `ev`.
    pub open spec fn step_spec(self, ev: Event) -> Controller {
        match ev {
            Event::DirCreated => Controller {
                mode: self.mode,
                phase: Phase::Staged,
                dir_present: true,
                dir_existed: false,
            },
            Event::DirExisted => Controller {
                mode: self.mode,
                phase: Phase::Staged,
                dir_present: true,
                dir_existed: true,
            },
            Event::DirFailed => Controller { phase: Phase::Aborted, ..self },
            Event::MaterializeOk => Controller { phase: Phase::Materialized, ..self },
            Event::MaterializeFailed => Controller { phase: Phase::Failed, ..self },
            Event::LaunchDone => Controller { phase: Phase::Launched, ..self },
            Event::LaunchFailed => Controller { phase: Phase::Aborted, ..self },
            Event::RemoveOk => Controller {
                phase: if self.phase is Failed {
                    Phase::Aborted
                } else {
                    Phase::Done
                },
                dir_present: false,
                ..self
            },
            Event::RemoveFailed => Controller {
                phase: if self.phase is Failed {
                    Phase::Aborted
                } else {
                    Phase::Done
                },
                ..self
            },
        }
    }

    /// Advances the state by the event the performed action reported.
    pub fn step(&mut self, ev: Event)
        requires
            old(self).wf(),
            old(self).event_allowed(ev),
        ensures
            *final(self) == old(self).step_spec(ev),
            final(self).wf(),
    {
        match ev {
            Event::DirCreated => {
                self.phase = Phase::Staged;
                self.dir_present = true;
                self.dir_existed = false;
            },
            Event::DirExisted => {
                self.phase = Phase::Staged;
                self.dir_present = true;
                self.dir_existed = true;
            },
            Event::DirFailed => {
                self.phase = Phase::Aborted;
            },
            Event::MaterializeOk => {
                self.phase = Phase::Materialized;
            },
            Event::MaterializeFailed => {
                self.phase = Phase::Failed;
            },
            Event::LaunchDone => {
                self.phase = Phase::Launched;
            },
            Event::LaunchFailed => {
                self.phase = Phase::Aborted;
            },
            Event::RemoveOk => {
                self.phase = if matches!(self.phase, Phase::Failed) {
                    Phase::Aborted
                } else {
                    Phase::Done
                };
                self.dir_present = false;
            },
            Event::RemoveFailed => {
                self.phase = if matches!(self.phase, Phase::Failed) {
                    Phase::Aborted
                } else {
                    Phase::Done
                };
            },
        }
    }

    /// The state after a whole sequence of events.
    pub open spec fn run(self, evs: Seq<Event>) -> Controller
        decreases evs.len(),
    {
        if evs.len() == 0 {
            self
        } else {
            self.step_spec(evs[0]).run(evs.drop_first())
        }
    }

    /// Whether each event in the sequence answers the action its state asks
    /// for.
    pub open spec fn run_valid(self, evs: Seq<Event>) -> bool
        decreases evs.len(),
    {
        evs.len() == 0 || (self.event_allowed(evs[0]) && self.step_spec(evs[0]).run_valid(
            evs.drop_first(),
        ))
    }
}

/// A step made in answer to the requested action keeps the state
/// well-formed and never changes the mode.
pub proof fn lemma_step_preserves_wf(c: Controller, ev: Event)
    requires
        c.wf(),
        c.event_allowed(ev),
    ensures
        c.step_spec(ev).wf(),
        c.step_spec(ev).mode == c.mode,
{
}

/// Repeat launch: once staging reports that the directory already existed,
/// no state of any valid continuation of the run ever asks for
/// materialization, so the files written by the first run are left exactly
/// as they were.  (What materialization would write is itself a pure
/// function of the trailer and the platform configuration, so both runs
/// refer to identical contents.)
pub proof fn lemma_repeat_launch_never_materializes(c: Controller, evs: Seq<Event>)
    requires
        c.wf(),
        c.dir_existed,
        c.run_valid(evs),
    ensures
        !(c.run(evs).next_action_spec() is Materialize),
    decreases evs.len(),
{
    if evs.len() > 0 {
        let c1 = c.step_spec(evs[0]);
        lemma_step_preserves_wf(c, evs[0]);
        assert(c1.dir_existed);
        lemma_repeat_launch_never_materializes(c1, evs.drop_first());
    }
}

/// Cleanup atomicity: when materialization fails partway, the controller's
/// very next action removes the staging directory, and once that removal
/// succeeds the run aborts with the directory gone.
pub proof fn lemma_materialize_failure_cleans_up(c: Controller)
    requires
        c.wf(),
        c.next_action_spec() is Materialize,
    ensures
        c.step_spec(Event::MaterializeFailed).next_action_spec() is RemoveDir,
        c.step_spec(Event::MaterializeFailed).step_spec(Event::RemoveOk).phase is Aborted,
        !c.step_spec(Event::MaterializeFailed).step_spec(Event::RemoveOk).dir_present,
        c.step_spec(Event::MaterializeFailed).step_spec(
            Event::RemoveOk,
        ).next_action_spec() is Abort,
{
}

/// Run-once removal: after the companion process completes in run-once mode,
/// the next action removes the staging directory, and the run finishes with
/// it gone.
pub proof fn lemma_run_once_removes_dir(c: Controller)
    requires
        c.wf(),
        c.phase is Launched,
        c.mode is RunOnce,
    ensures
        c.next_action_spec() is RemoveDir,
        !c.step_spec(Event::RemoveOk).dir_present,
        c.step_spec(Event::RemoveOk).phase is Done,
        c.step_spec(Event::RemoveOk).next_action_spec() is Finish,
{
}

/// Default-mode retention: after the companion process completes in the
/// default mode, the run finishes at once, with the staging directory still
/// present.
pub proof fn lemma_default_mode_retains_dir(c: Controller)
    requires
        c.wf(),
        c.phase is Launched,
        c.mode is Normal,
    ensures
        c.next_action_spec() is Finish,
        c.dir_present,
{
}

/// Clean-only mode never creates anything: every state of a valid clean-only
/// run only ever asks to remove the directory or to finish — never to create
/// the directory, materialize, or launch.
pub proof fn lemma_clean_only_never_creates(c: Controller, evs: Seq<Event>)
    requires
        c.wf(),
        c.mode is CleanOnly,
        c.run_valid(evs),
    ensures
        c.run(evs).next_action_spec() is RemoveDir || c.run(evs).next_action_spec() is Finish,
    decreases evs.len(),
{
    if evs.len() > 0 {
        let c1 = c.step_spec(evs[0]);
        lemma_step_preserves_wf(c, evs[0]);
        lemma_clean_only_never_creates(c1, evs.drop_first());
    }
}

} // verus!
