use vstd::prelude::*;
use crate::command::{CommandError, CommandSpec, CommandView};
use crate::config::{config_path, config_path_of, ConfigWrite, WriteView, BUILD_MODE_CONFIG, DEFAULT_MODE_CONFIG};
use crate::guard::ConfigGuard;
use crate::stages::{app_command, app_command_of, frontend_command, frontend_command_of};

verus! {

/// How a run ended.
#[derive(Clone, Copy, PartialEq, Eq, Structural, Debug)]
pub enum Verdict {
    Succeeded,
    /// No usable target triple was given; nothing was touched.
    InputInvalid,
    /// The build-mode configuration could not be written; no stage ran.
    ConfigWriteFailed,
    FrontendFailed,
    AppFailed,
}

pub open spec fn exit_code_of(v: Verdict) -> i32 {
    if v == Verdict::Succeeded {
        0
    } else {
        1
    }
}

impl Verdict {
    /// The process exit status for this verdict.
    pub fn exit_code(self) -> (r: i32)
        ensures
            r == exit_code_of(self),
    {
        match self {
            Verdict::Succeeded => 0,
            _ => 1,
        }
    }
}

/// Where a run stands: each phase waits for the outcome of one action.
#[derive(Clone, Copy, PartialEq, Eq, Structural, Debug)]
pub enum Phase {
    WritingBuildConfig,
    RunningFrontend,
    RunningApplication,
    /// The guard has been released; the default-mode write is under way.
    Restoring(Verdict),
    Finished(Verdict),
}

/// A run may only proceed with a non-empty target triple.
pub open spec fn triple_usable(triple: Option<Seq<char>>) -> bool {
    triple matches Some(t) && t.len() > 0
}

pub open spec fn target_of(triple: Option<Seq<char>>) -> Seq<char> {
    match triple {
        Some(t) => t,
        None => Seq::empty(),
    }
}

pub open spec fn initial_phase(usable: bool) -> Phase {
    if usable {
        Phase::WritingBuildConfig
    } else {
        Phase::Finished(Verdict::InputInvalid)
    }
}

/// The phase after the pending action of `p` succeeded (`ok`) or failed.
/// A failed stage skips the rest and goes to restoration; the outcome of the
/// restoring write does not change the verdict.
pub open spec fn next_phase(p: Phase, ok: bool) -> Phase {
    match p {
        Phase::WritingBuildConfig => if ok {
            Phase::RunningFrontend
        } else {
            Phase::Finished(Verdict::ConfigWriteFailed)
        },
        Phase::RunningFrontend => if ok {
            Phase::RunningApplication
        } else {
            Phase::Restoring(Verdict::FrontendFailed)
        },
        Phase::RunningApplication => if ok {
            Phase::Restoring(Verdict::Succeeded)
        } else {
            Phase::Restoring(Verdict::AppFailed)
        },
        Phase::Restoring(v) => Phase::Finished(v),
        Phase::Finished(v) => Phase::Finished(v),
    }
}

/// What the caller must do next.
pub enum Action {
    /// Replace the whole configuration file.
    Write(ConfigWrite),
    /// Run a command and wait for it.
    Run(CommandSpec),
    /// End the process with the verdict's exit status.
    Exit(Verdict),
}

pub ghost enum ActionView {
    Write(WriteView),
    Run(CommandView),
    Exit(Verdict),
}

impl View for Action {
    type V = ActionView;

    open spec fn view(&self) -> ActionView {
        match self {
            Action::Write(w) => ActionView::Write(w@),
            Action::Run(c) => ActionView::Run(c@),
            Action::Exit(v) => ActionView::Exit(*v),
        }
    }
}

pub open spec fn build_write_of(root: Seq<char>) -> WriteView {
    WriteView { path: config_path_of(root), contents: BUILD_MODE_CONFIG@ }
}

pub open spec fn default_write_of(root: Seq<char>) -> WriteView {
    WriteView { path: config_path_of(root), contents: DEFAULT_MODE_CONFIG@ }
}

/// The action pending in phase `p`.
pub open spec fn action_of(p: Phase, target: Seq<char>, root: Seq<char>) -> ActionView {
    match p {
        Phase::WritingBuildConfig => ActionView::Write(build_write_of(root)),
        Phase::RunningFrontend => ActionView::Run(frontend_command_of(root)),
        Phase::RunningApplication => ActionView::Run(app_command_of(target, root)),
        Phase::Restoring(_) => ActionView::Write(default_write_of(root)),
        Phase::Finished(v) => ActionView::Exit(v),
    }
}

/// Why an action did not succeed.
pub enum Failure {
    /// A configuration write failed; the system's error text.
    Io(String),
    Command(CommandError),
}

/// One run of the two-stage build, driven by its caller: the caller performs
/// each action it is handed and reports back whether it succeeded.
pub struct Pipeline {
    target: String,
    root: String,
    phase: Phase,
    guard: Option<ConfigGuard>,
}

impl Pipeline {
    pub closed spec fn target_view(&self) -> Seq<char> {
        self.target@
    }

    pub closed spec fn root_view(&self) -> Seq<char> {
        self.root@
    }

    pub closed spec fn phase_view(&self) -> Phase {
        self.phase
    }

    /// The guard exists exactly while a stage runs, for the project's
    /// configuration file, not yet released.
    pub closed spec fn wf(&self) -> bool {
        &&& (self.phase == Phase::RunningFrontend || self.phase == Phase::RunningApplication)
            <==> self.guard is Some
        &&& self.guard matches Some(g) ==> g.path_view() == config_path_of(self.root@)
            && !g.is_released()
    }

    /// Validates the request and hands out the first action: the build-mode
    /// write, or, without a usable triple, the exit.
    pub fn start(target: Option<String>, root: String) -> (r: (Pipeline, Action))
        ensures
            r.0.wf(),
            r.0.phase_view() == initial_phase(triple_usable(target.deep_view())),
            r.0.target_view() == target_of(target.deep_view()),
            r.0.root_view() == root@,
            r.1@ == action_of(r.0.phase_view(), r.0.target_view(), r.0.root_view()),
    {
        let (usable, t) = match target {
            Some(t) => (t.unicode_len() > 0, t),
            None => (false, String::new()),
        };
        if usable {
            let write = ConfigWrite {
                path: config_path(root.as_str()),
                contents: String::from_str(BUILD_MODE_CONFIG),
            };
            (Pipeline { target: t, root, phase: Phase::WritingBuildConfig, guard: None }, Action::Write(write))
        } else {
            let p = Pipeline { target: t, root, phase: Phase::Finished(Verdict::InputInvalid), guard: None };
            (p, Action::Exit(Verdict::InputInvalid))
        }
    }

    pub fn phase(&self) -> (r: Phase)
        ensures
            r == self.phase_view(),
    {
        self.phase
    }

    pub fn target(&self) -> (r: &str)
        ensures
            r@ == self.target_view(),
    {
        self.target.as_str()
    }

    pub fn root(&self) -> (r: &str)
        ensures
            r@ == self.root_view(),
    {
        self.root.as_str()
    }

    /// Takes the outcome of the pending action and hands out the next one.
    pub fn step(&mut self, outcome: Result<(), Failure>) -> (r: Action)
        requires
            old(self).wf(),
        ensures
            final(self).wf(),
            final(self).target_view() == old(self).target_view(),
            final(self).root_view() == old(self).root_view(),
            final(self).phase_view() == next_phase(old(self).phase_view(), outcome is Ok),
            r@ == action_of(final(self).phase_view(), final(self).target_view(), final(self).root_view()),
    {
        let ok = outcome.is_ok();
        match self.phase {
            Phase::WritingBuildConfig => {
                if ok {
                    self.guard = Some(ConfigGuard::new(config_path(self.root.as_str())));
                    self.phase = Phase::RunningFrontend;
                    Action::Run(frontend_command(self.root.as_str()))
                } else {
                    self.phase = Phase::Finished(Verdict::ConfigWriteFailed);
                    Action::Exit(Verdict::ConfigWriteFailed)
                }
            },
            Phase::RunningFrontend => {
                if ok {
                    self.phase = Phase::RunningApplication;
                    Action::Run(app_command(self.target.as_str(), self.root.as_str()))
                } else {
                    self.restore(Verdict::FrontendFailed)
                }
            },
            Phase::RunningApplication => {
                if ok {
                    self.restore(Verdict::Succeeded)
                } else {
                    self.restore(Verdict::AppFailed)
                }
            },
            Phase::Restoring(v) => {
                self.phase = Phase::Finished(v);
                Action::Exit(v)
            },
            Phase::Finished(v) => Action::Exit(v),
        }
    }

    /// Ends the stages with verdict `v`: releases the guard, whose write
    /// puts the configuration back into default mode.
    fn restore(&mut self, v: Verdict) -> (r: Action)
        requires
            old(self).wf(),
            old(self).phase == Phase::RunningFrontend || old(self).phase == Phase::RunningApplication,
        ensures
            final(self).wf(),
            final(self).target == old(self).target,
            final(self).root == old(self).root,
            final(self).phase == Phase::Restoring(v),
            r@ == ActionView::Write(default_write_of(final(self).root@)),
    {
        let taken = self.guard.take();
        self.phase = Phase::Restoring(v);
        match taken {
            Some(mut g) => match g.release() {
                Some(w) => Action::Write(w),
                None => Action::Exit(v),
            },
            None => Action::Exit(v),
        }
    }
}

} // verus!
