//! The installator: the one-time setup that installs the icon pack before
//! the application can be used.

use vstd::prelude::*;

verus! {

/// How a process ended: with an exit code, or with none where a signal ended
/// it.
#[derive(Debug, Clone, Copy, PartialEq, Eq, Structural)]
pub struct ExitStatus {
    pub code: Option<i32>,
}

impl ExitStatus {
    /// A process succeeded when it ended with the exit code zero.
    pub open spec fn spec_success(&self) -> bool {
        self.code == Some(0i32)
    }

    /// Whether the process succeeded.
    #[verifier::when_used_as_spec(spec_success)]
    pub fn success(&self) -> (succeeded: bool)
        ensures
            succeeded == self.spec_success(),
    {
        match self.code {
            Some(code) => code == 0,
            None => false,
        }
    }
}

/// The mathematical model of an [`InstallState`].
pub enum InstallStateView {
    NotStarted,
    Running(Seq<char>),
    Completed(bool),
}

impl InstallStateView {
    /// The state once `script` has been handed over for execution.
    pub open spec fn start(self, script: Seq<char>) -> InstallStateView {
        InstallStateView::Running(script)
    }

    /// The state once the script has ended, successfully or not.
    pub open spec fn complete(self, success: bool) -> InstallStateView {
        InstallStateView::Completed(success)
    }
}

/// Where the setup stands: not started, running a script, or completed with
/// or without success.
#[derive(Debug, PartialEq, Eq)]
pub enum InstallState {
    NotStarted,
    Running(String),
    Completed(bool),
}

impl View for InstallState {
    type V = InstallStateView;

    open spec fn view(&self) -> InstallStateView {
        match self {
            InstallState::NotStarted => InstallStateView::NotStarted,
            InstallState::Running(script) => InstallStateView::Running(script@),
            InstallState::Completed(success) => InstallStateView::Completed(*success),
        }
    }
}

impl Clone for InstallState {
    fn clone(&self) -> (copy: Self)
        ensures
            copy == *self,
    {
        match self {
            InstallState::NotStarted => InstallState::NotStarted,
            InstallState::Running(script) => InstallState::Running(script.clone()),
            InstallState::Completed(success) => InstallState::Completed(*success),
        }
    }
}

/// The page that shows the setup while it runs.
#[derive(Debug, PartialEq, Eq)]
pub struct Installator {
    pub state: InstallState,
}

impl View for Installator {
    type V = InstallStateView;

    open spec fn view(&self) -> InstallStateView {
        self.state@
    }
}

impl Clone for Installator {
    fn clone(&self) -> (copy: Self)
        ensures
            copy == *self,
    {
        Installator { state: self.state.clone() }
    }
}

impl Installator {
    /// An installator whose setup has not started.
    pub fn new() -> (installator: Self)
        ensures
            installator@ == InstallStateView::NotStarted,
    {
        Installator { state: InstallState::NotStarted }
    }

    /// Records that `script` is running.
    pub fn start(&mut self, script: String)
        ensures
            final(self)@ == old(self)@.start(script@),
    {
        self.state = InstallState::Running(script);
    }

    /// Records how the script ended.
    pub fn complete(&mut self, success: bool)
        ensures
            final(self)@ == old(self)@.complete(success),
    {
        self.state = InstallState::Completed(success);
    }
}

} // verus!
