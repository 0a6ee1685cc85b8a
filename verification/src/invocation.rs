//! The external commands of a deployment, as data.
//!
//! Nothing here runs a process. An [`Invocation`] says which program to run,
//! with which arguments and where; whoever drives the pipeline runs it and
//! reports back with a [`StepResult`].

use vstd::prelude::*;

use crate::decimal::decimal;
use crate::decimal::to_decimal;

verus! {

/// The external operations a deployment is made of.
#[derive(Clone, Copy, Debug, PartialEq, Eq, Structural)]
pub enum Step {
    /// Start the credential agent.
    StartAgent,
    /// Pull the latest source.
    Pull,
    /// Terminate the credential agent.
    ReleaseAgent,
    /// Build the source.
    Build,
    /// Restart the managed service.
    Restart,
}

/// One external command: a program, its arguments in order and, where it
/// matters, the directory to run it in.
#[derive(Debug, PartialEq, Eq)]
pub struct Invocation {
    pub step: Step,
    pub program: String,
    pub arguments: Vec<String>,
    pub working_directory: Option<String>,
}

/// An [`Invocation`] with its texts as character sequences.
pub struct InvocationView {
    pub step: Step,
    pub program: Seq<char>,
    pub arguments: Seq<Seq<char>>,
    pub working_directory: Option<Seq<char>>,
}

impl View for Invocation {
    type V = InvocationView;

    open spec fn view(&self) -> InvocationView {
        InvocationView {
            step: self.step,
            program: self.program@,
            arguments: self.arguments.deep_view(),
            working_directory: self.working_directory.deep_view(),
        }
    }
}

/// `ssh-agent -s`: start a credential agent that prints how to reach it.
pub open spec fn start_agent_invocation() -> InvocationView {
    InvocationView {
        step: Step::StartAgent,
        program: "ssh-agent"@,
        arguments: seq!["-s"@],
        working_directory: None,
    }
}

/// `git pull`, run in `directory`.
pub open spec fn pull_invocation(directory: Seq<char>) -> InvocationView {
    InvocationView {
        step: Step::Pull,
        program: "git"@,
        arguments: seq!["pull"@],
        working_directory: Some(directory),
    }
}

/// `kill -9 <pid>`, the process id in decimal notation.
pub open spec fn release_agent_invocation(pid: u32) -> InvocationView {
    InvocationView {
        step: Step::ReleaseAgent,
        program: "kill"@,
        arguments: seq!["-9"@, decimal(pid as nat)],
        working_directory: None,
    }
}

/// `cargo build --release`, run in `directory`.
pub open spec fn build_invocation(directory: Seq<char>) -> InvocationView {
    InvocationView {
        step: Step::Build,
        program: "cargo"@,
        arguments: seq!["build"@, "--release"@],
        working_directory: Some(directory),
    }
}

/// `systemctl restart <service>`.
pub open spec fn restart_invocation(service: Seq<char>) -> InvocationView {
    InvocationView {
        step: Step::Restart,
        program: "systemctl"@,
        arguments: seq!["restart"@, service],
        working_directory: None,
    }
}

impl Invocation {
    /// The command that starts the credential agent.
    pub fn start_agent() -> (invocation: Invocation)
        ensures
            invocation@ == start_agent_invocation(),
    {
        let mut arguments: Vec<String> = Vec::new();
        arguments.push("-s".to_owned());
        let invocation = Invocation {
            step: Step::StartAgent,
            program: "ssh-agent".to_owned(),
            arguments,
            working_directory: None,
        };
        assert(invocation@.arguments =~= seq!["-s"@]);
        invocation
    }

    /// The command that pulls the latest source into `directory`.
    pub fn pull(directory: &str) -> (invocation: Invocation)
        ensures
            invocation@ == pull_invocation(directory@),
    {
        let mut arguments: Vec<String> = Vec::new();
        arguments.push("pull".to_owned());
        let invocation = Invocation {
            step: Step::Pull,
            program: "git".to_owned(),
            arguments,
            working_directory: Some(directory.to_owned()),
        };
        assert(invocation@.arguments =~= seq!["pull"@]);
        invocation
    }

    /// The command that terminates the credential agent with process id
    /// `pid`.
    pub fn release_agent(pid: u32) -> (invocation: Invocation)
        ensures
            invocation@ == release_agent_invocation(pid),
    {
        let mut arguments: Vec<String> = Vec::new();
        arguments.push("-9".to_owned());
        arguments.push(to_decimal(pid));
        let invocation = Invocation {
            step: Step::ReleaseAgent,
            program: "kill".to_owned(),
            arguments,
            working_directory: None,
        };
        assert(invocation@.arguments =~= seq!["-9"@, decimal(pid as nat)]);
        invocation
    }

    /// The command that builds the source in `directory`.
    pub fn build(directory: &str) -> (invocation: Invocation)
        ensures
            invocation@ == build_invocation(directory@),
    {
        let mut arguments: Vec<String> = Vec::new();
        arguments.push("build".to_owned());
        arguments.push("--release".to_owned());
        let invocation = Invocation {
            step: Step::Build,
            program: "cargo".to_owned(),
            arguments,
            working_directory: Some(directory.to_owned()),
        };
        assert(invocation@.arguments =~= seq!["build"@, "--release"@]);
        invocation
    }

    /// The command that restarts `service`.
    pub fn restart(service: &str) -> (invocation: Invocation)
        ensures
            invocation@ == restart_invocation(service@),
    {
        let mut arguments: Vec<String> = Vec::new();
        arguments.push("restart".to_owned());
        arguments.push(service.to_owned());
        let invocation = Invocation {
            step: Step::Restart,
            program: "systemctl".to_owned(),
            arguments,
            working_directory: None,
        };
        assert(invocation@.arguments =~= seq!["restart"@, service@]);
        invocation
    }
}

/// How an external step ended.
#[derive(Debug, PartialEq, Eq)]
pub enum StepStatus {
    /// The process ran and exited with status zero.
    Success,
    /// The process ran and exited with another status, or was killed.
    Failure,
    /// The process could not be run, or its output could not be read; holds
    /// the description of the system's error.
    SystemError(String),
}

/// A [`StepStatus`] with its text as a character sequence.
pub enum StepStatusView {
    Success,
    Failure,
    SystemError(Seq<char>),
}

impl View for StepStatus {
    type V = StepStatusView;

    open spec fn view(&self) -> StepStatusView {
        match self {
            StepStatus::Success => StepStatusView::Success,
            StepStatus::Failure => StepStatusView::Failure,
            StepStatus::SystemError(description) => StepStatusView::SystemError(description@),
        }
    }
}

impl Clone for StepStatus {
    fn clone(&self) -> (copy: Self)
        ensures
            copy@ == self@,
    {
        match self {
            StepStatus::Success => StepStatus::Success,
            StepStatus::Failure => StepStatus::Failure,
            StepStatus::SystemError(description) => StepStatus::SystemError(description.clone()),
        }
    }
}

/// What came of running one [`Invocation`]: how it ended, what it wrote to
/// its standard output, and the id of the process if the system gave one.
#[derive(Debug, PartialEq, Eq)]
pub struct StepResult {
    pub status: StepStatus,
    pub output: String,
    pub pid: Option<u32>,
}

/// A [`StepResult`] with its texts as character sequences.
pub struct StepResultView {
    pub status: StepStatusView,
    pub output: Seq<char>,
    pub pid: Option<u32>,
}

impl View for StepResult {
    type V = StepResultView;

    open spec fn view(&self) -> StepResultView {
        StepResultView { status: self.status@, output: self.output@, pid: self.pid }
    }
}

impl Clone for StepResult {
    fn clone(&self) -> (copy: Self)
        ensures
            copy@ == self@,
    {
        StepResult { status: self.status.clone(), output: self.output.clone(), pid: self.pid }
    }
}

impl DeepView for StepResult {
    type V = StepResultView;

    open spec fn deep_view(&self) -> StepResultView {
        self@
    }
}

impl StepResult {
    /// The result of a process that exited with status zero after writing
    /// `output`.
    pub fn success(output: &str, pid: Option<u32>) -> (result: StepResult)
        ensures
            result@ == (StepResultView {
                status: StepStatusView::Success,
                output: output@,
                pid,
            }),
    {
        StepResult { status: StepStatus::Success, output: output.to_owned(), pid }
    }

    /// The result of a process that exited with a failure status after
    /// writing `output`.
    pub fn failure(output: &str, pid: Option<u32>) -> (result: StepResult)
        ensures
            result@ == (StepResultView {
                status: StepStatusView::Failure,
                output: output@,
                pid,
            }),
    {
        StepResult { status: StepStatus::Failure, output: output.to_owned(), pid }
    }

    /// The result of a process that the system could not run; `description`
    /// says why.
    pub fn system_error(description: &str) -> (result: StepResult)
        ensures
            result@ == (StepResultView {
                status: StepStatusView::SystemError(description@),
                output: Seq::<char>::empty(),
                pid: None,
            }),
    {
        StepResult {
            status: StepStatus::SystemError(description.to_owned()),
            output: String::new(),
            pid: None,
        }
    }
}

} // verus!
