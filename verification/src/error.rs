//! Why a deployment failed.

use vstd::prelude::*;
use vstd::string::*;

verus! {

/// The reason a deployment did not go through.
#[derive(Debug, PartialEq, Eq)]
pub enum Error {
    /// The notification names a repository other than the configured one;
    /// carries the rejected name. Nothing was run.
    WrongRepository(String),
    /// The credential agent could not be started or gave no process id.
    AgentStartFailed,
    /// Pulling the source failed: the process could not be run or exited
    /// with a failure status.
    PullFailed,
    /// The build exited with a failure status.
    BuildFailed,
    /// Restarting the service exited with a failure status.
    RestartFailed,
    /// The system refused to run a build or restart process; carries the
    /// description of the system's error.
    IO(String),
}

/// An [`Error`] with its texts as character sequences.
pub enum ErrorView {
    WrongRepository(Seq<char>),
    AgentStartFailed,
    PullFailed,
    BuildFailed,
    RestartFailed,
    IO(Seq<char>),
}

impl ErrorView {
    /// The text shown for this error.
    pub open spec fn message(self) -> Seq<char> {
        match self {
            ErrorView::WrongRepository(name) => "tried to deploy a different repo: "@ + name,
            ErrorView::AgentStartFailed => "failed to start the credential agent"@,
            ErrorView::PullFailed => "failed to pull the source"@,
            ErrorView::BuildFailed => "build failed"@,
            ErrorView::RestartFailed => "failed to restart the service"@,
            ErrorView::IO(description) => "io error: "@ + description,
        }
    }
}

impl View for Error {
    type V = ErrorView;

    open spec fn view(&self) -> ErrorView {
        match self {
            Error::WrongRepository(name) => ErrorView::WrongRepository(name@),
            Error::AgentStartFailed => ErrorView::AgentStartFailed,
            Error::PullFailed => ErrorView::PullFailed,
            Error::BuildFailed => ErrorView::BuildFailed,
            Error::RestartFailed => ErrorView::RestartFailed,
            Error::IO(description) => ErrorView::IO(description@),
        }
    }
}

impl Clone for Error {
    fn clone(&self) -> (copy: Self)
        ensures
            copy@ == self@,
    {
        match self {
            Error::WrongRepository(name) => Error::WrongRepository(name.clone()),
            Error::AgentStartFailed => Error::AgentStartFailed,
            Error::PullFailed => Error::PullFailed,
            Error::BuildFailed => Error::BuildFailed,
            Error::RestartFailed => Error::RestartFailed,
            Error::IO(description) => Error::IO(description.clone()),
        }
    }
}

impl Error {
    /// The text shown for this error.
    pub fn message(&self) -> (text: String)
        ensures
            text@ == self@.message(),
    {
        match self {
            Error::WrongRepository(name) => "tried to deploy a different repo: ".to_owned().concat(
                name.as_str(),
            ),
            Error::AgentStartFailed => "failed to start the credential agent".to_owned(),
            Error::PullFailed => "failed to pull the source".to_owned(),
            Error::BuildFailed => "build failed".to_owned(),
            Error::RestartFailed => "failed to restart the service".to_owned(),
            Error::IO(description) => "io error: ".to_owned().concat(description.as_str()),
        }
    }
}

} // verus!
