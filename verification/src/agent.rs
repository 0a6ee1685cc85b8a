//! The credential agent that authenticates the pull.
//!
//! The agent lives from the moment its start is confirmed until its release
//! is ordered. A [`CredentialAgentHandle`] stands for the live agent; it
//! cannot be copied, and ordering the release uses it up.

use vstd::prelude::*;

use crate::error::Error;
use crate::error::ErrorView;
use crate::invocation::release_agent_invocation;
use crate::invocation::Invocation;
use crate::invocation::StepResult;
use crate::invocation::StepResultView;
use crate::invocation::StepStatus;

verus! {

/// A running credential agent, known by its process id.
#[derive(Debug)]
pub struct CredentialAgentHandle {
    pid: u32,
}

impl View for CredentialAgentHandle {
    type V = u32;

    /// The agent's process id.
    closed spec fn view(&self) -> u32 {
        self.pid
    }
}

/// The process id of the agent that `result` reports as started, if it
/// reports one: the start has to have succeeded and to have given an id.
pub open spec fn started_agent(result: StepResultView) -> Option<u32> {
    if result.status is Success {
        result.pid
    } else {
        None
    }
}

impl CredentialAgentHandle {
    /// Takes hold of the agent whose start `result` reports, or fails where
    /// the start did not succeed or gave no process id.
    pub fn acquire(result: &StepResult) -> (handle: Result<CredentialAgentHandle, Error>)
        ensures
            match handle {
                Ok(agent) => started_agent(result@) == Some(agent@),
                Err(error) => started_agent(result@) is None && error@
                    == ErrorView::AgentStartFailed,
            },
    {
        match (&result.status, result.pid) {
            (StepStatus::Success, Some(pid)) => Ok(CredentialAgentHandle { pid }),
            _ => Err(Error::AgentStartFailed),
        }
    }

    /// The agent's process id.
    pub fn pid(&self) -> (pid: u32)
        ensures
            pid == self@,
    {
        self.pid
    }

    /// Gives the agent up: the command that terminates it.
    pub fn release(self) -> (invocation: Invocation)
        ensures
            invocation@ == release_agent_invocation(self@),
    {
        Invocation::release_agent(self.pid)
    }
}

} // verus!
