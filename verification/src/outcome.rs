//! How a deployment ended.

use vstd::prelude::*;

use crate::error::Error;
use crate::error::ErrorView;

verus! {

/// The result of one deployment.
#[derive(Debug, PartialEq, Eq)]
pub enum DeployOutcome {
    /// The source was already current; nothing was built or restarted.
    Skipped,
    /// The source was pulled and built and the service restarted.
    Deployed,
    /// The deployment stopped at the first step that failed.
    Failed(Error),
}

/// A [`DeployOutcome`] with its texts as character sequences.
pub enum DeployOutcomeView {
    Skipped,
    Deployed,
    Failed(ErrorView),
}

impl DeployOutcomeView {
    /// The text reported for this outcome.
    pub open spec fn message(self) -> Seq<char> {
        match self {
            DeployOutcomeView::Skipped => "Already up to date"@,
            DeployOutcomeView::Deployed => "Deployed"@,
            DeployOutcomeView::Failed(error) => error.message(),
        }
    }
}

impl View for DeployOutcome {
    type V = DeployOutcomeView;

    open spec fn view(&self) -> DeployOutcomeView {
        match self {
            DeployOutcome::Skipped => DeployOutcomeView::Skipped,
            DeployOutcome::Deployed => DeployOutcomeView::Deployed,
            DeployOutcome::Failed(error) => DeployOutcomeView::Failed(error@),
        }
    }
}

impl Clone for DeployOutcome {
    fn clone(&self) -> (copy: Self)
        ensures
            copy@ == self@,
    {
        match self {
            DeployOutcome::Skipped => DeployOutcome::Skipped,
            DeployOutcome::Deployed => DeployOutcome::Deployed,
            DeployOutcome::Failed(error) => DeployOutcome::Failed(error.clone()),
        }
    }
}

impl DeployOutcome {
    /// The text reported for this outcome.
    pub fn message(&self) -> (text: String)
        ensures
            text@ == self@.message(),
    {
        match self {
            DeployOutcome::Skipped => "Already up to date".to_owned(),
            DeployOutcome::Deployed => "Deployed".to_owned(),
            DeployOutcome::Failed(error) => error.message(),
        }
    }

    /// Whether the deployment failed, so that the outcome is to be reported
    /// as an internal error.
    pub fn is_failure(&self) -> (failed: bool)
        ensures
            failed == (self@ is Failed),
    {
        match self {
            DeployOutcome::Failed(_) => true,
            _ => false,
        }
    }
}

} // verus!
