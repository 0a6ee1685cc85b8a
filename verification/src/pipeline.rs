//! The deployment pipeline.
//!
//! A deployment is a short conversation. The pipeline hands out one
//! [`Invocation`] at a time; the caller runs it and answers with a
//! [`StepResult`]; the pipeline then decides what comes next, until it hands
//! out the [`DeployOutcome`]. In order: start the credential agent, pull,
//! release the agent, build, restart. The agent is released right after the
//! pull, whatever the pull gave; a pull that fetched nothing ends the
//! deployment there.

use vstd::prelude::*;

use crate::agent::started_agent;
use crate::agent::CredentialAgentHandle;
use crate::config::target_directory;
use crate::config::DeployConfig;
use crate::config::DeployConfigView;
use crate::config::DeployNotification;
use crate::config::DeployNotificationView;
use crate::error::Error;
use crate::error::ErrorView;
use crate::idempotency::already_current;
use crate::idempotency::is_already_current;
use crate::invocation::build_invocation;
use crate::invocation::pull_invocation;
use crate::invocation::release_agent_invocation;
use crate::invocation::restart_invocation;
use crate::invocation::start_agent_invocation;
use crate::invocation::Invocation;
use crate::invocation::InvocationView;
use crate::invocation::Step;
use crate::invocation::StepResult;
use crate::invocation::StepResultView;
use crate::invocation::StepStatus;
use crate::invocation::StepStatusView;
use crate::outcome::DeployOutcome;
use crate::outcome::DeployOutcomeView;

verus! {

/// What a pull came to.
#[derive(Clone, Copy, Debug, PartialEq, Eq, Structural)]
pub enum PullVerdict {
    /// The pull could not be run or exited with a failure status.
    Failed,
    /// The pull succeeded and fetched nothing new.
    Unchanged,
    /// The pull succeeded and brought changes.
    Changed,
}

/// The verdict on the pull that `result` reports. A failure counts before
/// anything the output says.
pub open spec fn pull_verdict(result: StepResultView) -> PullVerdict {
    if !(result.status is Success) {
        PullVerdict::Failed
    } else if already_current(result.output) {
        PullVerdict::Unchanged
    } else {
        PullVerdict::Changed
    }
}

impl PullVerdict {
    /// The verdict on the pull that `result` reports.
    pub fn of(result: &StepResult) -> (verdict: PullVerdict)
        ensures
            verdict == pull_verdict(result@),
    {
        match &result.status {
            StepStatus::Success => {
                if is_already_current(result.output.as_str()) {
                    PullVerdict::Unchanged
                } else {
                    PullVerdict::Changed
                }
            },
            _ => PullVerdict::Failed,
        }
    }
}

/// Where a deployment stands: which result it waits for, or how it ended.
#[derive(Debug)]
pub enum Phase {
    /// The start of the credential agent has been ordered.
    StartingAgent,
    /// The agent runs and the pull has been ordered.
    Pulling { agent: CredentialAgentHandle },
    /// The pull is over and the agent's release has been ordered.
    ReleasingAgent { pull: PullVerdict },
    /// The build has been ordered.
    Building,
    /// The restart of the service has been ordered.
    Restarting,
    /// Nothing more will be ordered.
    Finished { outcome: DeployOutcome },
}

/// A [`Phase`] with its texts as character sequences and the agent as its
/// process id.
pub enum PhaseView {
    StartingAgent,
    Pulling { agent: u32 },
    ReleasingAgent { pull: PullVerdict },
    Building,
    Restarting,
    Finished { outcome: DeployOutcomeView },
}

impl View for Phase {
    type V = PhaseView;

    open spec fn view(&self) -> PhaseView {
        match self {
            Phase::StartingAgent => PhaseView::StartingAgent,
            Phase::Pulling { agent } => PhaseView::Pulling { agent: agent@ },
            Phase::ReleasingAgent { pull } => PhaseView::ReleasingAgent { pull: *pull },
            Phase::Building => PhaseView::Building,
            Phase::Restarting => PhaseView::Restarting,
            Phase::Finished { outcome } => PhaseView::Finished { outcome: outcome@ },
        }
    }
}

/// What the caller is to do next.
#[derive(Debug, PartialEq, Eq)]
pub enum Directive {
    /// Run this command and come back with its result.
    Run(Invocation),
    /// The deployment is over; this is how it ended.
    Done(DeployOutcome),
}

/// A [`Directive`] with its texts as character sequences.
pub enum DirectiveView {
    Run(InvocationView),
    Done(DeployOutcomeView),
}

impl View for Directive {
    type V = DirectiveView;

    open spec fn view(&self) -> DirectiveView {
        match self {
            Directive::Run(invocation) => DirectiveView::Run(invocation@),
            Directive::Done(outcome) => DirectiveView::Done(outcome@),
        }
    }
}

/// One deployment under way: where it works, where it stands, and which
/// steps it has ordered so far.
#[derive(Debug)]
pub struct Deployment {
    directory: String,
    service: String,
    phase: Phase,
    issued: Vec<Step>,
}

/// A [`Deployment`] as plain values.
pub struct DeploymentView {
    /// The directory the source is pulled and built in.
    pub directory: Seq<char>,
    /// The service to restart.
    pub service: Seq<char>,
    /// Where the deployment stands.
    pub phase: PhaseView,
    /// The steps ordered so far, oldest first.
    pub issued: Seq<Step>,
}

impl View for Deployment {
    type V = DeploymentView;

    closed spec fn view(&self) -> DeploymentView {
        DeploymentView {
            directory: self.directory@,
            service: self.service@,
            phase: self.phase@,
            issued: self.issued@,
        }
    }
}

impl DeploymentView {
    /// Orders `invocation` and moves on to `phase`.
    pub open spec fn order(self, phase: PhaseView, invocation: InvocationView) -> (
        DeploymentView,
        DirectiveView,
    ) {
        (
            DeploymentView { phase, issued: self.issued.push(invocation.step), ..self },
            DirectiveView::Run(invocation),
        )
    }

    /// Ends the deployment with `outcome`, ordering nothing.
    pub open spec fn end(self, outcome: DeployOutcomeView) -> (DeploymentView, DirectiveView) {
        (
            DeploymentView { phase: PhaseView::Finished { outcome }, ..self },
            DirectiveView::Done(outcome),
        )
    }

    /// Moves on to `phase`, with the step of `directive` on the record
    /// where it orders one.
    pub open spec fn record(self, phase: PhaseView, directive: DirectiveView) -> DeploymentView {
        DeploymentView {
            phase,
            issued: match directive {
                DirectiveView::Run(invocation) => self.issued.push(invocation.step),
                DirectiveView::Done(_) => self.issued,
            },
            ..self
        }
    }
}

/// How a deployment for `config` opens on `notification`: rejected on the
/// spot where the notification names another repository, else with the
/// order to start the credential agent.
pub open spec fn begin_spec(config: DeployConfigView, notification: DeployNotificationView) -> (
    DeploymentView,
    DirectiveView,
) {
    let fresh = DeploymentView {
        directory: target_directory(config.repository_name),
        service: config.service_name,
        phase: PhaseView::StartingAgent,
        issued: Seq::<Step>::empty(),
    };
    if notification.repository_name == config.repository_name {
        fresh.order(PhaseView::StartingAgent, start_agent_invocation())
    } else {
        fresh.end(
            DeployOutcomeView::Failed(ErrorView::WrongRepository(notification.repository_name)),
        )
    }
}

/// What follows when the step that `state` waits for ends with `result`.
pub open spec fn advance_spec(state: DeploymentView, result: StepResultView) -> (
    DeploymentView,
    DirectiveView,
) {
    match state.phase {
        PhaseView::StartingAgent => match started_agent(result) {
            Some(agent) => state.order(PhaseView::Pulling { agent }, pull_invocation(state.directory)),
            None => state.end(DeployOutcomeView::Failed(ErrorView::AgentStartFailed)),
        },
        PhaseView::Pulling { agent } => state.order(
            PhaseView::ReleasingAgent { pull: pull_verdict(result) },
            release_agent_invocation(agent),
        ),
        PhaseView::ReleasingAgent { pull } => match pull {
            PullVerdict::Failed => state.end(DeployOutcomeView::Failed(ErrorView::PullFailed)),
            PullVerdict::Unchanged => state.end(DeployOutcomeView::Skipped),
            PullVerdict::Changed => state.order(
                PhaseView::Building,
                build_invocation(state.directory),
            ),
        },
        PhaseView::Building => match result.status {
            StepStatusView::Success => state.order(
                PhaseView::Restarting,
                restart_invocation(state.service),
            ),
            StepStatusView::Failure => state.end(DeployOutcomeView::Failed(ErrorView::BuildFailed)),
            StepStatusView::SystemError(description) => state.end(
                DeployOutcomeView::Failed(ErrorView::IO(description)),
            ),
        },
        PhaseView::Restarting => match result.status {
            StepStatusView::Success => state.end(DeployOutcomeView::Deployed),
            StepStatusView::Failure => state.end(
                DeployOutcomeView::Failed(ErrorView::RestartFailed),
            ),
            StepStatusView::SystemError(description) => state.end(
                DeployOutcomeView::Failed(ErrorView::IO(description)),
            ),
        },
        PhaseView::Finished { outcome } => (state, DirectiveView::Done(outcome)),
    }
}

/// The state after the results in `results` have come in, one after the
/// other.
pub open spec fn feed(state: DeploymentView, results: Seq<StepResultView>) -> DeploymentView
    decreases results.len(),
{
    if results.len() == 0 {
        state
    } else {
        feed(advance_spec(state, results.first()).0, results.drop_first())
    }
}

/// The state of a deployment for `config`, opened on `notification`, after
/// its steps have ended with `results`, in the order they were ordered.
pub open spec fn run(
    config: DeployConfigView,
    notification: DeployNotificationView,
    results: Seq<StepResultView>,
) -> DeploymentView {
    feed(begin_spec(config, notification).0, results)
}

/// The steps up to and including the agent's release.
pub open spec fn through_release() -> Seq<Step> {
    seq![Step::StartAgent, Step::Pull, Step::ReleaseAgent]
}

/// The steps up to and including the build.
pub open spec fn through_build() -> Seq<Step> {
    seq![Step::StartAgent, Step::Pull, Step::ReleaseAgent, Step::Build]
}

/// All five steps, in their order.
pub open spec fn through_restart() -> Seq<Step> {
    seq![Step::StartAgent, Step::Pull, Step::ReleaseAgent, Step::Build, Step::Restart]
}

/// The steps ordered so far are those that lead to the phase the deployment
/// is in, in their one order; for a deployment that is over, those that lead
/// to its outcome.
pub open spec fn consistent(state: DeploymentView) -> bool {
    match state.phase {
        PhaseView::StartingAgent => state.issued == seq![Step::StartAgent],
        PhaseView::Pulling { .. } => state.issued == seq![Step::StartAgent, Step::Pull],
        PhaseView::ReleasingAgent { .. } => state.issued == through_release(),
        PhaseView::Building => state.issued == through_build(),
        PhaseView::Restarting => state.issued == through_restart(),
        PhaseView::Finished { outcome } => match outcome {
            DeployOutcomeView::Failed(ErrorView::WrongRepository(_)) => state.issued
                == Seq::<Step>::empty(),
            DeployOutcomeView::Failed(ErrorView::AgentStartFailed) => state.issued
                == seq![Step::StartAgent],
            DeployOutcomeView::Failed(ErrorView::PullFailed) => state.issued == through_release(),
            DeployOutcomeView::Skipped => state.issued == through_release(),
            DeployOutcomeView::Failed(ErrorView::BuildFailed) => state.issued == through_build(),
            DeployOutcomeView::Failed(ErrorView::IO(_)) => state.issued == through_build()
                || state.issued == through_restart(),
            DeployOutcomeView::Failed(ErrorView::RestartFailed) => state.issued
                == through_restart(),
            DeployOutcomeView::Deployed => state.issued == through_restart(),
        },
    }
}

/// A deployment opens in a consistent state.
pub proof fn lemma_begin_is_consistent(
    config: DeployConfigView,
    notification: DeployNotificationView,
)
    ensures
        consistent(begin_spec(config, notification).0),
{
    let opened = begin_spec(config, notification).0;
    if notification.repository_name == config.repository_name {
        assert(opened.issued =~= seq![Step::StartAgent]);
    } else {
        assert(opened.issued =~= Seq::<Step>::empty());
    }
}

/// Every result leaves a consistent deployment consistent.
pub proof fn lemma_advance_keeps_consistent(state: DeploymentView, result: StepResultView)
    requires
        consistent(state),
    ensures
        consistent(advance_spec(state, result).0),
{
    match state.phase {
        PhaseView::StartingAgent => {
            assert(state.issued.push(Step::Pull) =~= seq![Step::StartAgent, Step::Pull]);
        },
        PhaseView::Pulling { .. } => {
            assert(state.issued.push(Step::ReleaseAgent) =~= through_release());
        },
        PhaseView::ReleasingAgent { .. } => {
            assert(state.issued.push(Step::Build) =~= through_build());
        },
        PhaseView::Building => {
            assert(state.issued.push(Step::Restart) =~= through_restart());
        },
        PhaseView::Restarting => {},
        PhaseView::Finished { .. } => {},
    }
}

/// The phase and the directive of a deployment that ends with `outcome`.
fn finished(outcome: DeployOutcome) -> (end: (Phase, Directive))
    ensures
        end.0@ == (PhaseView::Finished { outcome: outcome@ }),
        end.1@ == DirectiveView::Done(outcome@),
{
    let report = outcome.clone();
    (Phase::Finished { outcome }, Directive::Done(report))
}

impl Deployment {
    /// What holds of every deployment there is.
    #[verifier::type_invariant]
    spec fn well_formed(self) -> bool {
        consistent(self@)
    }

    /// Puts a deployment together from its parts, recording the step of
    /// `directive` where it orders one.
    fn record(
        directory: String,
        service: String,
        issued: Vec<Step>,
        phase: Phase,
        directive: Directive,
    ) -> (next: (Deployment, Directive))
        requires
            consistent(
                (DeploymentView {
                    directory: directory@,
                    service: service@,
                    phase: phase@,
                    issued: issued@,
                }).record(phase@, directive@),
            ),
        ensures
            next.1 == directive,
            next.0@ == (DeploymentView {
                directory: directory@,
                service: service@,
                phase: phase@,
                issued: issued@,
            }).record(phase@, directive@),
    {
        let mut issued = issued;
        match &directive {
            Directive::Run(invocation) => {
                issued.push(invocation.step);
            },
            Directive::Done(_) => {},
        }
        (Deployment { directory, service, phase, issued }, directive)
    }

    /// Opens a deployment for `config` on `notification`.
    ///
    /// The notification is checked before anything is ordered. Where it
    /// names another repository the deployment is over at once, with
    /// `WrongRepository` and the rejected name; else the first order is to
    /// start the credential agent.
    pub fn begin(config: &DeployConfig, notification: &DeployNotification) -> (opened: (
        Deployment,
        Directive,
    ))
        ensures
            (opened.0@, opened.1@) == begin_spec(config@, notification@),
            notification@.repository_name != config@.repository_name ==> {
                &&& opened.1@ == DirectiveView::Done(
                    DeployOutcomeView::Failed(
                        ErrorView::WrongRepository(notification@.repository_name),
                    ),
                )
                &&& opened.0@.issued.len() == 0
            },
            consistent(opened.0@),
    {
        proof {
            lemma_begin_is_consistent(config@, notification@);
        }
        let (phase, directive) = match config.validate(notification) {
            Ok(_) => (Phase::StartingAgent, Directive::Run(Invocation::start_agent())),
            Err(error) => finished(DeployOutcome::Failed(error)),
        };
        Deployment::record(
            config.target_directory(),
            config.service_name.clone(),
            Vec::new(),
            phase,
            directive,
        )
    }

    /// Takes the result of the step ordered last and says what comes next.
    ///
    /// Once the deployment is over, every further call leaves it as it is
    /// and reports the same outcome again.
    pub fn advance(self, result: &StepResult) -> (next: (Deployment, Directive))
        ensures
            (next.0@, next.1@) == advance_spec(self@, result@),
            consistent(next.0@),
    {
        proof {
            use_type_invariant(&self);
            lemma_advance_keeps_consistent(self@, result@);
        }
        let Deployment { directory, service, phase, issued } = self;
        let (phase, directive) = match phase {
            Phase::StartingAgent => match CredentialAgentHandle::acquire(result) {
                Ok(agent) => (
                    Phase::Pulling { agent },
                    Directive::Run(Invocation::pull(directory.as_str())),
                ),
                Err(error) => finished(DeployOutcome::Failed(error)),
            },
            Phase::Pulling { agent } => (
                Phase::ReleasingAgent { pull: PullVerdict::of(result) },
                Directive::Run(agent.release()),
            ),
            Phase::ReleasingAgent { pull } => match pull {
                PullVerdict::Failed => finished(DeployOutcome::Failed(Error::PullFailed)),
                PullVerdict::Unchanged => finished(DeployOutcome::Skipped),
                PullVerdict::Changed => (
                    Phase::Building,
                    Directive::Run(Invocation::build(directory.as_str())),
                ),
            },
            Phase::Building => match &result.status {
                StepStatus::Success => (
                    Phase::Restarting,
                    Directive::Run(Invocation::restart(service.as_str())),
                ),
                StepStatus::Failure => finished(DeployOutcome::Failed(Error::BuildFailed)),
                StepStatus::SystemError(description) => finished(
                    DeployOutcome::Failed(Error::IO(description.clone())),
                ),
            },
            Phase::Restarting => match &result.status {
                StepStatus::Success => finished(DeployOutcome::Deployed),
                StepStatus::Failure => finished(DeployOutcome::Failed(Error::RestartFailed)),
                StepStatus::SystemError(description) => finished(
                    DeployOutcome::Failed(Error::IO(description.clone())),
                ),
            },
            Phase::Finished { outcome } => finished(outcome),
        };
        Deployment::record(directory, service, issued, phase, directive)
    }

    /// Runs a whole deployment against results given beforehand: each step
    /// that is ordered ends with the next of `results`. Stops where the
    /// results run out, so the deployment handed back may be unfinished.
    pub fn replay(
        config: &DeployConfig,
        notification: &DeployNotification,
        results: &[StepResult],
    ) -> (end: Deployment)
        ensures
            end@ == run(config@, notification@, results.deep_view()),
            consistent(end@),
    {
        let (mut state, _) = Deployment::begin(config, notification);
        let ghost all = results.deep_view();
        assert(all.subrange(0, all.len() as int) =~= all);
        let mut done: usize = 0;
        while done < results.len()
            invariant
                done <= results@.len(),
                all == results.deep_view(),
                feed(state@, all.subrange(done as int, all.len() as int)) == run(
                    config@,
                    notification@,
                    all,
                ),
            decreases results@.len() - done,
        {
            let ghost rest = all.subrange(done as int, all.len() as int);
            assert(rest.first() == results@[done as int]@);
            assert(rest.drop_first() =~= all.subrange(done + 1, all.len() as int));
            let (next, _) = state.advance(&results[done]);
            state = next;
            done += 1;
        }
        proof {
            use_type_invariant(&state);
        }
        state
    }

    /// Where the deployment stands.
    pub fn phase(&self) -> (phase: &Phase)
        ensures
            phase@ == self@.phase,
    {
        &self.phase
    }

    /// Whether the deployment is over.
    pub fn is_finished(&self) -> (finished: bool)
        ensures
            finished == (self@.phase is Finished),
    {
        match &self.phase {
            Phase::Finished { .. } => true,
            _ => false,
        }
    }

    /// How the deployment ended, once it is over.
    pub fn outcome(&self) -> (outcome: Option<&DeployOutcome>)
        ensures
            match outcome {
                Some(ended) => self@.phase == (PhaseView::Finished { outcome: ended@ }),
                None => !(self@.phase is Finished),
            },
    {
        match &self.phase {
            Phase::Finished { outcome } => Some(outcome),
            _ => None,
        }
    }

    /// The steps ordered so far, oldest first.
    pub fn issued(&self) -> (steps: &[Step])
        ensures
            steps@ == self@.issued,
            consistent(self@),
    {
        proof {
            use_type_invariant(self);
        }
        self.issued.as_slice()
    }
}

} // verus!
