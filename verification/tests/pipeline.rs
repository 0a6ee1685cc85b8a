use webhook_deploy::config::DeployConfig;
use webhook_deploy::config::DeployNotification;
use webhook_deploy::error::Error;
use webhook_deploy::invocation::Invocation;
use webhook_deploy::invocation::Step;
use webhook_deploy::invocation::StepResult;
use webhook_deploy::outcome::DeployOutcome;
use webhook_deploy::pipeline::Deployment;
use webhook_deploy::pipeline::Directive;
use webhook_deploy::pipeline::Phase;
use webhook_deploy::pipeline::PullVerdict;

fn infra() -> DeployConfig {
    DeployConfig::new("infra", "api")
}

/// Drives a deployment the way a caller does: runs nothing, answers every
/// order with the next of `results`, and keeps what was ordered.
fn drive(
    config: &DeployConfig,
    notification: &DeployNotification,
    results: &[StepResult],
) -> (Vec<Invocation>, Option<DeployOutcome>) {
    let mut ordered = Vec::new();
    let (mut state, mut directive) = Deployment::begin(config, notification);
    let mut next = 0;
    loop {
        match directive {
            Directive::Done(outcome) => {
                assert!(state.is_finished());
                assert_eq!(state.outcome(), Some(&outcome));
                return (ordered, Some(outcome));
            }
            Directive::Run(invocation) => {
                assert!(!state.is_finished());
                assert_eq!(state.outcome(), None);
                assert_eq!(state.issued().last(), Some(&invocation.step));
                ordered.push(invocation);
                if next == results.len() {
                    return (ordered, None);
                }
                let (after, then) = state.advance(&results[next]);
                state = after;
                directive = then;
                next += 1;
            }
        }
    }
}

fn steps(ordered: &[Invocation]) -> Vec<Step> {
    ordered.iter().map(|invocation| invocation.step).collect()
}

#[test]
fn up_to_date_pull_is_skipped() {
    let results = [
        StepResult::success("SSH_AGENT_PID=4242; export SSH_AGENT_PID;\n", Some(4242)),
        StepResult::success("Already up to date.\n", Some(4243)),
        StepResult::success("", Some(4244)),
    ];
    let (ordered, outcome) = drive(&infra(), &DeployNotification::new("infra"), &results);
    assert_eq!(outcome, Some(DeployOutcome::Skipped));
    assert_eq!(steps(&ordered), vec![Step::StartAgent, Step::Pull, Step::ReleaseAgent]);
    assert!(!steps(&ordered).contains(&Step::Build));
    assert!(!steps(&ordered).contains(&Step::Restart));
}

#[test]
fn other_repository_is_rejected() {
    let (ordered, outcome) = drive(&infra(), &DeployNotification::new("other"), &[]);
    assert_eq!(
        outcome,
        Some(DeployOutcome::Failed(Error::WrongRepository("other".to_string())))
    );
    assert!(ordered.is_empty());
}

#[test]
fn rejection_comes_with_the_first_directive() {
    let (state, directive) = Deployment::begin(&infra(), &DeployNotification::new("other"));
    assert_eq!(
        directive,
        Directive::Done(DeployOutcome::Failed(Error::WrongRepository("other".to_string())))
    );
    assert!(state.is_finished());
    assert!(state.issued().is_empty());
}

#[test]
fn changed_pull_deploys() {
    let results = [
        StepResult::success("", Some(4242)),
        StepResult::success("Updating abc123..def456\n", None),
        StepResult::success("", None),
        StepResult::success("   Compiling api v0.1.0\n", None),
        StepResult::success("", None),
    ];
    let (ordered, outcome) = drive(&infra(), &DeployNotification::new("infra"), &results);
    assert_eq!(outcome, Some(DeployOutcome::Deployed));
    assert_eq!(
        steps(&ordered),
        vec![Step::StartAgent, Step::Pull, Step::ReleaseAgent, Step::Build, Step::Restart]
    );
}

#[test]
fn failed_build_stops_before_restart() {
    let results = [
        StepResult::success("", Some(4242)),
        StepResult::success("Updating abc123..def456\n", None),
        StepResult::success("", None),
        StepResult::failure("error: could not compile `api`\n", None),
    ];
    let (ordered, outcome) = drive(&infra(), &DeployNotification::new("infra"), &results);
    assert_eq!(outcome, Some(DeployOutcome::Failed(Error::BuildFailed)));
    assert_eq!(
        steps(&ordered),
        vec![Step::StartAgent, Step::Pull, Step::ReleaseAgent, Step::Build]
    );
    let release = steps(&ordered).iter().position(|step| *step == Step::ReleaseAgent);
    let build = steps(&ordered).iter().position(|step| *step == Step::Build);
    assert!(release < build);
}

#[test]
fn orders_carry_the_configured_names() {
    let results = [
        StepResult::success("", Some(4242)),
        StepResult::success("Updating abc123..def456\n", None),
        StepResult::success("", None),
        StepResult::success("", None),
        StepResult::success("", None),
    ];
    let (ordered, _) = drive(&infra(), &DeployNotification::new("infra"), &results);
    assert_eq!(ordered.len(), 5);
    assert_eq!(ordered[0], Invocation::start_agent());
    assert_eq!(ordered[1], Invocation::pull("/var/www/infra"));
    assert_eq!(ordered[2], Invocation::release_agent(4242));
    assert_eq!(ordered[3], Invocation::build("/var/www/infra"));
    assert_eq!(ordered[4], Invocation::restart("api"));
}

#[test]
fn marker_in_the_middle_of_the_output_skips() {
    let results = [
        StepResult::success("", Some(1)),
        StepResult::success("From origin\nAlready up to date.\nbye\n", None),
        StepResult::success("", None),
    ];
    let end = Deployment::replay(&infra(), &DeployNotification::new("infra"), &results);
    assert_eq!(end.outcome(), Some(&DeployOutcome::Skipped));
    assert_eq!(end.issued(), &[Step::StartAgent, Step::Pull, Step::ReleaseAgent]);
}

#[test]
fn failed_pull_counts_before_the_marker() {
    let results = [
        StepResult::success("", Some(1)),
        StepResult::failure("Already up to date.\n", None),
        StepResult::success("", None),
    ];
    let end = Deployment::replay(&infra(), &DeployNotification::new("infra"), &results);
    assert_eq!(end.outcome(), Some(&DeployOutcome::Failed(Error::PullFailed)));
    assert_eq!(end.issued(), &[Step::StartAgent, Step::Pull, Step::ReleaseAgent]);
}

#[test]
fn pull_that_cannot_be_run_fails_after_the_release() {
    let results = [
        StepResult::success("", Some(9)),
        StepResult::system_error("No such file or directory (os error 2)"),
    ];
    let (ordered, outcome) = drive(&infra(), &DeployNotification::new("infra"), &results);
    assert_eq!(outcome, None);
    assert_eq!(ordered.last(), Some(&Invocation::release_agent(9)));

    let results = [
        StepResult::success("", Some(9)),
        StepResult::system_error("No such file or directory (os error 2)"),
        StepResult::success("", None),
    ];
    let (_, outcome) = drive(&infra(), &DeployNotification::new("infra"), &results);
    assert_eq!(outcome, Some(DeployOutcome::Failed(Error::PullFailed)));
}

#[test]
fn agent_that_does_not_start_ends_the_deployment() {
    let failures = [
        StepResult::failure("", Some(5)),
        StepResult::success("", None),
        StepResult::system_error("Permission denied (os error 13)"),
    ];
    for failure in failures {
        let results = [failure, StepResult::success("", None)];
        let end = Deployment::replay(&infra(), &DeployNotification::new("infra"), &results);
        assert_eq!(end.outcome(), Some(&DeployOutcome::Failed(Error::AgentStartFailed)));
        assert_eq!(end.issued(), &[Step::StartAgent]);
    }
}

#[test]
fn release_is_ordered_once_whatever_follows() {
    let endings: [&[StepResult]; 5] = [
        &[StepResult::failure("", None), StepResult::success("", None)],
        &[StepResult::success("Already up to date.", None), StepResult::success("", None)],
        &[
            StepResult::success("changed", None),
            StepResult::success("", None),
            StepResult::failure("", None),
        ],
        &[
            StepResult::success("changed", None),
            StepResult::success("", None),
            StepResult::success("", None),
            StepResult::failure("", None),
        ],
        &[
            StepResult::success("changed", None),
            StepResult::success("", None),
            StepResult::success("", None),
            StepResult::success("", None),
        ],
    ];
    for ending in endings {
        let mut results = vec![StepResult::success("", Some(31337))];
        for result in ending {
            results.push(result.clone());
        }
        let end = Deployment::replay(&infra(), &DeployNotification::new("infra"), &results);
        assert!(end.is_finished());
        let releases = end.issued().iter().filter(|step| **step == Step::ReleaseAgent).count();
        assert_eq!(releases, 1);
    }
}

#[test]
fn no_release_without_an_agent() {
    let rejected = Deployment::replay(&infra(), &DeployNotification::new("other"), &[]);
    assert!(!rejected.issued().contains(&Step::ReleaseAgent));
    let results = [StepResult::failure("", None)];
    let unstarted = Deployment::replay(&infra(), &DeployNotification::new("infra"), &results);
    assert!(unstarted.is_finished());
    assert!(!unstarted.issued().contains(&Step::ReleaseAgent));
}

#[test]
fn result_of_the_release_does_not_matter() {
    let releases = [
        StepResult::success("", None),
        StepResult::failure("kill: (4242) - No such process\n", None),
        StepResult::system_error("Resource temporarily unavailable (os error 11)"),
    ];
    for release in releases {
        let results = [
            StepResult::success("", Some(4242)),
            StepResult::success("Already up to date.\n", None),
            release,
        ];
        let end = Deployment::replay(&infra(), &DeployNotification::new("infra"), &results);
        assert_eq!(end.outcome(), Some(&DeployOutcome::Skipped));
    }
}

#[test]
fn build_that_cannot_be_run_is_an_io_error() {
    let results = [
        StepResult::success("", Some(4242)),
        StepResult::success("Updating\n", None),
        StepResult::success("", None),
        StepResult::system_error("No such file or directory (os error 2)"),
    ];
    let end = Deployment::replay(&infra(), &DeployNotification::new("infra"), &results);
    assert_eq!(
        end.outcome(),
        Some(&DeployOutcome::Failed(Error::IO(
            "No such file or directory (os error 2)".to_string()
        )))
    );
    assert_eq!(
        end.issued(),
        &[Step::StartAgent, Step::Pull, Step::ReleaseAgent, Step::Build]
    );
}

#[test]
fn restart_failures() {
    let before = || {
        vec![
            StepResult::success("", Some(4242)),
            StepResult::success("Updating\n", None),
            StepResult::success("", None),
            StepResult::success("", None),
        ]
    };
    let mut results = before();
    results.push(StepResult::failure("", None));
    let end = Deployment::replay(&infra(), &DeployNotification::new("infra"), &results);
    assert_eq!(end.outcome(), Some(&DeployOutcome::Failed(Error::RestartFailed)));

    let mut results = before();
    results.push(StepResult::system_error("Permission denied (os error 13)"));
    let end = Deployment::replay(&infra(), &DeployNotification::new("infra"), &results);
    assert_eq!(
        end.outcome(),
        Some(&DeployOutcome::Failed(Error::IO("Permission denied (os error 13)".to_string())))
    );
    assert_eq!(end.issued().len(), 5);
}

#[test]
fn finished_deployment_stays_finished() {
    let (state, _) = Deployment::begin(&infra(), &DeployNotification::new("other"));
    let (state, directive) = state.advance(&StepResult::success("Already up to date.", Some(1)));
    assert_eq!(
        directive,
        Directive::Done(DeployOutcome::Failed(Error::WrongRepository("other".to_string())))
    );
    assert!(state.issued().is_empty());

    let results = [
        StepResult::success("", Some(1)),
        StepResult::success("Already up to date.", None),
        StepResult::success("", None),
        StepResult::success("", None),
        StepResult::success("", None),
        StepResult::success("", None),
    ];
    let end = Deployment::replay(&infra(), &DeployNotification::new("infra"), &results);
    assert_eq!(end.outcome(), Some(&DeployOutcome::Skipped));
    assert_eq!(end.issued().len(), 3);
}

#[test]
fn replay_stops_where_the_results_run_out() {
    let none = Deployment::replay(&infra(), &DeployNotification::new("infra"), &[]);
    assert!(!none.is_finished());
    assert!(matches!(none.phase(), Phase::StartingAgent));
    assert_eq!(none.issued(), &[Step::StartAgent]);

    let one = [StepResult::success("", Some(12))];
    let pulling = Deployment::replay(&infra(), &DeployNotification::new("infra"), &one);
    match pulling.phase() {
        Phase::Pulling { agent } => assert_eq!(agent.pid(), 12),
        other => panic!("unexpected phase {:?}", other),
    }

    let two = [StepResult::success("", Some(12)), StepResult::success("new commits", None)];
    let releasing = Deployment::replay(&infra(), &DeployNotification::new("infra"), &two);
    assert!(matches!(releasing.phase(), Phase::ReleasingAgent { pull: PullVerdict::Changed }));
    assert_eq!(releasing.outcome(), None);
}

#[test]
fn pull_verdicts() {
    assert_eq!(PullVerdict::of(&StepResult::success("Already up to date.", None)), PullVerdict::Unchanged);
    assert_eq!(PullVerdict::of(&StepResult::success("Fast-forward", None)), PullVerdict::Changed);
    assert_eq!(PullVerdict::of(&StepResult::success("", None)), PullVerdict::Changed);
    assert_eq!(PullVerdict::of(&StepResult::failure("Already up to date.", None)), PullVerdict::Failed);
    assert_eq!(PullVerdict::of(&StepResult::system_error("nope")), PullVerdict::Failed);
}
