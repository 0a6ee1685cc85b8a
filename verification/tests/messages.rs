use webhook_deploy::outcome::DeployOutcome;
use webhook_deploy::Error;

#[test]
fn success_messages() {
    assert_eq!(DeployOutcome::Skipped.message(), "Already up to date");
    assert_eq!(DeployOutcome::Deployed.message(), "Deployed");
    assert!(!DeployOutcome::Skipped.is_failure());
    assert!(!DeployOutcome::Deployed.is_failure());
}

#[test]
fn wrong_repository_message_names_the_repository() {
    let error = Error::WrongRepository("other".to_string());
    assert_eq!(error.message(), "tried to deploy a different repo: other");
    assert_eq!(Error::WrongRepository(String::new()).message(), "tried to deploy a different repo: ");
}

#[test]
fn io_message_carries_the_system_error() {
    let error = Error::IO("No such file or directory (os error 2)".to_string());
    assert_eq!(error.message(), "io error: No such file or directory (os error 2)");
}

#[test]
fn step_failure_messages() {
    assert_eq!(Error::AgentStartFailed.message(), "failed to start the credential agent");
    assert_eq!(Error::PullFailed.message(), "failed to pull the source");
    assert_eq!(Error::BuildFailed.message(), "build failed");
    assert_eq!(Error::RestartFailed.message(), "failed to restart the service");
}

#[test]
fn failed_outcome_reports_its_error() {
    let errors = [
        Error::WrongRepository("other".to_string()),
        Error::AgentStartFailed,
        Error::PullFailed,
        Error::BuildFailed,
        Error::RestartFailed,
        Error::IO("broken pipe".to_string()),
    ];
    for error in errors {
        let text = error.message();
        let outcome = DeployOutcome::Failed(error);
        assert!(outcome.is_failure());
        assert_eq!(outcome.message(), text);
    }
}

#[test]
fn copies_are_equal() {
    let error = Error::IO("broken pipe".to_string());
    assert_eq!(error.clone(), error);
    let outcome = DeployOutcome::Failed(Error::WrongRepository("other".to_string()));
    assert_eq!(outcome.clone(), outcome);
    assert_eq!(DeployOutcome::Skipped.clone(), DeployOutcome::Skipped);
    assert_ne!(DeployOutcome::Skipped, DeployOutcome::Deployed);
}
