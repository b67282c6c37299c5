use deploy::cli::RebuildAction;
use deploy::error::DeployError;
use deploy::host::{AddressFamily, Host};
use deploy::job::{CommandInput, JobAction, JobEvent, JobOutcome, JobState, RemoteJob};
use deploy::runner::{conclude, CommandResult, OutputMode};
use deploy::trust::TrustVerdict;

fn web1() -> Host {
    Host::from_entry("10.0.0.5".to_string(), AddressFamily::V4, None, None, "alice")
}

fn done(output: &str) -> JobEvent {
    JobEvent::CommandDone(CommandResult { exit_status: 0, captured_output: output.to_string() })
}

fn run(command: &str, input: CommandInput, mode: OutputMode) -> JobAction {
    JobAction::Run { command: command.to_string(), input, mode }
}

/// Drives a job through the given events and returns the actions it asked
/// for, the first one included.
fn drive(job: RemoteJob, events: Vec<JobEvent>) -> (RemoteJob, Vec<JobAction>) {
    let mut job = job;
    let mut actions = vec![job.next_action()];
    for event in events {
        job = job.advance(event);
        actions.push(job.next_action());
    }
    (job, actions)
}

fn uploaded(quiet: bool) -> RemoteJob {
    let (job, _) = drive(
        RemoteJob::new(web1(), RebuildAction::Switch, quiet),
        vec![
            JobEvent::Connected,
            JobEvent::Verdict(TrustVerdict::Match),
            JobEvent::Authenticated(true),
            done("/tmp/tmp.abc"),
            done(""),
        ],
    );
    assert_eq!(job.state(), JobState::Rebuilding);
    job
}

#[test]
fn deployment_issues_four_commands_in_order() {
    let job = RemoteJob::new(web1(), RebuildAction::Switch, false);
    assert_eq!(job.state(), JobState::Connecting);
    let (job, actions) = drive(
        job,
        vec![
            JobEvent::Connected,
            JobEvent::Verdict(TrustVerdict::Match),
            JobEvent::Authenticated(true),
            done("/tmp/tmp.abc"),
            done(""),
            done("building...\nactivating"),
            done(""),
        ],
    );
    assert_eq!(
        actions,
        vec![
            JobAction::Connect { endpoint: "10.0.0.5:22".to_string() },
            JobAction::Verify {
                aliases: vec!["10.0.0.5".to_string(), "10.0.0.5:22".to_string()],
            },
            JobAction::Authenticate { user: "alice".to_string() },
            run("mktemp -d", CommandInput::Empty, OutputMode::Capture),
            run("tar -C \"/tmp/tmp.abc\" -xf -", CommandInput::Archive, OutputMode::Capture),
            run(
                "sudo nixos-rebuild switch --flake \"/tmp/tmp.abc\" -L",
                CommandInput::Empty,
                OutputMode::Dual,
            ),
            run("rm -r \"/tmp/tmp.abc\"", CommandInput::Empty, OutputMode::Capture),
            JobAction::Disconnect,
        ]
    );
    assert_eq!(job.state(), JobState::Disconnected);
    assert!(job.is_over());
    assert!(job.authenticated());
    assert_eq!(job.tmpdir(), Some("/tmp/tmp.abc"));
    assert_eq!(job.into_outcome(), Some(JobOutcome::Deployed));
}

#[test]
fn quiet_rebuild_runs_in_capture_mode() {
    let job = uploaded(true);
    assert_eq!(
        job.next_action(),
        run(
            "sudo nixos-rebuild switch --flake \"/tmp/tmp.abc\" -L",
            CommandInput::Empty,
            OutputMode::Capture,
        )
    );
}

#[test]
fn rebuild_action_is_named_in_the_command() {
    let (job, _) = drive(
        RemoteJob::new(web1(), RebuildAction::Boot, false),
        vec![
            JobEvent::Connected,
            JobEvent::Verdict(TrustVerdict::Match),
            JobEvent::Authenticated(true),
            done("/tmp/t"),
            done(""),
        ],
    );
    assert_eq!(
        job.next_action(),
        run("sudo nixos-rebuild boot --flake \"/tmp/t\" -L", CommandInput::Empty, OutputMode::Dual)
    );
}

#[test]
fn failed_rebuild_is_cleaned_up_and_then_reported() {
    let command = "sudo nixos-rebuild switch --flake \"/tmp/tmp.abc\" -L";
    let failure = conclude(OutputMode::Dual, command, 1, b"error: build failed\n".to_vec());
    let job = uploaded(false).advance(JobEvent::from_run(failure));
    assert_eq!(job.state(), JobState::CleaningUp);
    assert!(!job.is_over());
    assert_eq!(
        job.next_action(),
        run("rm -r \"/tmp/tmp.abc\"", CommandInput::Empty, OutputMode::Capture)
    );
    let job = job.advance(done(""));
    assert_eq!(job.state(), JobState::Failed);
    assert_eq!(job.next_action(), JobAction::Release);
    let outcome = job.into_outcome();
    assert_eq!(
        outcome,
        Some(JobOutcome::Failed(DeployError::RemoteExec {
            command: command.to_string(),
            status: 1,
            output: Some("error: build failed\n".to_string()),
        }))
    );
}

#[test]
fn failed_cleanup_does_not_mask_the_failed_rebuild() {
    let rebuild_failure = DeployError::RemoteExec {
        command: "sudo nixos-rebuild switch --flake \"/tmp/tmp.abc\" -L".to_string(),
        status: 1,
        output: None,
    };
    let cleanup_failure = DeployError::RemoteExec {
        command: "rm -r \"/tmp/tmp.abc\"".to_string(),
        status: 2,
        output: Some("rm: cannot remove".to_string()),
    };
    let job = uploaded(false)
        .advance(JobEvent::Failed(rebuild_failure.clone()))
        .advance(JobEvent::Failed(cleanup_failure));
    assert_eq!(job.into_outcome(), Some(JobOutcome::Failed(rebuild_failure)));
}

#[test]
fn failed_cleanup_alone_fails_the_job() {
    let cleanup_failure = DeployError::RemoteExec {
        command: "rm -r \"/tmp/tmp.abc\"".to_string(),
        status: 2,
        output: Some(String::new()),
    };
    let job = uploaded(false).advance(done("ok")).advance(JobEvent::Failed(cleanup_failure.clone()));
    assert_eq!(job.into_outcome(), Some(JobOutcome::Failed(cleanup_failure)));
}

#[test]
fn non_zero_status_in_a_command_result_is_a_failure() {
    let job = uploaded(true).advance(JobEvent::CommandDone(CommandResult {
        exit_status: 4,
        captured_output: "out".to_string(),
    }));
    assert_eq!(job.state(), JobState::CleaningUp);
    let job = job.advance(done(""));
    assert_eq!(
        job.into_outcome(),
        Some(JobOutcome::Failed(DeployError::RemoteExec {
            command: "sudo nixos-rebuild switch --flake \"/tmp/tmp.abc\" -L".to_string(),
            status: 4,
            output: Some("out".to_string()),
        }))
    );
}

#[test]
fn failed_unpacking_is_cleaned_up_too() {
    let failure = DeployError::RemoteExec {
        command: "tar -C \"/tmp/tmp.abc\" -xf -".to_string(),
        status: 2,
        output: Some("tar: short read".to_string()),
    };
    let (job, actions) = drive(
        RemoteJob::new(web1(), RebuildAction::Switch, false),
        vec![
            JobEvent::Connected,
            JobEvent::Verdict(TrustVerdict::Match),
            JobEvent::Authenticated(true),
            done("/tmp/tmp.abc"),
            JobEvent::Failed(failure.clone()),
            done(""),
        ],
    );
    assert_eq!(
        actions[5],
        run("rm -r \"/tmp/tmp.abc\"", CommandInput::Empty, OutputMode::Capture)
    );
    assert_eq!(actions[6], JobAction::Release);
    assert_eq!(job.into_outcome(), Some(JobOutcome::Failed(failure)));
}

#[test]
fn failed_mktemp_fails_the_job_at_once() {
    let failure =
        DeployError::RemoteExec { command: "mktemp -d".to_string(), status: 1, output: None };
    let (job, actions) = drive(
        RemoteJob::new(web1(), RebuildAction::Switch, false),
        vec![
            JobEvent::Connected,
            JobEvent::Verdict(TrustVerdict::Match),
            JobEvent::Authenticated(true),
            JobEvent::Failed(failure.clone()),
        ],
    );
    assert_eq!(actions[4], JobAction::Release);
    assert_eq!(job.tmpdir(), None);
    assert_eq!(job.into_outcome(), Some(JobOutcome::Failed(failure)));
}

#[test]
fn mismatch_fails_the_job_before_authentication() {
    let (job, actions) = drive(
        RemoteJob::new(web1(), RebuildAction::Switch, false),
        vec![JobEvent::Connected, JobEvent::Verdict(TrustVerdict::Mismatch)],
    );
    assert_eq!(actions[2], JobAction::Release);
    assert!(!job.authenticated());
    assert_eq!(job.into_outcome(), Some(JobOutcome::Failed(DeployError::TrustMismatch)));
}

#[test]
fn check_failure_fails_the_job() {
    let (job, _) = drive(
        RemoteJob::new(web1(), RebuildAction::Switch, false),
        vec![JobEvent::Connected, JobEvent::Verdict(TrustVerdict::CheckFailure)],
    );
    assert_eq!(job.into_outcome(), Some(JobOutcome::Failed(DeployError::TrustCheck)));
}

#[test]
fn unknown_host_is_skipped() {
    let (job, actions) = drive(
        RemoteJob::new(web1(), RebuildAction::Switch, false),
        vec![JobEvent::Connected, JobEvent::Verdict(TrustVerdict::NotFound)],
    );
    assert_eq!(job.state(), JobState::Skipped);
    assert_eq!(actions[2], JobAction::Release);
    assert_eq!(job.into_outcome(), Some(JobOutcome::Skipped));
}

#[test]
fn refused_authentication_fails_the_job() {
    let (job, _) = drive(
        RemoteJob::new(web1(), RebuildAction::Switch, false),
        vec![
            JobEvent::Connected,
            JobEvent::Verdict(TrustVerdict::Match),
            JobEvent::Authenticated(false),
        ],
    );
    assert_eq!(job.into_outcome(), Some(JobOutcome::Failed(DeployError::Authentication)));
}

#[test]
fn failed_connection_fails_the_job() {
    let failure = DeployError::Transport { message: "connection refused".to_string() };
    let job = RemoteJob::new(web1(), RebuildAction::Switch, false)
        .advance(JobEvent::Failed(failure.clone()));
    assert_eq!(job.into_outcome(), Some(JobOutcome::Failed(failure)));
}

#[test]
fn failed_disconnection_fails_the_job() {
    let failure = DeployError::Transport { message: "broken pipe".to_string() };
    let job = uploaded(false).advance(done("")).advance(done(""));
    assert_eq!(job.state(), JobState::Disconnected);
    let job = job.advance(JobEvent::Failed(failure.clone()));
    assert_eq!(job.into_outcome(), Some(JobOutcome::Failed(failure)));
}

#[test]
fn events_that_answer_nothing_change_nothing() {
    let job = RemoteJob::new(web1(), RebuildAction::Switch, false)
        .advance(JobEvent::Verdict(TrustVerdict::Match))
        .advance(JobEvent::Authenticated(true))
        .advance(done("/tmp/x"));
    assert_eq!(job.state(), JobState::Connecting);
    assert_eq!(job.tmpdir(), None);
    assert_eq!(job.into_outcome(), None);
    let failed = RemoteJob::new(web1(), RebuildAction::Switch, false)
        .advance(JobEvent::Connected)
        .advance(JobEvent::Verdict(TrustVerdict::Mismatch))
        .advance(JobEvent::Verdict(TrustVerdict::Match))
        .advance(JobEvent::Failed(DeployError::Authentication));
    assert_eq!(failed.into_outcome(), Some(JobOutcome::Failed(DeployError::TrustMismatch)));
}
