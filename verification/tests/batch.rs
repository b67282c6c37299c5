use deploy::batch::{
    announcement, completion_note, failure_report, unknown_host_advice, Batch, FailurePolicy,
};
use deploy::error::DeployError;
use deploy::host::{AddressFamily, Host};
use deploy::inventory::{find_host, select_targets, NamedHost};
use deploy::job::JobOutcome;

fn named(name: &str, address: &str) -> NamedHost {
    NamedHost {
        name: name.to_string(),
        host: Host::from_entry(address.to_string(), AddressFamily::V4, None, None, "alice"),
    }
}

fn inventory() -> Vec<NamedHost> {
    vec![named("web1", "10.0.0.5"), named("web2", "10.0.0.6"), named("db", "10.0.0.7")]
}

#[test]
fn mismatch_on_the_second_host_ends_the_run() {
    let outcomes = [
        JobOutcome::Deployed,
        JobOutcome::Failed(DeployError::TrustMismatch),
        JobOutcome::Deployed,
    ];
    for policy in [FailurePolicy::Abort, FailurePolicy::Continue] {
        let mut batch = Batch::new(policy, 3);
        let mut attempted = Vec::new();
        while let Some(target) = batch.next_target() {
            attempted.push(target);
            batch = batch.record(outcomes[target].clone());
        }
        assert_eq!(attempted, vec![0, 1]);
        assert_eq!(batch.failed_target(), Some(1));
        assert_eq!(batch.into_result(), Err(DeployError::TrustMismatch));
    }
}

#[test]
fn trust_check_failure_ends_the_run_under_every_policy() {
    let batch = Batch::new(FailurePolicy::Continue, 2)
        .record(JobOutcome::Failed(DeployError::TrustCheck));
    assert_eq!(batch.next_target(), None);
    assert_eq!(batch.into_result(), Err(DeployError::TrustCheck));
}

#[test]
fn skipped_hosts_do_not_stop_the_run() {
    let batch = Batch::new(FailurePolicy::Abort, 3).record(JobOutcome::Skipped);
    assert_eq!(batch.next_target(), Some(1));
    let batch = batch.record(JobOutcome::Deployed).record(JobOutcome::Skipped);
    assert_eq!(batch.next_target(), None);
    assert_eq!(batch.into_result(), Ok(()));
}

#[test]
fn first_failure_aborts_under_the_abort_policy() {
    let batch = Batch::new(FailurePolicy::Abort, 3)
        .record(JobOutcome::Failed(DeployError::Authentication));
    assert_eq!(batch.next_target(), None);
    let batch = batch.record(JobOutcome::Failed(DeployError::TrustMismatch));
    assert_eq!(batch.into_result(), Err(DeployError::Authentication));
}

#[test]
fn other_failures_let_the_run_go_on_under_the_continue_policy() {
    let batch = Batch::new(FailurePolicy::Continue, 3)
        .record(JobOutcome::Failed(DeployError::Authentication));
    assert_eq!(batch.next_target(), Some(1));
    let batch = batch
        .record(JobOutcome::Failed(DeployError::Transport { message: "reset".to_string() }))
        .record(JobOutcome::Deployed);
    assert_eq!(batch.next_target(), None);
    assert_eq!(batch.failed_target(), Some(0));
    assert_eq!(batch.into_result(), Err(DeployError::Authentication));
}

#[test]
fn failures_are_reported_with_the_name_of_the_host() {
    assert_eq!(
        failure_report("web1", &DeployError::Authentication),
        "web1: Authentication failed"
    );
    let failure =
        DeployError::RemoteExec { command: "mktemp -d".to_string(), status: 1, output: None };
    assert_eq!(failure_report("db", &failure), "db: `mktemp -d` returned exit status 1");
}

#[test]
fn run_over_no_hosts_is_over_at_once() {
    let batch = Batch::new(FailurePolicy::Abort, 0);
    assert_eq!(batch.next_target(), None);
    assert_eq!(batch.failed_target(), None);
    assert_eq!(batch.record(JobOutcome::Deployed).into_result(), Ok(()));
}

#[test]
fn all_selects_every_host_in_inventory_order() {
    assert_eq!(select_targets(true, &["nope".to_string()], &inventory()), Ok(vec![0, 1, 2]));
    assert_eq!(select_targets(true, &[], &[]), Ok(Vec::new()));
}

#[test]
fn requested_hosts_are_selected_in_request_order() {
    let requested = ["db".to_string(), "web1".to_string(), "db".to_string()];
    assert_eq!(select_targets(false, &requested, &inventory()), Ok(vec![2, 0, 2]));
    assert_eq!(select_targets(false, &[], &inventory()), Ok(Vec::new()));
}

#[test]
fn unknown_host_fails_the_selection() {
    let requested = ["web1".to_string(), "web9".to_string(), "web8".to_string()];
    let failure = select_targets(false, &requested, &inventory()).unwrap_err();
    assert_eq!(failure, DeployError::UnknownHost { name: "web9".to_string() });
    assert_eq!(failure.message(), "Unknown host \"web9\"");
}

#[test]
fn hosts_are_found_by_name() {
    let hosts = inventory();
    assert_eq!(find_host(&hosts, &"web2".to_string()), Some(1));
    assert_eq!(find_host(&hosts, &"Web2".to_string()), None);
    assert_eq!(find_host(&[], &"web2".to_string()), None);
    let doubled = vec![named("a", "10.0.0.1"), named("b", "10.0.0.2"), named("b", "10.0.0.3")];
    assert_eq!(find_host(&doubled, &"b".to_string()), Some(1));
}

#[test]
fn progress_lines() {
    assert_eq!(announcement("web1", false), "deploying web1...");
    assert_eq!(announcement("web1", true), "deploying web1... ");
    assert_eq!(completion_note(true), Some("done!"));
    assert_eq!(completion_note(false), None);
    assert_eq!(
        unknown_host_advice(),
        "host not found in known hosts (ssh at least once and compare fingerprints)"
    );
}
