//! A run over several hosts: which host comes next, when the run stops, and
//! what it ends in.

use vstd::prelude::*;
use vstd::string::StringExecFns;
use crate::error::{DeployError, DeployErrorView};
use crate::job::{JobOutcome, JobOutcomeView};

verus! {

/// What a run does after a host failed for a reason that does not concern
/// the identity of a host.
#[derive(Clone, Copy, Debug, PartialEq, Eq, Structural)]
pub enum FailurePolicy {
    /// Stop the run at the first failure.
    Abort,
    /// Go on with the remaining hosts.
    Continue,
}

/// The mathematical value of a `Batch`.
pub struct BatchView {
    pub policy: FailurePolicy,
    /// The number of hosts of the run.
    pub total: nat,
    /// The number of hosts whose outcome is on record.
    pub done: nat,
    /// The failure of the first host that failed.
    pub first_failure: Option<DeployErrorView>,
    /// The position of the first host that failed.
    pub failed_target: Option<nat>,
    /// Whether a failure has stopped the run.
    pub stopped: bool,
}

impl BatchView {
    /// A run over `total` hosts before the first host.
    pub open spec fn initial(policy: FailurePolicy, total: nat) -> BatchView {
        BatchView {
            policy,
            total,
            done: 0,
            first_failure: None,
            failed_target: None,
            stopped: false,
        }
    }

    /// The position of the host to deploy to next; `None` when the run is
    /// over.
    pub open spec fn next_target(self) -> Option<nat> {
        if self.stopped || self.done >= self.total {
            None
        } else {
            Some(self.done)
        }
    }

    /// Whether a failure stops the run: one that concerns the identity of a
    /// host always does, any other does under the policy `Abort`.
    pub open spec fn stops_on(self, failure: DeployErrorView) -> bool {
        failure.is_trust_failure() || self.policy == FailurePolicy::Abort
    }

    /// The run after the outcome of the host that was next. When the run is
    /// over nothing changes.
    pub open spec fn after(self, outcome: JobOutcomeView) -> BatchView {
        if self.next_target() is None {
            self
        } else {
            match outcome {
                JobOutcomeView::Failed(e) => BatchView {
                    done: self.done + 1,
                    first_failure: if self.first_failure is Some {
                        self.first_failure
                    } else {
                        Some(e)
                    },
                    failed_target: if self.first_failure is Some {
                        self.failed_target
                    } else {
                        Some(self.done)
                    },
                    stopped: self.stops_on(e),
                    ..self
                },
                _ => BatchView { done: self.done + 1, ..self },
            }
        }
    }

    /// What the run ends in: the first failure, if a host failed.
    pub open spec fn result(self) -> Result<(), DeployErrorView> {
        match self.first_failure {
            Some(e) => Err(e),
            None => Ok(()),
        }
    }

    /// What holds of every run made by `initial` and moved on by `after`.
    pub open spec fn wf(self) -> bool {
        &&& self.done <= self.total
        &&& self.first_failure is Some <==> self.failed_target is Some
        &&& self.failed_target is Some ==> self.failed_target->0 < self.done
        &&& self.stopped ==> self.first_failure is Some
        &&& self.policy == FailurePolicy::Abort && self.first_failure is Some ==> self.stopped
    }
}

/// A run over several hosts, one after the other.
pub struct Batch {
    policy: FailurePolicy,
    total: usize,
    done: usize,
    first_failure: Option<DeployError>,
    failed_target: Option<usize>,
    stopped: bool,
}

impl View for Batch {
    type V = BatchView;

    closed spec fn view(&self) -> BatchView {
        BatchView {
            policy: self.policy,
            total: self.total as nat,
            done: self.done as nat,
            first_failure: match self.first_failure {
                Some(e) => Some(e@),
                None => None,
            },
            failed_target: match self.failed_target {
                Some(i) => Some(i as nat),
                None => None,
            },
            stopped: self.stopped,
        }
    }
}

impl Batch {
    #[verifier::type_invariant]
    spec fn well_formed(&self) -> bool {
        self@.wf()
    }

    /// Makes a run over `total` hosts.
    pub fn new(policy: FailurePolicy, total: usize) -> (batch: Batch)
        ensures
            batch@ == BatchView::initial(policy, total as nat),
    {
        Batch {
            policy,
            total,
            done: 0,
            first_failure: None,
            failed_target: None,
            stopped: false,
        }
    }

    /// Says which host is next, as its position among the hosts of the run;
    /// `None` when the run is over.
    pub fn next_target(&self) -> (next: Option<usize>)
        ensures
            self@.wf(),
            match next {
                Some(i) => self@.next_target() == Some(i as nat),
                None => self@.next_target() is None,
            },
    {
        proof {
            use_type_invariant(self);
        }
        if self.stopped || self.done >= self.total {
            None
        } else {
            Some(self.done)
        }
    }

    /// Takes in the outcome of the host that was next.
    pub fn record(self, outcome: JobOutcome) -> (next: Batch)
        ensures
            next@ == self@.after(outcome@),
            next@.wf(),
    {
        proof {
            use_type_invariant(&self);
        }
        if self.stopped || self.done >= self.total {
            return self;
        }
        let Batch { policy, total, done, first_failure, failed_target, stopped } = self;
        match outcome {
            JobOutcome::Failed(e) => {
                let stops = e.is_trust_failure() || policy == FailurePolicy::Abort;
                match first_failure {
                    Some(first) => Batch {
                        policy,
                        total,
                        done: done + 1,
                        first_failure: Some(first),
                        failed_target,
                        stopped: stops,
                    },
                    None => Batch {
                        policy,
                        total,
                        done: done + 1,
                        first_failure: Some(e),
                        failed_target: Some(done),
                        stopped: stops,
                    },
                }
            },
            _ => Batch { policy, total, done: done + 1, first_failure, failed_target, stopped },
        }
    }

    /// Says which host was the first to fail, as its position among the
    /// hosts of the run.
    pub fn failed_target(&self) -> (target: Option<usize>)
        ensures
            self@.wf(),
            match target {
                Some(i) => self@.failed_target == Some(i as nat),
                None => self@.failed_target is None,
            },
    {
        proof {
            use_type_invariant(self);
        }
        self.failed_target
    }

    /// Says what the run ended in.
    pub fn into_result(self) -> (res: Result<(), DeployError>)
        ensures
            match res {
                Ok(_) => self@.result() is Ok,
                Err(e) => self@.result() == Err::<(), DeployErrorView>(e@),
            },
    {
        match self.first_failure {
            Some(e) => Err(e),
            None => Ok(()),
        }
    }
}

/// A run stays well formed, and takes its hosts one by one in their order.
pub proof fn law_hosts_in_order(batch: BatchView, outcome: JobOutcomeView)
    requires
        batch.wf(),
    ensures
        batch.after(outcome).wf(),
        BatchView::initial(batch.policy, batch.total).wf(),
        batch.next_target() is Some ==> batch.after(outcome).done == batch.done + 1,
        batch.next_target() is None ==> batch.after(outcome) == batch,
        batch.after(outcome).total == batch.total,
        batch.after(outcome).policy == batch.policy,
{
}

/// A failure that concerns the identity of a host ends the run under every
/// policy: no further host is attempted, and the run ends in a failure. What
/// earlier hosts came to is not touched: the count of hosts on record only
/// grows by the failed one.
pub proof fn law_trust_failure_ends_the_run(batch: BatchView, failure: DeployErrorView)
    requires
        batch.wf(),
        batch.next_target() is Some,
        failure.is_trust_failure(),
    ensures
        batch.after(JobOutcomeView::Failed(failure)).next_target() is None,
        batch.after(JobOutcomeView::Failed(failure)).result() is Err,
        batch.first_failure is None ==> batch.after(JobOutcomeView::Failed(failure)).result()
            == Err::<(), DeployErrorView>(failure) && batch.after(
            JobOutcomeView::Failed(failure),
        ).failed_target == Some(batch.done),
        batch.after(JobOutcomeView::Failed(failure)).done == batch.done + 1,
{
}

/// A host that was deployed or skipped neither stops the run nor makes it
/// fail; any other failure stops the run exactly under the policy `Abort`.
pub proof fn law_run_goes_on(batch: BatchView, outcome: JobOutcomeView)
    requires
        batch.wf(),
        batch.next_target() is Some,
    ensures
        !(outcome is Failed) ==> batch.after(outcome).stopped == batch.stopped && batch.after(
            outcome,
        ).result() == batch.result(),
        outcome matches JobOutcomeView::Failed(e) ==> batch.after(outcome).stopped == (
        e.is_trust_failure() || batch.policy == FailurePolicy::Abort),
{
}

/// The line that reports the failure of a host: the name of the host, a
/// colon, and the message of the failure.
pub open spec fn failure_report_text(name: Seq<char>, failure: DeployErrorView) -> Seq<char> {
    name + ": "@ + failure.message()
}

/// Renders the line that reports the failure of a host.
pub fn failure_report(name: &str, failure: &DeployError) -> (text: String)
    ensures
        text@ == failure_report_text(name@, failure@),
{
    let mut text = name.to_owned();
    text.append(": ");
    let message = failure.message();
    text.append(message.as_str());
    text
}

/// The advice printed for a host that the trust store does not know.
pub open spec fn unknown_host_advice_text() -> Seq<char> {
    "host not found in known hosts (ssh at least once and compare fingerprints)"@
}

/// Returns the advice printed for a host that the trust store does not know.
pub fn unknown_host_advice() -> (text: &'static str)
    ensures
        text@ == unknown_host_advice_text(),
{
    "host not found in known hosts (ssh at least once and compare fingerprints)"
}

/// The line that announces the deployment of a host. In quiet mode it ends
/// in a blank, for the status that is to follow on the same line.
pub open spec fn announcement_text(name: Seq<char>, quiet: bool) -> Seq<char> {
    if quiet {
        "deploying "@ + name + "... "@
    } else {
        "deploying "@ + name + "..."@
    }
}

/// Renders the line that announces the deployment of a host.
pub fn announcement(name: &str, quiet: bool) -> (text: String)
    ensures
        text@ == announcement_text(name@, quiet),
{
    let mut text = "deploying ".to_owned();
    text.append(name);
    if quiet {
        text.append("... ");
    } else {
        text.append("...");
    }
    text
}

/// Returns the status printed after a host was deployed: in quiet mode the
/// word `done!`, otherwise nothing, since the build log was shown.
pub fn completion_note(quiet: bool) -> (note: Option<&'static str>)
    ensures
        note is Some <==> quiet,
        quiet ==> note->0@ == "done!"@,
{
    if quiet {
        Some("done!")
    } else {
        None
    }
}

} // verus!
