//! The deployment of one host as a state machine. The job says what is to be
//! done next; whoever drives it does that and reports what came of it.

use vstd::prelude::*;
use crate::cli::RebuildAction;
use crate::command::{
    cleanup_command,
    cleanup_line,
    debug_quoted,
    extract_command,
    extract_line,
    make_tmpdir_command,
    make_tmpdir_line,
    rebuild_command,
    rebuild_line,
};
use crate::error::{DeployError, DeployErrorView};
use crate::host::{Host, HostView};
use crate::runner::{CommandResult, CommandResultView, OutputMode};
use crate::text::texts;
use crate::trust::TrustVerdict;

verus! {

/// Where a job stands.
#[derive(Clone, Copy, Debug, PartialEq, Eq, Structural)]
pub enum JobState {
    /// The connection to the host is being opened.
    Connecting,
    /// The key the host presented is being checked against the trust store.
    Verifying,
    /// The user is being authenticated.
    Authenticating,
    /// The temporary directory is being made, then filled from the archive.
    Uploading,
    /// The rebuild command is running.
    Rebuilding,
    /// The temporary directory is being removed.
    CleaningUp,
    /// The deployment went through; the peer is told of the disconnection.
    Disconnected,
    /// The trust store does not know the host; nothing was done to it.
    Skipped,
    /// The deployment failed.
    Failed,
}

/// What the input of a remote command is.
#[derive(Clone, Copy, Debug, PartialEq, Eq, Structural)]
pub enum CommandInput {
    /// No input.
    Empty,
    /// The bytes of the archive.
    Archive,
}

/// What the driver of a job is to do next.
#[derive(Clone, Debug, PartialEq, Eq)]
pub enum JobAction {
    /// Open a connection to the endpoint and complete the handshake.
    Connect { endpoint: String },
    /// Check the key the host presented under these aliases, in this order.
    Verify { aliases: Vec<String> },
    /// Authenticate as this user with what the credential agent offers.
    Authenticate { user: String },
    /// Run this command on the host.
    Run { command: String, input: CommandInput, mode: OutputMode },
    /// Tell the peer of the disconnection, then release the connection.
    Disconnect,
    /// Release the connection; the job is over.
    Release,
}

/// The mathematical value of a `JobAction`.
pub enum JobActionView {
    Connect { endpoint: Seq<char> },
    Verify { aliases: Seq<Seq<char>> },
    Authenticate { user: Seq<char> },
    Run { command: Seq<char>, input: CommandInput, mode: OutputMode },
    Disconnect,
    Release,
}

impl View for JobAction {
    type V = JobActionView;

    open spec fn view(&self) -> JobActionView {
        match *self {
            JobAction::Connect { endpoint } => JobActionView::Connect { endpoint: endpoint@ },
            JobAction::Verify { aliases } => JobActionView::Verify { aliases: texts(aliases@) },
            JobAction::Authenticate { user } => JobActionView::Authenticate { user: user@ },
            JobAction::Run { command, input, mode } => JobActionView::Run {
                command: command@,
                input,
                mode,
            },
            JobAction::Disconnect => JobActionView::Disconnect,
            JobAction::Release => JobActionView::Release,
        }
    }
}

/// What came of the action a job asked for.
#[derive(Clone, Debug, PartialEq, Eq)]
pub enum JobEvent {
    /// The connection stands and the host has presented its key.
    Connected,
    /// The trust store gave this verdict on the presented key.
    Verdict(TrustVerdict),
    /// Authentication ended; the flag tells whether the user is now
    /// authenticated.
    Authenticated(bool),
    /// The command ran to its end.
    CommandDone(CommandResult),
    /// The action could not be carried out, or the command failed.
    Failed(DeployError),
}

/// The mathematical value of a `JobEvent`.
pub enum JobEventView {
    Connected,
    Verdict(TrustVerdict),
    Authenticated(bool),
    CommandDone(CommandResultView),
    Failed(DeployErrorView),
}

impl View for JobEvent {
    type V = JobEventView;

    open spec fn view(&self) -> JobEventView {
        match *self {
            JobEvent::Connected => JobEventView::Connected,
            JobEvent::Verdict(v) => JobEventView::Verdict(v),
            JobEvent::Authenticated(ok) => JobEventView::Authenticated(ok),
            JobEvent::CommandDone(r) => JobEventView::CommandDone(r@),
            JobEvent::Failed(e) => JobEventView::Failed(e@),
        }
    }
}

impl JobEvent {
    /// Makes the event that reports the outcome of a command run.
    pub fn from_run(outcome: Result<CommandResult, DeployError>) -> (event: JobEvent)
        ensures
            event@ == (match outcome {
                Ok(r) => JobEventView::CommandDone(r@),
                Err(e) => JobEventView::Failed(e@),
            }),
    {
        match outcome {
            Ok(r) => JobEvent::CommandDone(r),
            Err(e) => JobEvent::Failed(e),
        }
    }
}

/// How a job ended.
#[derive(Clone, Debug, PartialEq, Eq)]
pub enum JobOutcome {
    /// The host runs the new configuration.
    Deployed,
    /// The host was left alone because the trust store does not know it.
    Skipped,
    /// The deployment failed for this reason.
    Failed(DeployError),
}

/// The mathematical value of a `JobOutcome`.
pub enum JobOutcomeView {
    Deployed,
    Skipped,
    Failed(DeployErrorView),
}

impl View for JobOutcome {
    type V = JobOutcomeView;

    open spec fn view(&self) -> JobOutcomeView {
        match *self {
            JobOutcome::Deployed => JobOutcomeView::Deployed,
            JobOutcome::Skipped => JobOutcomeView::Skipped,
            JobOutcome::Failed(e) => JobOutcomeView::Failed(e@),
        }
    }
}

/// The mathematical value of a `RemoteJob`.
pub struct JobView {
    pub host: HostView,
    pub action: RebuildAction,
    pub quiet: bool,
    pub state: JobState,
    pub authenticated: bool,
    pub tmpdir: Option<Seq<char>>,
    pub failure: Option<DeployErrorView>,
}

impl JobView {
    /// The job for a host before anything was done.
    pub open spec fn initial(host: HostView, action: RebuildAction, quiet: bool) -> JobView {
        JobView {
            host,
            action,
            quiet,
            state: JobState::Connecting,
            authenticated: false,
            tmpdir: None,
            failure: None,
        }
    }

    /// Whether the job is over.
    pub open spec fn is_over(self) -> bool {
        self.state == JobState::Disconnected || self.state == JobState::Skipped || self.state
            == JobState::Failed
    }

    /// What holds of every job that was made by `initial` and moved on by
    /// `after`:
    /// - the user is authenticated from `Uploading` on and not before;
    /// - a temporary directory exists only on an authenticated session, and
    ///   always from `Rebuilding` on;
    /// - a failed job has its failure on record, and a failure is on record
    ///   only in a failed job and in one that cleans up after a failed
    ///   command.
    pub open spec fn wf(self) -> bool {
        &&& (self.state == JobState::Uploading || self.state == JobState::Rebuilding || self.state
            == JobState::CleaningUp || self.state == JobState::Disconnected)
            ==> self.authenticated
        &&& (self.state == JobState::Connecting || self.state == JobState::Verifying || self.state
            == JobState::Authenticating || self.state == JobState::Skipped)
            ==> !self.authenticated
        &&& self.tmpdir is Some ==> self.authenticated
        &&& (self.state == JobState::Rebuilding || self.state == JobState::CleaningUp || self.state
            == JobState::Disconnected) ==> self.tmpdir is Some
        &&& self.state == JobState::Failed ==> self.failure is Some
        &&& self.failure is Some ==> (self.state == JobState::Failed || self.state
            == JobState::CleaningUp)
    }

    /// The temporary directory as text; empty while there is none.
    pub open spec fn tmpdir_text(self) -> Seq<char> {
        match self.tmpdir {
            Some(dir) => dir,
            None => Seq::empty(),
        }
    }

    /// What the driver is to do next, as a function of where the job stands.
    pub open spec fn pending(self) -> JobActionView {
        match self.state {
            JobState::Connecting => JobActionView::Connect { endpoint: self.host.endpoint() },
            JobState::Verifying => JobActionView::Verify { aliases: self.host.aliases() },
            JobState::Authenticating => JobActionView::Authenticate { user: self.host.user },
            JobState::Uploading => if self.tmpdir is Some {
                JobActionView::Run {
                    command: extract_line(debug_quoted(self.tmpdir_text())),
                    input: CommandInput::Archive,
                    mode: OutputMode::Capture,
                }
            } else {
                JobActionView::Run {
                    command: make_tmpdir_line(),
                    input: CommandInput::Empty,
                    mode: OutputMode::Capture,
                }
            },
            JobState::Rebuilding => JobActionView::Run {
                command: rebuild_line(self.action, debug_quoted(self.tmpdir_text())),
                input: CommandInput::Empty,
                mode: if self.quiet {
                    OutputMode::Capture
                } else {
                    OutputMode::Dual
                },
            },
            JobState::CleaningUp => JobActionView::Run {
                command: cleanup_line(debug_quoted(self.tmpdir_text())),
                input: CommandInput::Empty,
                mode: OutputMode::Capture,
            },
            JobState::Disconnected => JobActionView::Disconnect,
            JobState::Skipped => JobActionView::Release,
            JobState::Failed => JobActionView::Release,
        }
    }

    /// Whether an event answers the action that is pending. A failure
    /// answers every action but `Release`.
    pub open spec fn answered_by(self, event: JobEventView) -> bool {
        match event {
            JobEventView::Connected => self.state == JobState::Connecting,
            JobEventView::Verdict(_) => self.state == JobState::Verifying,
            JobEventView::Authenticated(_) => self.state == JobState::Authenticating,
            JobEventView::CommandDone(_) => self.state == JobState::Uploading || self.state
                == JobState::Rebuilding || self.state == JobState::CleaningUp,
            JobEventView::Failed(_) => self.state != JobState::Skipped && self.state
                != JobState::Failed,
        }
    }

    /// The failure that an event reports of the pending command, if any: the
    /// failure it carries, or a non-zero exit status, which is a failure of
    /// the pending command whatever else the event says.
    pub open spec fn command_failure(self, event: JobEventView) -> Option<DeployErrorView> {
        match event {
            JobEventView::Failed(e) => Some(e),
            JobEventView::CommandDone(r) => if r.exit_status != 0 {
                match self.pending() {
                    JobActionView::Run { command, input, mode } => Some(
                        DeployErrorView::RemoteExec {
                            command,
                            status: r.exit_status,
                            output: if mode.captures() {
                                Some(r.captured_output)
                            } else {
                                None
                            },
                        },
                    ),
                    _ => None,
                }
            } else {
                None
            },
            _ => None,
        }
    }

    /// The job, failed for the given reason.
    pub open spec fn failed_with(self, reason: DeployErrorView) -> JobView {
        JobView { state: JobState::Failed, failure: Some(reason), ..self }
    }

    /// The job in another state, all else unchanged.
    pub open spec fn moved_to(self, state: JobState) -> JobView {
        JobView { state, ..self }
    }

    /// The job after an event. An event that does not answer the pending
    /// action changes nothing.
    pub open spec fn after(self, event: JobEventView) -> JobView {
        if !self.answered_by(event) {
            self
        } else {
            match self.state {
                JobState::Connecting => match event {
                    JobEventView::Failed(e) => self.failed_with(e),
                    _ => self.moved_to(JobState::Verifying),
                },
                JobState::Verifying => match event {
                    JobEventView::Verdict(TrustVerdict::Match) => self.moved_to(
                        JobState::Authenticating,
                    ),
                    JobEventView::Verdict(TrustVerdict::Mismatch) => self.failed_with(
                        DeployErrorView::TrustMismatch,
                    ),
                    JobEventView::Verdict(TrustVerdict::NotFound) => self.moved_to(
                        JobState::Skipped,
                    ),
                    JobEventView::Verdict(TrustVerdict::CheckFailure) => self.failed_with(
                        DeployErrorView::TrustCheck,
                    ),
                    JobEventView::Failed(e) => self.failed_with(e),
                    _ => self,
                },
                JobState::Authenticating => match event {
                    JobEventView::Authenticated(true) => JobView {
                        state: JobState::Uploading,
                        authenticated: true,
                        ..self
                    },
                    JobEventView::Authenticated(false) => self.failed_with(
                        DeployErrorView::Authentication,
                    ),
                    JobEventView::Failed(e) => self.failed_with(e),
                    _ => self,
                },
                JobState::Uploading => match (self.command_failure(event), self.tmpdir) {
                    (Some(e), Some(_)) => JobView {
                        state: JobState::CleaningUp,
                        failure: Some(e),
                        ..self
                    },
                    (Some(e), None) => self.failed_with(e),
                    (None, Some(_)) => self.moved_to(JobState::Rebuilding),
                    (None, None) => match event {
                        JobEventView::CommandDone(r) => JobView {
                            tmpdir: Some(r.captured_output),
                            ..self
                        },
                        _ => self,
                    },
                },
                JobState::Rebuilding => JobView {
                    state: JobState::CleaningUp,
                    failure: self.command_failure(event),
                    ..self
                },
                JobState::CleaningUp => match (self.failure, self.command_failure(event)) {
                    (Some(_), _) => self.moved_to(JobState::Failed),
                    (None, Some(e)) => self.failed_with(e),
                    (None, None) => self.moved_to(JobState::Disconnected),
                },
                JobState::Disconnected => match event {
                    JobEventView::Failed(e) => self.failed_with(e),
                    _ => self,
                },
                JobState::Skipped => self,
                JobState::Failed => self,
            }
        }
    }

    /// How the job ended; `None` while it is not over.
    pub open spec fn outcome(self) -> Option<JobOutcomeView> {
        match self.state {
            JobState::Disconnected => Some(JobOutcomeView::Deployed),
            JobState::Skipped => Some(JobOutcomeView::Skipped),
            JobState::Failed => match self.failure {
                Some(e) => Some(JobOutcomeView::Failed(e)),
                None => None,
            },
            _ => None,
        }
    }
}

/// The deployment of one host: the host, the options of the run, and how far
/// the deployment has come.
pub struct RemoteJob {
    host: Host,
    action: RebuildAction,
    quiet: bool,
    state: JobState,
    authenticated: bool,
    tmpdir: Option<String>,
    failure: Option<DeployError>,
}

impl View for RemoteJob {
    type V = JobView;

    closed spec fn view(&self) -> JobView {
        JobView {
            host: self.host@,
            action: self.action,
            quiet: self.quiet,
            state: self.state,
            authenticated: self.authenticated,
            tmpdir: match self.tmpdir {
                Some(dir) => Some(dir@),
                None => None,
            },
            failure: match self.failure {
                Some(e) => Some(e@),
                None => None,
            },
        }
    }
}

impl RemoteJob {
    #[verifier::type_invariant]
    spec fn well_formed(&self) -> bool {
        self@.wf()
    }

    /// Makes the job for a host. Nothing has been done yet; the first thing
    /// to do is to connect.
    pub fn new(host: Host, action: RebuildAction, quiet: bool) -> (job: RemoteJob)
        ensures
            job@ == JobView::initial(host@, action, quiet),
    {
        RemoteJob {
            host,
            action,
            quiet,
            state: JobState::Connecting,
            authenticated: false,
            tmpdir: None,
            failure: None,
        }
    }

    /// Where the job stands.
    pub fn state(&self) -> (state: JobState)
        ensures
            state == self@.state,
            self@.wf(),
    {
        proof {
            use_type_invariant(self);
        }
        self.state
    }

    /// Tells whether the job is over.
    pub fn is_over(&self) -> (over: bool)
        ensures
            over == self@.is_over(),
    {
        match self.state {
            JobState::Disconnected => true,
            JobState::Skipped => true,
            JobState::Failed => true,
            _ => false,
        }
    }

    /// Tells whether the user has been authenticated on this job's session.
    pub fn authenticated(&self) -> (yes: bool)
        ensures
            yes == self@.authenticated,
    {
        self.authenticated
    }

    /// The temporary directory on the host, once it has been made.
    pub fn tmpdir(&self) -> (dir: Option<&str>)
        ensures
            dir is Some <==> self@.tmpdir is Some,
            dir is Some ==> dir->0@ == self@.tmpdir->0,
    {
        match &self.tmpdir {
            Some(d) => Some(d.as_str()),
            None => None,
        }
    }

    fn tmpdir_text(&self) -> (dir: &str)
        ensures
            dir@ == self@.tmpdir_text(),
    {
        match &self.tmpdir {
            Some(d) => d.as_str(),
            None => {
                let empty: &'static str = "";
                proof {
                    reveal_strlit("");
                }
                assert(empty@ =~= Seq::<char>::empty());
                empty
            },
        }
    }

    /// Says what is to be done next.
    pub fn next_action(&self) -> (action: JobAction)
        ensures
            action@ == self@.pending(),
    {
        match self.state {
            JobState::Connecting => JobAction::Connect { endpoint: self.host.endpoint() },
            JobState::Verifying => {
                let aliases = self.host.aliases();
                assert(texts(aliases@) =~= self@.host.aliases());
                JobAction::Verify { aliases }
            },
            JobState::Authenticating => JobAction::Authenticate { user: self.host.user.clone() },
            JobState::Uploading => {
                if self.tmpdir.is_some() {
                    JobAction::Run {
                        command: extract_command(self.tmpdir_text()),
                        input: CommandInput::Archive,
                        mode: OutputMode::Capture,
                    }
                } else {
                    JobAction::Run {
                        command: make_tmpdir_command(),
                        input: CommandInput::Empty,
                        mode: OutputMode::Capture,
                    }
                }
            },
            JobState::Rebuilding => JobAction::Run {
                command: rebuild_command(self.action, self.tmpdir_text()),
                input: CommandInput::Empty,
                mode: if self.quiet {
                    OutputMode::Capture
                } else {
                    OutputMode::Dual
                },
            },
            JobState::CleaningUp => JobAction::Run {
                command: cleanup_command(self.tmpdir_text()),
                input: CommandInput::Empty,
                mode: OutputMode::Capture,
            },
            JobState::Disconnected => JobAction::Disconnect,
            JobState::Skipped => JobAction::Release,
            JobState::Failed => JobAction::Release,
        }
    }

    /// Settles whether an event reports a failure of the pending command.
    /// The result holds the failure, or else the output of the command that
    /// went through.
    fn failure_of(&self, event: JobEvent) -> (res: Result<Option<String>, DeployError>)
        ensures
            match res {
                Err(e) => self@.command_failure(event@) == Some(e@),
                Ok(output) => self@.command_failure(event@) is None && (match event@ {
                    JobEventView::CommandDone(r) => output is Some && output->0@
                        == r.captured_output,
                    _ => output is None,
                }),
            },
    {
        match event {
            JobEvent::Failed(e) => Err(e),
            JobEvent::CommandDone(r) => {
                if r.exit_status != 0 {
                    match self.next_action() {
                        JobAction::Run { command, input, mode } => Err(
                            DeployError::RemoteExec {
                                command,
                                status: r.exit_status,
                                output: if mode.is_capturing() {
                                    Some(r.captured_output)
                                } else {
                                    None
                                },
                            },
                        ),
                        _ => Ok(Some(r.captured_output)),
                    }
                } else {
                    Ok(Some(r.captured_output))
                }
            },
            _ => Ok(None),
        }
    }

    /// Moves the job on by one event: what came of the action that was
    /// pending. An event that does not answer that action changes nothing.
    pub fn advance(self, event: JobEvent) -> (next: RemoteJob)
        ensures
            next@ == self@.after(event@),
            self@.wf(),
            next@.wf(),
    {
        proof {
            use_type_invariant(&self);
            law_jobs_stay_well_formed(self@, event@);
        }
        match self.state {
            JobState::Connecting => match event {
                JobEvent::Connected => self.moved_to(JobState::Verifying),
                JobEvent::Failed(e) => self.failed_with(e),
                _ => self,
            },
            JobState::Verifying => match event {
                JobEvent::Verdict(TrustVerdict::Match) => self.moved_to(JobState::Authenticating),
                JobEvent::Verdict(TrustVerdict::Mismatch) => self.failed_with(
                    DeployError::TrustMismatch,
                ),
                JobEvent::Verdict(TrustVerdict::NotFound) => self.moved_to(JobState::Skipped),
                JobEvent::Verdict(TrustVerdict::CheckFailure) => self.failed_with(
                    DeployError::TrustCheck,
                ),
                JobEvent::Failed(e) => self.failed_with(e),
                _ => self,
            },
            JobState::Authenticating => match event {
                JobEvent::Authenticated(true) => {
                    let RemoteJob { host, action, quiet, state, authenticated, tmpdir, failure } =
                        self;
                    RemoteJob {
                        host,
                        action,
                        quiet,
                        state: JobState::Uploading,
                        authenticated: true,
                        tmpdir,
                        failure,
                    }
                },
                JobEvent::Authenticated(false) => self.failed_with(DeployError::Authentication),
                JobEvent::Failed(e) => self.failed_with(e),
                _ => self,
            },
            JobState::Uploading => {
                let answered = match &event {
                    JobEvent::CommandDone(_) => true,
                    JobEvent::Failed(_) => true,
                    _ => false,
                };
                if !answered {
                    return self;
                }
                let verdict = self.failure_of(event);
                let RemoteJob { host, action, quiet, state, authenticated, tmpdir, failure } = self;
                match (verdict, tmpdir) {
                    (Err(e), Some(dir)) => RemoteJob {
                        host,
                        action,
                        quiet,
                        state: JobState::CleaningUp,
                        authenticated,
                        tmpdir: Some(dir),
                        failure: Some(e),
                    },
                    (Err(e), None) => RemoteJob {
                        host,
                        action,
                        quiet,
                        state: JobState::Failed,
                        authenticated,
                        tmpdir: None,
                        failure: Some(e),
                    },
                    (Ok(_), Some(dir)) => RemoteJob {
                        host,
                        action,
                        quiet,
                        state: JobState::Rebuilding,
                        authenticated,
                        tmpdir: Some(dir),
                        failure,
                    },
                    (Ok(output), None) => RemoteJob {
                        host,
                        action,
                        quiet,
                        state,
                        authenticated,
                        tmpdir: output,
                        failure,
                    },
                }
            },
            JobState::Rebuilding => {
                let answered = match &event {
                    JobEvent::CommandDone(_) => true,
                    JobEvent::Failed(_) => true,
                    _ => false,
                };
                if !answered {
                    return self;
                }
                let verdict = self.failure_of(event);
                let RemoteJob { host, action, quiet, state, authenticated, tmpdir, failure } = self;
                RemoteJob {
                    host,
                    action,
                    quiet,
                    state: JobState::CleaningUp,
                    authenticated,
                    tmpdir,
                    failure: match verdict {
                        Err(e) => Some(e),
                        Ok(_) => None,
                    },
                }
            },
            JobState::CleaningUp => {
                let answered = match &event {
                    JobEvent::CommandDone(_) => true,
                    JobEvent::Failed(_) => true,
                    _ => false,
                };
                if !answered {
                    return self;
                }
                if self.failure.is_some() {
                    return self.moved_to(JobState::Failed);
                }
                match self.failure_of(event) {
                    Err(e) => self.failed_with(e),
                    Ok(_) => self.moved_to(JobState::Disconnected),
                }
            },
            JobState::Disconnected => match event {
                JobEvent::Failed(e) => self.failed_with(e),
                _ => self,
            },
            JobState::Skipped => self,
            JobState::Failed => self,
        }
    }

    fn moved_to(self, state: JobState) -> (next: RemoteJob)
        requires
            self@.moved_to(state).wf(),
        ensures
            next@ == self@.moved_to(state),
    {
        let RemoteJob { host, action, quiet, state: _, authenticated, tmpdir, failure } = self;
        RemoteJob { host, action, quiet, state, authenticated, tmpdir, failure }
    }

    fn failed_with(self, reason: DeployError) -> (next: RemoteJob)
        ensures
            next@ == self@.failed_with(reason@),
    {
        proof {
            use_type_invariant(&self);
        }
        let RemoteJob { host, action, quiet, state: _, authenticated, tmpdir, failure: _ } = self;
        RemoteJob {
            host,
            action,
            quiet,
            state: JobState::Failed,
            authenticated,
            tmpdir,
            failure: Some(reason),
        }
    }

    /// Says how the job ended; `None` while it is not over.
    pub fn into_outcome(self) -> (outcome: Option<JobOutcome>)
        ensures
            self@.wf(),
            match outcome {
                Some(o) => self@.outcome() == Some(o@),
                None => self@.outcome() is None,
            },
            outcome is Some <==> self@.is_over(),
    {
        proof {
            use_type_invariant(&self);
        }
        match self.state {
            JobState::Disconnected => Some(JobOutcome::Deployed),
            JobState::Skipped => Some(JobOutcome::Skipped),
            JobState::Failed => match self.failure {
                Some(e) => Some(JobOutcome::Failed(e)),
                None => None,
            },
            _ => None,
        }
    }
}

/// A job that is well formed stays so under every event, and a fresh job is
/// well formed.
pub proof fn law_jobs_stay_well_formed(job: JobView, event: JobEventView)
    requires
        job.wf(),
    ensures
        job.after(event).wf(),
        JobView::initial(job.host, job.action, job.quiet).wf(),
{
}

/// Whether a job may go from one state to the other in one step.
pub open spec fn may_follow(from: JobView, to: JobView) -> bool {
    match from.state {
        JobState::Connecting => to.state == JobState::Verifying || to.state == JobState::Failed,
        JobState::Verifying => to.state == JobState::Authenticating || to.state
            == JobState::Skipped || to.state == JobState::Failed,
        JobState::Authenticating => to.state == JobState::Uploading || to.state
            == JobState::Failed,
        JobState::Uploading => if from.tmpdir is Some {
            to.state == JobState::Rebuilding || to.state == JobState::CleaningUp
        } else {
            (to.state == JobState::Uploading && to.tmpdir is Some) || to.state == JobState::Failed
        },
        JobState::Rebuilding => to.state == JobState::CleaningUp,
        JobState::CleaningUp => to.state == JobState::Disconnected || to.state == JobState::Failed,
        JobState::Disconnected => to.state == JobState::Failed,
        JobState::Skipped => false,
        JobState::Failed => false,
    }
}

/// The states follow one another in one order only: connect, verify,
/// authenticate, make the temporary directory, unpack, rebuild, clean up,
/// disconnect. Every event that answers the pending action moves the job one
/// step along that order or ends it; the host, the options and a temporary
/// directory once made never change.
pub proof fn law_states_follow_in_order(job: JobView, event: JobEventView)
    requires
        job.answered_by(event),
    ensures
        may_follow(job, job.after(event)),
        job.after(event).host == job.host,
        job.after(event).action == job.action,
        job.after(event).quiet == job.quiet,
        job.tmpdir is Some ==> job.after(event).tmpdir == job.tmpdir,
{
}

/// A job that is over stays as it is, but for a successful one whose
/// disconnection fails. A job that failed or was skipped never changes.
pub proof fn law_ended_jobs_stay(job: JobView, event: JobEventView)
    ensures
        (job.state == JobState::Failed || job.state == JobState::Skipped) ==> job.after(event)
            == job,
        job.is_over() ==> job.after(event).is_over(),
        job.is_over() ==> job.pending() == JobActionView::Disconnect || job.pending()
            == JobActionView::Release,
{
}

/// Only a `Match` lets a job go on to authentication. A `Mismatch` and a
/// check that failed end the job with the matching trust failure, and an
/// unknown host is skipped; in none of these cases is anything done on the
/// host.
pub proof fn law_trust_gate(job: JobView, event: JobEventView)
    requires
        job.state == JobState::Verifying,
    ensures
        job.after(event).state == JobState::Authenticating <==> event == JobEventView::Verdict(
            TrustVerdict::Match,
        ),
        event == JobEventView::Verdict(TrustVerdict::Mismatch) ==> job.after(event).outcome()
            == Some(JobOutcomeView::Failed(DeployErrorView::TrustMismatch)),
        event == JobEventView::Verdict(TrustVerdict::CheckFailure) ==> job.after(event).outcome()
            == Some(JobOutcomeView::Failed(DeployErrorView::TrustCheck)),
        event == JobEventView::Verdict(TrustVerdict::NotFound) ==> job.after(event).outcome()
            == Some(JobOutcomeView::Skipped),
        job.after(event).tmpdir == job.tmpdir,
        job.after(event).authenticated == job.authenticated,
{
}

/// Whatever comes of the rebuild command, the next thing to do is to remove
/// the temporary directory; the failure of the rebuild, if any, is kept on
/// record meanwhile.
pub proof fn law_cleanup_follows_rebuild(job: JobView, event: JobEventView)
    requires
        job.state == JobState::Rebuilding,
        job.answered_by(event),
    ensures
        job.after(event).state == JobState::CleaningUp,
        job.after(event).pending() == (JobActionView::Run {
            command: cleanup_line(debug_quoted(job.tmpdir_text())),
            input: CommandInput::Empty,
            mode: OutputMode::Capture,
        }),
        job.after(event).failure == job.command_failure(event),
{
}

/// A job that has made a temporary directory ends only out of `CleaningUp`,
/// that is, after the removal of the directory was asked for and answered.
pub proof fn law_tmpdir_is_removed_before_the_end(job: JobView, event: JobEventView)
    requires
        job.wf(),
        job.tmpdir is Some,
        !job.is_over(),
        job.after(event).is_over(),
    ensures
        job.state == JobState::CleaningUp,
        job.pending() == (JobActionView::Run {
            command: cleanup_line(debug_quoted(job.tmpdir->0)),
            input: CommandInput::Empty,
            mode: OutputMode::Capture,
        }),
{
}

/// When a command failed before the cleanup, the job ends with that failure,
/// whatever comes of the cleanup.
pub proof fn law_earlier_failure_is_surfaced(job: JobView, event: JobEventView)
    requires
        job.state == JobState::CleaningUp,
        job.failure is Some,
        job.answered_by(event),
    ensures
        job.after(event).outcome() == Some(JobOutcomeView::Failed(job.failure->0)),
{
}

/// A job is deployed only if its rebuild command ended with exit status 0:
/// the job leaves `Rebuilding` without a failure on record exactly on such an
/// event, and it reaches `Disconnected` only from a cleanup with no failure
/// on record, on an event that reports exit status 0.
pub proof fn law_success_needs_clean_rebuild(job: JobView, event: JobEventView)
    ensures
        job.state == JobState::Rebuilding && job.answered_by(event) ==> (job.after(
            event,
        ).failure is None <==> (event matches JobEventView::CommandDone(r) && r.exit_status
            == 0)),
        job.state != JobState::Disconnected && job.after(event).state == JobState::Disconnected
            ==> job.state == JobState::CleaningUp && job.failure is None && (
        event matches JobEventView::CommandDone(r) && r.exit_status == 0),
{
}

} // verus!
