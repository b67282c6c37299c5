//! The failures a deployment run can end in, and their messages.

use vstd::prelude::*;
use vstd::string::StringExecFns;
use crate::text::{push_signed_decimal, signed_decimal};

verus! {

/// A fatal failure of a deployment run.
#[derive(Clone, Debug, PartialEq, Eq)]
pub enum DeployError {
    /// The configuration directory or the host inventory is unusable.
    Config { message: String },
    /// A requested host is absent from the inventory.
    UnknownHost { name: String },
    /// A host presented a key that differs from the recorded one.
    TrustMismatch,
    /// The trust store could not be consulted.
    TrustCheck,
    /// The host refused the credentials on offer.
    Authentication,
    /// A remote command ended with a non-zero exit status. `output` is
    /// present only when the command's output was captured.
    RemoteExec { command: String, status: i32, output: Option<String> },
    /// The connection to the host failed.
    Transport { message: String },
    /// Reading the local tree for the archive failed.
    ArchiveIo { message: String },
}

/// The mathematical value of a `DeployError`.
pub enum DeployErrorView {
    Config { message: Seq<char> },
    UnknownHost { name: Seq<char> },
    TrustMismatch,
    TrustCheck,
    Authentication,
    RemoteExec { command: Seq<char>, status: int, output: Option<Seq<char>> },
    Transport { message: Seq<char> },
    ArchiveIo { message: Seq<char> },
}

/// The characters of an optional text.
pub open spec fn opt_text(text: Option<String>) -> Option<Seq<char>> {
    match text {
        Some(s) => Some(s@),
        None => None,
    }
}

impl View for DeployError {
    type V = DeployErrorView;

    open spec fn view(&self) -> DeployErrorView {
        match *self {
            DeployError::Config { message } => DeployErrorView::Config { message: message@ },
            DeployError::UnknownHost { name } => DeployErrorView::UnknownHost { name: name@ },
            DeployError::TrustMismatch => DeployErrorView::TrustMismatch,
            DeployError::TrustCheck => DeployErrorView::TrustCheck,
            DeployError::Authentication => DeployErrorView::Authentication,
            DeployError::RemoteExec { command, status, output } => DeployErrorView::RemoteExec {
                command: command@,
                status: status as int,
                output: opt_text(output),
            },
            DeployError::Transport { message } => DeployErrorView::Transport { message: message@ },
            DeployError::ArchiveIo { message } => DeployErrorView::ArchiveIo { message: message@ },
        }
    }
}

impl DeployErrorView {
    /// Whether the failure concerns the identity of a host. Such a failure
    /// ends the whole run under every policy.
    pub open spec fn is_trust_failure(self) -> bool {
        self is TrustMismatch || self is TrustCheck
    }

    /// The message shown to the operator.
    pub open spec fn message(self) -> Seq<char> {
        match self {
            DeployErrorView::Config { message } => message,
            DeployErrorView::UnknownHost { name } => "Unknown host \""@ + name + "\""@,
            DeployErrorView::TrustMismatch => "known hosts mismatch!!!"@,
            DeployErrorView::TrustCheck => "couldn't check known hosts?"@,
            DeployErrorView::Authentication => "Authentication failed"@,
            DeployErrorView::RemoteExec { command, status, output } => {
                let head = "`"@ + command + "` returned exit status "@ + signed_decimal(status);
                match output {
                    Some(text) => head + "\noutput: "@ + text,
                    None => head,
                }
            },
            DeployErrorView::Transport { message } => message,
            DeployErrorView::ArchiveIo { message } => message,
        }
    }
}

impl DeployError {
    /// The failure reported when the configuration directory holds no flake.
    pub fn missing_flake() -> (e: DeployError)
        ensures
            e@ == (DeployErrorView::Config { message: "No `flake.nix` found in this directory"@ }),
    {
        DeployError::Config { message: "No `flake.nix` found in this directory".to_owned() }
    }

    /// The failure reported when the host inventory could not be obtained;
    /// `diagnostics` is what the inventory query said on its error stream.
    pub fn inventory_unavailable(diagnostics: &str) -> (e: DeployError)
        ensures
            e@ == (DeployErrorView::Config {
                message: "Failed to get hosts ("@ + diagnostics@ + ")"@,
            }),
    {
        let mut message = "Failed to get hosts (".to_owned();
        message.append(diagnostics);
        message.append(")");
        DeployError::Config { message }
    }

    /// Tells whether the failure concerns the identity of a host.
    pub fn is_trust_failure(&self) -> (b: bool)
        ensures
            b == self@.is_trust_failure(),
    {
        match self {
            DeployError::TrustMismatch => true,
            DeployError::TrustCheck => true,
            _ => false,
        }
    }

    /// Renders the message shown to the operator.
    pub fn message(&self) -> (text: String)
        ensures
            text@ == self@.message(),
    {
        match self {
            DeployError::Config { message } => message.clone(),
            DeployError::UnknownHost { name } => {
                let mut text = "Unknown host \"".to_owned();
                text.append(name.as_str());
                text.append("\"");
                text
            },
            DeployError::TrustMismatch => "known hosts mismatch!!!".to_owned(),
            DeployError::TrustCheck => "couldn't check known hosts?".to_owned(),
            DeployError::Authentication => "Authentication failed".to_owned(),
            DeployError::RemoteExec { command, status, output } => {
                let mut text = "`".to_owned();
                text.append(command.as_str());
                text.append("` returned exit status ");
                push_signed_decimal(&mut text, *status);
                match output {
                    Some(captured) => {
                        text.append("\noutput: ");
                        text.append(captured.as_str());
                    },
                    None => {},
                }
                text
            },
            DeployError::Transport { message } => message.clone(),
            DeployError::ArchiveIo { message } => message.clone(),
        }
    }
}

} // verus!
