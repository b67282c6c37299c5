//! The options of a deployment run.

use vstd::prelude::*;
use vstd::string::StringExecFns;

verus! {

/// What the remote rebuild is asked to do with the new configuration.
#[derive(Clone, Copy, Debug, PartialEq, Eq, Structural)]
pub enum RebuildAction {
    /// Activate it now and make it the boot default.
    Switch,
    /// Make it the boot default without activating it.
    Boot,
    /// Activate it now without touching the boot default.
    Test,
}

impl RebuildAction {
    /// The word that names the action on a command line.
    pub open spec fn name(self) -> Seq<char> {
        match self {
            RebuildAction::Switch => "switch"@,
            RebuildAction::Boot => "boot"@,
            RebuildAction::Test => "test"@,
        }
    }

    /// Returns the word that names the action on a command line.
    pub fn as_str(&self) -> (word: &'static str)
        ensures
            word@ == self.name(),
    {
        match self {
            RebuildAction::Switch => "switch",
            RebuildAction::Boot => "boot",
            RebuildAction::Test => "test",
        }
    }

    /// Renders the action as text: the word that names it.
    pub fn to_string(&self) -> (text: String)
        ensures
            text@ == self.name(),
    {
        self.as_str().to_owned()
    }
}

impl Default for RebuildAction {
    fn default() -> (action: RebuildAction)
        ensures
            action == RebuildAction::Switch,
    {
        RebuildAction::Switch
    }
}

/// The options a run is started with.
#[derive(Clone, Debug, PartialEq, Eq)]
pub struct Cli {
    /// The rebuild action.
    pub action: RebuildAction,
    /// The configuration directory.
    pub path: String,
    /// Suppress build logs and print a short status per host instead.
    pub quiet: bool,
    /// Deploy to every host of the inventory.
    pub all: bool,
    /// The hosts to deploy to; ignored when `all` is set.
    pub hosts: Vec<String>,
}

impl Cli {
    /// Whether the options name their targets: either all hosts or at least
    /// one host by name.
    pub open spec fn names_targets(&self) -> bool {
        self.all || self.hosts@.len() > 0
    }

    /// Makes the options for deploying to the given hosts, everything else
    /// at its default: action `switch`, the current directory, build logs
    /// shown.
    pub fn new(hosts: Vec<String>) -> (cli: Cli)
        ensures
            cli.action == RebuildAction::Switch,
            cli.path@ == "."@,
            !cli.quiet,
            !cli.all,
            cli.hosts == hosts,
    {
        Cli { action: RebuildAction::Switch, path: ".".to_owned(), quiet: false, all: false, hosts }
    }

    /// Tells whether the options name their targets.
    pub fn has_targets(&self) -> (b: bool)
        ensures
            b == self.names_targets(),
    {
        self.all || self.hosts.len() > 0
    }

    /// The reference under which the host inventory of the configuration
    /// directory is queried: the directory followed by `#deploy.hosts`.
    pub fn inventory_reference(&self) -> (reference: String)
        ensures
            reference@ == self.path@ + "#deploy.hosts"@,
    {
        let mut reference = self.path.clone();
        reference.append("#deploy.hosts");
        reference
    }
}

} // verus!
