//! Deployment of a configuration tree to remote machines: the decisions of
//! the deployment engine, apart from the transport that carries them out.

pub mod archive;
pub mod batch;
pub mod cli;
pub mod command;
pub mod error;
pub mod host;
pub mod identity;
pub mod inventory;
pub mod job;
pub mod runner;
pub mod text;
pub mod trust;

use vstd::prelude::*;

verus! {

/// The port a host is reached on when its inventory entry names none.
pub open spec fn spec_default_port() -> u16 {
    22
}

/// Returns the port used for hosts whose inventory entry names none.
#[verifier::when_used_as_spec(spec_default_port)]
pub fn default_port() -> (port: u16)
    ensures
        port == 22,
{
    22
}

} // verus!
