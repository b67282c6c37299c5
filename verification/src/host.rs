//! Target hosts: how they are addressed and under which names their keys
//! may be recorded.

use vstd::prelude::*;
use vstd::string::StringExecFns;
use crate::default_port;
use crate::text::{decimal, push_decimal};

verus! {

/// The family of an IP address.
#[derive(Clone, Copy, Debug, PartialEq, Eq, Structural)]
pub enum AddressFamily {
    V4,
    V6,
}

/// A target host. `address` is the IP address in its usual text form.
#[derive(Clone, Debug, PartialEq, Eq)]
pub struct Host {
    pub address: String,
    pub family: AddressFamily,
    pub port: u16,
    pub user: String,
}

/// The mathematical value of a `Host`.
pub struct HostView {
    pub address: Seq<char>,
    pub family: AddressFamily,
    pub port: u16,
    pub user: Seq<char>,
}

impl View for Host {
    type V = HostView;

    open spec fn view(&self) -> HostView {
        HostView {
            address: self.address@,
            family: self.family,
            port: self.port,
            user: self.user@,
        }
    }
}

impl HostView {
    /// The endpoint of the host: address and port, joined by a colon, with
    /// an IPv6 address set in square brackets.
    pub open spec fn endpoint(self) -> Seq<char> {
        match self.family {
            AddressFamily::V4 => self.address + ":"@ + decimal(self.port as nat),
            AddressFamily::V6 => "["@ + self.address + "]:"@ + decimal(self.port as nat),
        }
    }

    /// The names under which the host's key is looked up, in lookup order:
    /// the bare address first, then the endpoint.
    pub open spec fn aliases(self) -> Seq<Seq<char>> {
        seq![self.address, self.endpoint()]
    }
}

/// The port of an inventory entry: the one it names, else the default port.
pub open spec fn entry_port(port: Option<u16>) -> u16 {
    match port {
        Some(p) => p,
        None => 22,
    }
}

/// The user of an inventory entry: the one it names, else the local user.
pub open spec fn entry_user(user: Option<String>, local_user: Seq<char>) -> Seq<char> {
    match user {
        Some(u) => u@,
        None => local_user,
    }
}

impl Host {
    /// Makes a host from an inventory entry. An entry without a port gets
    /// the default port; an entry without a user gets `local_user`, the name
    /// of the user who runs the deployment.
    pub fn from_entry(
        address: String,
        family: AddressFamily,
        port: Option<u16>,
        user: Option<String>,
        local_user: &str,
    ) -> (host: Host)
        ensures
            host@ == (HostView {
                address: address@,
                family,
                port: entry_port(port),
                user: entry_user(user, local_user@),
            }),
    {
        let port = match port {
            Some(p) => p,
            None => default_port(),
        };
        let user = match user {
            Some(u) => u,
            None => local_user.to_owned(),
        };
        Host { address, family, port, user }
    }

    /// Renders the endpoint of the host, which is both where to connect to
    /// and the second name under which its key is looked up.
    pub fn endpoint(&self) -> (text: String)
        ensures
            text@ == self@.endpoint(),
    {
        let mut text = match self.family {
            AddressFamily::V4 => {
                let mut t = self.address.clone();
                t.append(":");
                t
            },
            AddressFamily::V6 => {
                let mut t = "[".to_owned();
                t.append(self.address.as_str());
                t.append("]:");
                t
            },
        };
        push_decimal(&mut text, self.port as u64);
        text
    }

    /// Lists the names under which the host's key is looked up, in lookup
    /// order.
    pub fn aliases(&self) -> (names: Vec<String>)
        ensures
            names@.len() == 2,
            names@[0]@ == self@.address,
            names@[1]@ == self@.endpoint(),
    {
        let mut names: Vec<String> = Vec::new();
        names.push(self.address.clone());
        names.push(self.endpoint());
        names
    }
}

} // verus!
