//! The provider's configuration as far as addressing goes.
//!
//! A provider serves two kinds of traffic, each with an address it binds a
//! socket to and an address it tells its peers to use. The two may differ, for
//! example behind a NAT. Besides the addresses the configuration names the
//! places where the provider keeps its data, and where it is located.

use vstd::prelude::*;

verus! {

/// Which of the provider's two kinds of traffic an endpoint serves.
#[derive(Clone, Copy, Debug, PartialEq, Eq, Structural)]
pub enum Family {
    /// Packets exchanged with mix nodes.
    Mix,
    /// Requests of the provider's clients.
    Clients,
}

/// The addresses of one family: where the provider listens, and what it
/// announces to its peers.
#[derive(Clone, Debug, PartialEq, Eq)]
pub struct Endpoint {
    pub listening_host: String,
    pub listening_port: u16,
    pub announce_host: String,
    pub announce_port: u16,
}

/// What an [`Endpoint`] holds, as mathematical values.
pub struct EndpointView {
    pub listening_host: Seq<char>,
    pub listening_port: u16,
    pub announce_host: Seq<char>,
    pub announce_port: u16,
}

impl View for Endpoint {
    type V = EndpointView;

    open spec fn view(&self) -> EndpointView {
        EndpointView {
            listening_host: self.listening_host@,
            listening_port: self.listening_port,
            announce_host: self.announce_host@,
            announce_port: self.announce_port,
        }
    }
}

/// The configuration of a provider.
#[derive(Clone, Debug, PartialEq, Eq)]
pub struct Config {
    /// Addresses for mix traffic.
    pub mix: Endpoint,
    /// Addresses for client traffic.
    pub clients: Endpoint,
    /// The directory server the provider reports to.
    pub directory: String,
    /// Where the clients' inboxes are kept.
    pub inboxes_dir: String,
    /// Where the ledger of registered clients is kept.
    pub clients_ledger_path: String,
    /// Where the provider says it is located.
    pub location: String,
}

/// What a [`Config`] holds, as mathematical values.
pub struct ConfigView {
    pub mix: EndpointView,
    pub clients: EndpointView,
    pub directory: Seq<char>,
    pub inboxes_dir: Seq<char>,
    pub clients_ledger_path: Seq<char>,
    pub location: Seq<char>,
}

impl View for Config {
    type V = ConfigView;

    open spec fn view(&self) -> ConfigView {
        ConfigView {
            mix: self.mix@,
            clients: self.clients@,
            directory: self.directory@,
            inboxes_dir: self.inboxes_dir@,
            clients_ledger_path: self.clients_ledger_path@,
            location: self.location@,
        }
    }
}

impl ConfigView {
    /// The addresses of `family`.
    pub open spec fn endpoint(self, family: Family) -> EndpointView {
        match family {
            Family::Mix => self.mix,
            Family::Clients => self.clients,
        }
    }
}

} // verus!
