//! The values given on the command line to replace parts of a configuration.
//!
//! Every override is optional, and every one is kept as the text that was
//! typed: a port is only read as a number when the override is applied.

use vstd::prelude::*;
use crate::config::Family;

verus! {

/// The text of an optional value.
pub open spec fn text_of(value: Option<String>) -> Option<Seq<char>> {
    match value {
        Some(text) => Some(text@),
        None => None,
    }
}

/// The overrides for the addresses of one family.
#[derive(Clone, Debug, PartialEq, Eq)]
pub struct EndpointOverrides {
    /// Replaces the listening host.
    pub host: Option<String>,
    /// Replaces the listening port; must denote a port.
    pub port: Option<String>,
    /// Replaces the announced host.
    pub announce_host: Option<String>,
    /// Replaces the announced port; must denote a port.
    pub announce_port: Option<String>,
}

/// What an [`EndpointOverrides`] holds, as mathematical values.
pub struct EndpointOverridesView {
    pub host: Option<Seq<char>>,
    pub port: Option<Seq<char>>,
    pub announce_host: Option<Seq<char>>,
    pub announce_port: Option<Seq<char>>,
}

impl EndpointOverridesView {
    /// No override at all.
    pub open spec fn none() -> EndpointOverridesView {
        EndpointOverridesView { host: None, port: None, announce_host: None, announce_port: None }
    }
}

impl View for EndpointOverrides {
    type V = EndpointOverridesView;

    open spec fn view(&self) -> EndpointOverridesView {
        EndpointOverridesView {
            host: text_of(self.host),
            port: text_of(self.port),
            announce_host: text_of(self.announce_host),
            announce_port: text_of(self.announce_port),
        }
    }
}

impl Default for EndpointOverrides {
    /// No override at all.
    fn default() -> (overrides: EndpointOverrides)
        ensures
            overrides@ == EndpointOverridesView::none(),
    {
        EndpointOverrides { host: None, port: None, announce_host: None, announce_port: None }
    }
}

/// Everything the command line may override.
#[derive(Clone, Debug, PartialEq, Eq)]
pub struct Overrides {
    /// Overrides for the mix addresses.
    pub mix: EndpointOverrides,
    /// Overrides for the client addresses.
    pub clients: EndpointOverrides,
    /// Replaces the directory server.
    pub directory: Option<String>,
    /// Replaces the place of the clients' inboxes.
    pub inboxes: Option<String>,
    /// Replaces the place of the clients' ledger.
    pub clients_ledger: Option<String>,
    /// Replaces the location.
    pub location: Option<String>,
}

/// What an [`Overrides`] holds, as mathematical values.
pub struct OverridesView {
    pub mix: EndpointOverridesView,
    pub clients: EndpointOverridesView,
    pub directory: Option<Seq<char>>,
    pub inboxes: Option<Seq<char>>,
    pub clients_ledger: Option<Seq<char>>,
    pub location: Option<Seq<char>>,
}

impl OverridesView {
    /// No override at all.
    pub open spec fn none() -> OverridesView {
        OverridesView {
            mix: EndpointOverridesView::none(),
            clients: EndpointOverridesView::none(),
            directory: None,
            inboxes: None,
            clients_ledger: None,
            location: None,
        }
    }

    /// The overrides for the addresses of `family`.
    pub open spec fn endpoint(self, family: Family) -> EndpointOverridesView {
        match family {
            Family::Mix => self.mix,
            Family::Clients => self.clients,
        }
    }
}

impl View for Overrides {
    type V = OverridesView;

    open spec fn view(&self) -> OverridesView {
        OverridesView {
            mix: self.mix@,
            clients: self.clients@,
            directory: text_of(self.directory),
            inboxes: text_of(self.inboxes),
            clients_ledger: text_of(self.clients_ledger),
            location: text_of(self.location),
        }
    }
}

impl Default for Overrides {
    /// No override at all.
    fn default() -> (overrides: Overrides)
        ensures
            overrides@ == OverridesView::none(),
    {
        Overrides {
            mix: EndpointOverrides::default(),
            clients: EndpointOverrides::default(),
            directory: None,
            inboxes: None,
            clients_ledger: None,
            location: None,
        }
    }
}

/// The four overrides that must denote a port.
#[derive(Clone, Copy, Debug, PartialEq, Eq, Structural)]
pub enum PortField {
    MixPort,
    MixAnnouncePort,
    ClientsPort,
    ClientsAnnouncePort,
}

impl PortField {
    /// The override of the listening port of `family`.
    pub open spec fn listening(family: Family) -> PortField {
        match family {
            Family::Mix => PortField::MixPort,
            Family::Clients => PortField::ClientsPort,
        }
    }

    /// The override of the announced port of `family`.
    pub open spec fn announce(family: Family) -> PortField {
        match family {
            Family::Mix => PortField::MixAnnouncePort,
            Family::Clients => PortField::ClientsAnnouncePort,
        }
    }

    /// The name of the command-line option, as a mathematical value.
    pub open spec fn name(self) -> Seq<char> {
        match self {
            PortField::MixPort => "mix-port"@,
            PortField::MixAnnouncePort => "mix-announce-port"@,
            PortField::ClientsPort => "clients-port"@,
            PortField::ClientsAnnouncePort => "clients-announce-port"@,
        }
    }

    /// The override of the listening port of `family`.
    pub fn listening_of(family: Family) -> (field: PortField)
        ensures
            field == PortField::listening(family),
    {
        match family {
            Family::Mix => PortField::MixPort,
            Family::Clients => PortField::ClientsPort,
        }
    }

    /// The override of the announced port of `family`.
    pub fn announce_of(family: Family) -> (field: PortField)
        ensures
            field == PortField::announce(family),
    {
        match family {
            Family::Mix => PortField::MixAnnouncePort,
            Family::Clients => PortField::ClientsAnnouncePort,
        }
    }

    /// The name of the command-line option that carries this override.
    pub fn option_name(self) -> (name: &'static str)
        ensures
            name@ == self.name(),
    {
        match self {
            PortField::MixPort => "mix-port",
            PortField::MixAnnouncePort => "mix-announce-port",
            PortField::ClientsPort => "clients-port",
            PortField::ClientsAnnouncePort => "clients-announce-port",
        }
    }
}

/// The one way in which applying overrides fails: a port override whose text
/// denotes no port. It names the override and keeps the text as it was given.
#[derive(Clone, Debug, PartialEq, Eq)]
pub struct MalformedPort {
    pub field: PortField,
    pub raw: String,
}

/// What a [`MalformedPort`] holds, as mathematical values.
pub struct MalformedPortView {
    pub field: PortField,
    pub raw: Seq<char>,
}

impl View for MalformedPort {
    type V = MalformedPortView;

    open spec fn view(&self) -> MalformedPortView {
        MalformedPortView { field: self.field, raw: self.raw@ }
    }
}

} // verus!
