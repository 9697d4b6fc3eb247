//! Laying command-line overrides over a loaded configuration.
//!
//! Each family of addresses is settled on its own, the mix family first. In a
//! family the listening host and port come first, then the announced host and
//! port. An announced host that is not overridden follows the listening host
//! when, and only when, the listening host was overridden in the same pass:
//! the two are not tied together afterwards. Ports never follow one another.
//!
//! A port override that denotes no port stops the pass: no configuration comes
//! out, only the report of the first such override.

use vstd::prelude::*;
use crate::config::{Config, ConfigView, Endpoint, EndpointView, Family};
use crate::overrides::{
    text_of, EndpointOverrides, EndpointOverridesView, MalformedPort, MalformedPortView,
    Overrides, OverridesView, PortField,
};
use crate::port::{parse_port, parsed_port};

verus! {

/// Whether a port override is given and denotes no port.
pub open spec fn is_malformed(raw: Option<Seq<char>>) -> bool {
    raw matches Some(text) && parsed_port(text) is None
}

/// The port in force once the override `raw`, which is not malformed, has been
/// laid over `base`.
pub open spec fn port_after(raw: Option<Seq<char>>, base: u16) -> u16
    recommends
        !is_malformed(raw),
{
    match raw {
        Some(text) => parsed_port(text)->0,
        None => base,
    }
}

/// The text in force once the override `explicit` has been laid over `base`.
pub open spec fn text_after(explicit: Option<Seq<char>>, base: Seq<char>) -> Seq<char> {
    match explicit {
        Some(text) => text,
        None => base,
    }
}

/// The announced host of a family: the explicit override if there is one;
/// else the listening host if that has just changed; else what it was.
pub open spec fn announce_host_after(
    changed: bool,
    explicit: Option<Seq<char>>,
    listening: Seq<char>,
    base: Seq<char>,
) -> Seq<char> {
    match explicit {
        Some(host) => host,
        None => if changed {
            listening
        } else {
            base
        },
    }
}

/// What laying `overrides` over the addresses `base` of `family` gives: the
/// new addresses, or the first port override of the family that is malformed.
pub open spec fn endpoint_resolution(
    base: EndpointView,
    overrides: EndpointOverridesView,
    family: Family,
) -> Result<EndpointView, MalformedPortView> {
    if is_malformed(overrides.port) {
        Err(MalformedPortView { field: PortField::listening(family), raw: overrides.port->0 })
    } else if is_malformed(overrides.announce_port) {
        Err(
            MalformedPortView {
                field: PortField::announce(family),
                raw: overrides.announce_port->0,
            },
        )
    } else {
        Ok(
            EndpointView {
                listening_host: text_after(overrides.host, base.listening_host),
                listening_port: port_after(overrides.port, base.listening_port),
                announce_host: announce_host_after(
                    overrides.host is Some,
                    overrides.announce_host,
                    text_after(overrides.host, base.listening_host),
                    base.announce_host,
                ),
                announce_port: port_after(overrides.announce_port, base.announce_port),
            },
        )
    }
}

/// What laying `overrides` over the configuration `base` gives: the new
/// configuration, or the first port override that is malformed, the mix
/// family's before the clients'.
pub open spec fn resolution(base: ConfigView, overrides: OverridesView) -> Result<
    ConfigView,
    MalformedPortView,
> {
    match endpoint_resolution(base.mix, overrides.mix, Family::Mix) {
        Err(error) => Err(error),
        Ok(mix) => match endpoint_resolution(base.clients, overrides.clients, Family::Clients) {
            Err(error) => Err(error),
            Ok(clients) => Ok(
                ConfigView {
                    mix,
                    clients,
                    directory: text_after(overrides.directory, base.directory),
                    inboxes_dir: text_after(overrides.inboxes, base.inboxes_dir),
                    clients_ledger_path: text_after(
                        overrides.clients_ledger,
                        base.clients_ledger_path,
                    ),
                    location: text_after(overrides.location, base.location),
                },
            ),
        },
    }
}

/// The mathematical value of an outcome: that of what was produced, or that
/// of the failure.
pub open spec fn outcome_view<T: View, E: View>(outcome: Result<T, E>) -> Result<T::V, E::V> {
    match outcome {
        Ok(value) => Ok(value@),
        Err(error) => Err(error@),
    }
}

/// Lays a text override over a text.
pub fn apply_text_override(explicit: Option<String>, base: String) -> (text: String)
    ensures
        text@ == text_after(text_of(explicit), base@),
{
    match explicit {
        Some(text) => text,
        None => base,
    }
}

/// Lays the port override `raw` over `base`. Fails, naming `field` and
/// handing the text back, exactly when the override is malformed.
pub fn apply_port_override(raw: Option<String>, base: u16, field: PortField) -> (outcome: Result<
    u16,
    MalformedPort,
>)
    ensures
        match outcome {
            Ok(port) => !is_malformed(text_of(raw)) && port == port_after(text_of(raw), base),
            Err(error) => is_malformed(text_of(raw)) && error@ == (MalformedPortView {
                field,
                raw: text_of(raw)->0,
            }),
        },
{
    match raw {
        None => Ok(base),
        Some(text) => match parse_port(text.as_str()) {
            Some(port) => Ok(port),
            None => Err(MalformedPort { field, raw: text }),
        },
    }
}

/// Settles the listening host and port of `family`, and tells whether the
/// listening host changed, which is when it was overridden.
pub fn apply_listening_overrides(
    base: Endpoint,
    host: Option<String>,
    port: Option<String>,
    family: Family,
) -> (outcome: Result<(Endpoint, bool), MalformedPort>)
    ensures
        match outcome {
            Ok((endpoint, changed)) => {
                &&& !is_malformed(text_of(port))
                &&& changed == host is Some
                &&& endpoint@ == (EndpointView {
                    listening_host: text_after(text_of(host), base@.listening_host),
                    listening_port: port_after(text_of(port), base.listening_port),
                    announce_host: base@.announce_host,
                    announce_port: base.announce_port,
                })
            },
            Err(error) => {
                &&& is_malformed(text_of(port))
                &&& error@ == (MalformedPortView {
                    field: PortField::listening(family),
                    raw: text_of(port)->0,
                })
            },
        },
{
    let Endpoint { listening_host, listening_port, announce_host, announce_port } = base;
    let changed = host.is_some();
    let listening_host = apply_text_override(host, listening_host);
    match apply_port_override(port, listening_port, PortField::listening_of(family)) {
        Ok(listening_port) => Ok(
            (Endpoint { listening_host, listening_port, announce_host, announce_port }, changed),
        ),
        Err(error) => Err(error),
    }
}

/// Settles an announced host: an explicit override wins; without one the host
/// follows the listening host if that has just changed, and stays as it was
/// otherwise.
pub fn resolve_announce(
    changed: bool,
    explicit_override: Option<String>,
    new_listening_value: &str,
    base_announce_value: String,
) -> (announce: String)
    ensures
        announce@ == announce_host_after(
            changed,
            text_of(explicit_override),
            new_listening_value@,
            base_announce_value@,
        ),
{
    match explicit_override {
        Some(host) => host,
        None => if changed {
            new_listening_value.to_owned()
        } else {
            base_announce_value
        },
    }
}

/// Settles the announced host and port of `family`, given its addresses with
/// the listening side already settled and whether the listening host changed.
pub fn apply_announce_overrides(
    endpoint: Endpoint,
    changed: bool,
    announce_host: Option<String>,
    announce_port: Option<String>,
    family: Family,
) -> (outcome: Result<Endpoint, MalformedPort>)
    ensures
        match outcome {
            Ok(settled) => {
                &&& !is_malformed(text_of(announce_port))
                &&& settled@ == (EndpointView {
                    listening_host: endpoint@.listening_host,
                    listening_port: endpoint.listening_port,
                    announce_host: announce_host_after(
                        changed,
                        text_of(announce_host),
                        endpoint@.listening_host,
                        endpoint@.announce_host,
                    ),
                    announce_port: port_after(text_of(announce_port), endpoint.announce_port),
                })
            },
            Err(error) => {
                &&& is_malformed(text_of(announce_port))
                &&& error@ == (MalformedPortView {
                    field: PortField::announce(family),
                    raw: text_of(announce_port)->0,
                })
            },
        },
{
    let Endpoint { listening_host, listening_port, announce_host: base_host, announce_port: base_port } =
        endpoint;
    let settled_host = resolve_announce(changed, announce_host, listening_host.as_str(), base_host);
    match apply_port_override(announce_port, base_port, PortField::announce_of(family)) {
        Ok(settled_port) => Ok(
            Endpoint {
                listening_host,
                listening_port,
                announce_host: settled_host,
                announce_port: settled_port,
            },
        ),
        Err(error) => Err(error),
    }
}

/// Lays `overrides` over the addresses `base` of `family`.
pub fn resolve_endpoint(base: Endpoint, overrides: EndpointOverrides, family: Family) -> (outcome:
    Result<Endpoint, MalformedPort>)
    ensures
        outcome_view(outcome) == endpoint_resolution(base@, overrides@, family),
{
    let EndpointOverrides { host, port, announce_host, announce_port } = overrides;
    match apply_listening_overrides(base, host, port, family) {
        Err(error) => Err(error),
        Ok((endpoint, changed)) => apply_announce_overrides(
            endpoint,
            changed,
            announce_host,
            announce_port,
            family,
        ),
    }
}

/// Lays `overrides` over the configuration `base`.
///
/// Succeeds exactly when no port override is malformed. Otherwise nothing of
/// the configuration comes back: the failure names the first malformed port
/// override, in the order mix port, mix announce port, clients port, clients
/// announce port, and carries its text.
pub fn resolve(base: Config, overrides: Overrides) -> (outcome: Result<Config, MalformedPort>)
    ensures
        outcome_view(outcome) == resolution(base@, overrides@),
{
    let Config { mix, clients, directory, inboxes_dir, clients_ledger_path, location } = base;
    let Overrides {
        mix: mix_overrides,
        clients: clients_overrides,
        directory: directory_override,
        inboxes: inboxes_override,
        clients_ledger: ledger_override,
        location: location_override,
    } = overrides;
    let mix = match resolve_endpoint(mix, mix_overrides, Family::Mix) {
        Ok(endpoint) => endpoint,
        Err(error) => {
            return Err(error);
        },
    };
    let clients = match resolve_endpoint(clients, clients_overrides, Family::Clients) {
        Ok(endpoint) => endpoint,
        Err(error) => {
            return Err(error);
        },
    };
    Ok(
        Config {
            mix,
            clients,
            directory: apply_text_override(directory_override, directory),
            inboxes_dir: apply_text_override(inboxes_override, inboxes_dir),
            clients_ledger_path: apply_text_override(ledger_override, clients_ledger_path),
            location: apply_text_override(location_override, location),
        },
    )
}

} // verus!
