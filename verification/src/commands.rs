//! Overrides as they arrive from the command line.
//!
//! The command line is parsed by `clap`. What the provider takes from the
//! parsed arguments is the first value of each of twelve options; those
//! values are gathered into an [`Overrides`] and laid over the configuration.

use vstd::prelude::*;
use crate::config::Config;
use crate::overrides::{
    text_of, EndpointOverrides, EndpointOverridesView, MalformedPort, Overrides, OverridesView,
};
use crate::resolver::{outcome_view, resolution, resolve};

verus! {

#[verifier::external_type_specification]
#[verifier::external_body]
pub struct ExArgMatches<'a>(clap::ArgMatches<'a>);

/// The arguments that were given at least one value, each with its first
/// value as text. A value that is not valid UTF-8 is taken with U+FFFD in
/// place of each invalid sequence.
pub uninterp spec fn first_values(matches: clap::ArgMatches) -> Map<Seq<char>, Seq<char>>;

/// The first value given for the argument `name`, if any.
///
/// Calls `clap::ArgMatches::value_of_lossy`, which looks `name` up among the
/// matched arguments and, where it is there with at least one value, hands
/// out the first one, converted to text lossily; it yields nothing otherwise.
/// The contract says that this is the entry of `name` in [`first_values`].
#[verifier::external_body]
fn first_value(matches: &clap::ArgMatches, name: &str) -> (value: Option<String>)
    ensures
        text_of(value) == first_values(*matches).get(name@),
{
    match matches.value_of_lossy(name) {
        Some(text) => Some(text.into_owned()),
        None => None,
    }
}

/// The overrides that a set of argument values amounts to: each override is
/// the value of the option of its name.
pub open spec fn overrides_given(values: Map<Seq<char>, Seq<char>>) -> OverridesView {
    OverridesView {
        mix: EndpointOverridesView {
            host: values.get("mix-host"@),
            port: values.get("mix-port"@),
            announce_host: values.get("mix-announce-host"@),
            announce_port: values.get("mix-announce-port"@),
        },
        clients: EndpointOverridesView {
            host: values.get("clients-host"@),
            port: values.get("clients-port"@),
            announce_host: values.get("clients-announce-host"@),
            announce_port: values.get("clients-announce-port"@),
        },
        directory: values.get("directory"@),
        inboxes: values.get("inboxes"@),
        clients_ledger: values.get("clients-ledger"@),
        location: values.get("location"@),
    }
}

/// Gathers the overrides out of the parsed command line.
pub fn read_overrides(matches: &clap::ArgMatches) -> (overrides: Overrides)
    ensures
        overrides@ == overrides_given(first_values(*matches)),
{
    Overrides {
        mix: EndpointOverrides {
            host: first_value(matches, "mix-host"),
            port: first_value(matches, "mix-port"),
            announce_host: first_value(matches, "mix-announce-host"),
            announce_port: first_value(matches, "mix-announce-port"),
        },
        clients: EndpointOverrides {
            host: first_value(matches, "clients-host"),
            port: first_value(matches, "clients-port"),
            announce_host: first_value(matches, "clients-announce-host"),
            announce_port: first_value(matches, "clients-announce-port"),
        },
        directory: first_value(matches, "directory"),
        inboxes: first_value(matches, "inboxes"),
        clients_ledger: first_value(matches, "clients-ledger"),
        location: first_value(matches, "location"),
    }
}

/// Lays the overrides given on the command line over `config`.
///
/// Fails exactly when one of the four port options was given a value that
/// denotes no port, and then names the first such option.
pub fn override_config(config: Config, matches: &clap::ArgMatches) -> (outcome: Result<
    Config,
    MalformedPort,
>)
    ensures
        outcome_view(outcome) == resolution(config@, overrides_given(first_values(*matches))),
{
    resolve(config, read_overrides(matches))
}

} // verus!
