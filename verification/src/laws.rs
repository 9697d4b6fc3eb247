//! What holds of every resolution, whatever the configuration and the
//! overrides. Each statement is about [`resolution`], which is what
//! [`resolve`](crate::resolver::resolve) computes.

use vstd::prelude::*;
use crate::config::{ConfigView, Family};
use crate::overrides::{MalformedPortView, OverridesView, PortField};
use crate::resolver::{is_malformed, resolution, text_after};

verus! {

/// The text given for a port override, if it was given.
pub open spec fn port_override(overrides: OverridesView, field: PortField) -> Option<Seq<char>> {
    match field {
        PortField::MixPort => overrides.mix.port,
        PortField::MixAnnouncePort => overrides.mix.announce_port,
        PortField::ClientsPort => overrides.clients.port,
        PortField::ClientsAnnouncePort => overrides.clients.announce_port,
    }
}

/// Laying no override at all over a configuration gives that configuration
/// back, equal in every field.
pub proof fn no_overrides_change_nothing(base: ConfigView)
    ensures
        resolution(base, OverridesView::none()) == Ok::<ConfigView, MalformedPortView>(base),
{
}

/// In either family, when the listening host is overridden and the announced
/// host is not, the announced host comes out as the new listening host.
pub proof fn announce_host_follows_new_listening_host(
    base: ConfigView,
    overrides: OverridesView,
    family: Family,
)
    requires
        overrides.endpoint(family).host is Some,
        overrides.endpoint(family).announce_host is None,
    ensures
        resolution(base, overrides) matches Ok(resolved) ==> {
            &&& resolved.endpoint(family).announce_host == overrides.endpoint(family).host->0
            &&& resolved.endpoint(family).announce_host == resolved.endpoint(family).listening_host
        },
{
}

/// In either family, an overridden announced host comes out as given, also
/// when the listening host is overridden in the same pass.
pub proof fn explicit_announce_host_wins(
    base: ConfigView,
    overrides: OverridesView,
    family: Family,
)
    requires
        overrides.endpoint(family).announce_host is Some,
    ensures
        resolution(base, overrides) matches Ok(resolved) ==> resolved.endpoint(
            family,
        ).announce_host == overrides.endpoint(family).announce_host->0,
{
}

/// In either family, when neither the listening host nor the announced host
/// is overridden, the announced host stays as it was, whatever else is
/// overridden.
pub proof fn announce_host_stays_without_host_override(
    base: ConfigView,
    overrides: OverridesView,
    family: Family,
)
    requires
        overrides.endpoint(family).host is None,
        overrides.endpoint(family).announce_host is None,
    ensures
        resolution(base, overrides) matches Ok(resolved) ==> resolved.endpoint(
            family,
        ).announce_host == base.endpoint(family).announce_host,
{
}

/// In either family, a port that is not overridden stays as it was, whatever
/// is done to the other port of the family.
pub proof fn port_stays_without_its_override(
    base: ConfigView,
    overrides: OverridesView,
    family: Family,
)
    ensures
        resolution(base, overrides) matches Ok(resolved) ==> {
            &&& overrides.endpoint(family).announce_port is None ==> resolved.endpoint(
                family,
            ).announce_port == base.endpoint(family).announce_port
            &&& overrides.endpoint(family).port is None ==> resolved.endpoint(
                family,
            ).listening_port == base.endpoint(family).listening_port
        },
{
}

/// In either family, each port depends on its own override alone: two passes
/// over one configuration that agree on the override of a port agree on that
/// port, however they differ on the other port.
pub proof fn ports_do_not_follow_one_another(
    base: ConfigView,
    first: OverridesView,
    second: OverridesView,
    family: Family,
)
    ensures
        resolution(base, first) matches Ok(one) ==> (resolution(base, second) matches Ok(other) ==> {
            &&& first.endpoint(family).announce_port == second.endpoint(family).announce_port
                ==> one.endpoint(family).announce_port == other.endpoint(family).announce_port
            &&& first.endpoint(family).port == second.endpoint(family).port ==> one.endpoint(
                family,
            ).listening_port == other.endpoint(family).listening_port
        }),
{
}

/// A pass fails exactly when one of the four port overrides is malformed: any
/// one of them is enough, and nothing else makes it fail. The failure names a
/// malformed override and carries its text; no malformed override precedes
/// it in the order mix port, mix announce port, clients port, clients
/// announce port.
pub proof fn malformed_port_is_fatal(base: ConfigView, overrides: OverridesView)
    ensures
        forall|field: PortField| #[trigger]
            is_malformed(port_override(overrides, field)) ==> resolution(base, overrides) is Err,
        resolution(base, overrides) matches Err(error) ==> {
            &&& is_malformed(port_override(overrides, error.field))
            &&& error.raw == port_override(overrides, error.field)->0
            &&& error.field != PortField::MixPort ==> !is_malformed(overrides.mix.port)
            &&& error.field == PortField::ClientsPort || error.field
                == PortField::ClientsAnnouncePort ==> !is_malformed(overrides.mix.announce_port)
            &&& error.field == PortField::ClientsAnnouncePort ==> !is_malformed(
                overrides.clients.port,
            )
        },
{
}

/// The addresses of a family come out of that family's addresses and
/// overrides alone: two passes that agree on both agree on the family's
/// resolved addresses, however the other family is configured or overridden.
pub proof fn families_do_not_affect_one_another(
    first_base: ConfigView,
    first: OverridesView,
    second_base: ConfigView,
    second: OverridesView,
    family: Family,
)
    requires
        first_base.endpoint(family) == second_base.endpoint(family),
        first.endpoint(family) == second.endpoint(family),
    ensures
        resolution(first_base, first) matches Ok(one) ==> (resolution(
            second_base,
            second,
        ) matches Ok(other) ==> one.endpoint(family) == other.endpoint(family)),
{
}

/// The places and the location are each settled by their own override alone:
/// the override where it is given, the loaded value where it is not.
pub proof fn places_follow_their_own_override(base: ConfigView, overrides: OverridesView)
    ensures
        resolution(base, overrides) matches Ok(resolved) ==> {
            &&& resolved.directory == text_after(overrides.directory, base.directory)
            &&& resolved.inboxes_dir == text_after(overrides.inboxes, base.inboxes_dir)
            &&& resolved.clients_ledger_path == text_after(
                overrides.clients_ledger,
                base.clients_ledger_path,
            )
            &&& resolved.location == text_after(overrides.location, base.location)
        },
{
}

} // verus!
