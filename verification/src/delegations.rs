//! What is shown of the delegations towards a mix node.

use vstd::prelude::*;

verus! {

/// The delegations to show once a fetch from the validator has ended: those
/// that were fetched, in the order in which they came, or none at all when
/// the fetch failed.
pub fn delegations_or_empty<D, E>(fetched: Result<Vec<D>, E>) -> (delegations: Vec<D>)
    ensures
        match fetched {
            Ok(found) => delegations == found,
            Err(_) => delegations@ == Seq::<D>::empty(),
        },
{
    match fetched {
        Ok(found) => found,
        Err(_) => Vec::new(),
    }
}

} // verus!
