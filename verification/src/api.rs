//! What the lookups need besides the network: the cluster on which a
//! region's matches are kept, and the history that the lookups of single
//! matches add up to.

use vstd::prelude::*;

use crate::records::Match;
use crate::utils::Region;

verus! {

/// A cluster on which the matches of several regions are kept.
#[derive(Clone, Copy, Debug, PartialEq, Eq, Structural)]
pub enum RegionalRoute {
    Americas,
    Asia,
    Europe,
    Sea,
}

/// The cluster that hosts the matches of `region`: the Americas for NA and
/// BR, Asia for KR, JP and TW, and Europe for EUNE and EUW. A region that
/// is listed under none of the three is looked up in Europe.
pub open spec fn cluster_for(region: Region) -> RegionalRoute {
    match region {
        Region::NA | Region::BR => RegionalRoute::Americas,
        Region::KR | Region::JP | Region::TW => RegionalRoute::Asia,
        Region::EUNE | Region::EUW => RegionalRoute::Europe,
        _ => RegionalRoute::Europe,
    }
}

/// The cluster on which the matches of `region` are looked up.
pub fn regional_route(region: Region) -> (cluster: RegionalRoute)
    ensures
        cluster == cluster_for(region),
{
    match region {
        Region::NA | Region::BR => RegionalRoute::Americas,
        Region::KR | Region::JP | Region::TW => RegionalRoute::Asia,
        Region::EUNE | Region::EUW => RegionalRoute::Europe,
        _ => RegionalRoute::Europe,
    }
}

/// Adds what the lookup of one match returned to the history: a match that
/// was found comes last, and one that was not found leaves the history as it
/// was.
pub fn keep_match(history: &mut Vec<Match>, found: Option<Match>)
    ensures
        final(history)@ == match found {
            Some(m) => old(history)@.push(m),
            None => old(history)@,
        },
{
    if let Some(m) = found {
        history.push(m);
    }
}

} // verus!
