//! NET Action accounting: Interface rank to NET Actions per Turn.
//!
//! | Interface Rank | NET Actions |
//! |----------------|-------------|
//! | 1–3            | 2           |
//! | 4–6            | 3           |
//! | 7–9            | 4           |
//! | 10             | 5           |

use vstd::prelude::*;

verus! {

/// The NET Actions table; rank 0 counts as the 1–3 band and ranks above 10
/// as rank 10.
pub open spec fn spec_net_actions(rank: u8) -> u8 {
    if rank <= 3 {
        2
    } else if rank <= 6 {
        3
    } else if rank <= 9 {
        4
    } else {
        5
    }
}

/// Number of NET Actions a Netrunner gets per Turn from their Interface rank.
pub fn net_actions_per_turn(interface_rank: u8) -> (n: u8)
    ensures
        n == spec_net_actions(interface_rank),
{
    if interface_rank <= 3 {
        2
    } else if interface_rank <= 6 {
        3
    } else if interface_rank <= 9 {
        4
    } else {
        5
    }
}

/// Interface 1 to 3 gives 2 NET Actions a Turn, 4 to 6 gives 3, 7 to 9
/// gives 4, and 10 (or above) gives 5.
pub proof fn lemma_net_actions_bands(rank: u8)
    ensures
        rank <= 3 ==> spec_net_actions(rank) == 2,
        4 <= rank <= 6 ==> spec_net_actions(rank) == 3,
        7 <= rank <= 9 ==> spec_net_actions(rank) == 4,
        10 <= rank ==> spec_net_actions(rank) == 5,
{
}

/// A higher Interface rank never gives fewer NET Actions, and every rank
/// gives between 2 and 5.
pub proof fn lemma_net_actions_monotonic(r1: u8, r2: u8)
    requires
        r1 <= r2,
    ensures
        spec_net_actions(r1) <= spec_net_actions(r2),
        2 <= spec_net_actions(r1) <= 5,
{
}

} // verus!
