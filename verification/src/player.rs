//! Player-related records with exact fields: ranked statistics and merged
//! accounts.

use vstd::prelude::*;

verus! {

/// One ranked-queue statistics block of a player.
pub struct RankedStats {
    pub leaves: u32,
    pub losses: u32,
    pub name: String,
    pub points: u32,
    pub prev_rank: u32,
    pub rank: u32,
    pub rank_stat: u32,
    pub rank_stat_conquest: Option<u32>,
    pub rank_stat_joust: Option<u32>,
    pub rank_variance: u32,
    pub round: u32,
    pub season: u32,
    pub tier: u32,
    pub trend: u32,
    pub wins: u32,
    pub player_id: Option<String>,
    pub ret_msg: Option<String>,
}

/// An account merged into a player: where it came from and when.
pub struct Merged {
    pub player_id: String,
    pub portal_id: String,
    pub merge_datetime: String,
}

} // verus!
