//! Venue and market-maker vocabulary of the liquidity engine.

use vstd::prelude::*;

verus! {

#[derive(Debug, Clone, Copy, PartialEq, Eq, Structural)]
pub enum VenueType {
    CEX,
    DEX,
    OTC,
    Internal,
    Synthetic,
}

#[derive(Debug, Clone, Copy, PartialEq, Eq, Structural)]
pub enum IncentiveStatus {
    Active,
    Completed,
    Expired,
    Cancelled,
}

/// Market-maker rebate tiers.
#[derive(Debug, Clone, Copy, PartialEq, Eq, Structural)]
pub enum RebateTier {
    Bronze,
    Silver,
    Gold,
    Platinum,
    Diamond,
}

impl RebateTier {
    /// The rebate a tier earns: 1 bps for Bronze up to 5 for Diamond.
    pub fn rebate_bps(&self) -> (r: u32)
        ensures
            r == match *self {
                RebateTier::Bronze => 1u32,
                RebateTier::Silver => 2,
                RebateTier::Gold => 3,
                RebateTier::Platinum => 4,
                RebateTier::Diamond => 5,
            },
    {
        match self {
            RebateTier::Bronze => 1,
            RebateTier::Silver => 2,
            RebateTier::Gold => 3,
            RebateTier::Platinum => 4,
            RebateTier::Diamond => 5,
        }
    }
}

/// The state of the feed connection to one venue.
#[derive(Debug, Clone)]
pub struct VenueConnection {
    pub venue_id: String,
    pub connected: bool,
    pub last_ping: u64,
    pub messages_received: u64,
    pub errors: u32,
    pub subscriptions: Vec<String>,
}

} // verus!
