//! Fee tiers: the participant tier a monthly volume earns and the volume
//! discount schedule applied to maker and taker fees.

use vstd::prelude::*;

verus! {

/// One band of the monthly-volume discount schedule, `[min, max)` in USD.
#[derive(Debug, Clone, Copy, PartialEq, Eq, Structural)]
pub struct VolumeTier {
    pub min_monthly_volume_usd: u64,
    pub max_monthly_volume_usd: u64,
    pub maker_discount_bps: u32,
    pub taker_discount_bps: u32,
    pub rebate_bps: u32,
}

/// What the venue knows of a participant's revenue.
#[derive(Debug, Clone)]
pub struct ParticipantRevenueProfile {
    pub participant_id: String,
    pub tier: ParticipantTier,
    pub monthly_volume_usd: u64,
    pub total_fees_paid_usd: u64,
    pub total_rebates_earned_usd: u64,
    pub data_license_active: bool,
    pub premium_tier_active: bool,
    pub joined_at: u64,
    pub last_activity: u64,
    pub referral_code: String,
    pub referred_by: Option<String>,
    pub referral_earnings_usd: u64,
}

/// Participant tiers, from the smallest to the largest monthly volume.
#[derive(Debug, Clone, Copy, PartialEq, Eq, Hash, PartialOrd, Ord, Structural)]
pub enum ParticipantTier {
    Standard,
    Professional,
    Institutional,
    Prime,
    Sovereign,
}

impl ParticipantTier {
    pub open spec fn spec_rank(self) -> int {
        match self {
            ParticipantTier::Standard => 0,
            ParticipantTier::Professional => 1,
            ParticipantTier::Institutional => 2,
            ParticipantTier::Prime => 3,
            ParticipantTier::Sovereign => 4,
        }
    }

    /// The position of the tier in the ladder, Standard being 0.
    pub fn rank(&self) -> (r: u8)
        ensures
            r == self.spec_rank(),
    {
        match self {
            ParticipantTier::Standard => 0,
            ParticipantTier::Professional => 1,
            ParticipantTier::Institutional => 2,
            ParticipantTier::Prime => 3,
            ParticipantTier::Sovereign => 4,
        }
    }

    pub open spec fn spec_from_volume(volume_usd: u64) -> ParticipantTier {
        if volume_usd <= 10_000_000 {
            ParticipantTier::Standard
        } else if volume_usd <= 100_000_000 {
            ParticipantTier::Professional
        } else if volume_usd <= 1_000_000_000 {
            ParticipantTier::Institutional
        } else if volume_usd <= 10_000_000_000 {
            ParticipantTier::Prime
        } else {
            ParticipantTier::Sovereign
        }
    }

    /// The tier a monthly volume earns: up to 10M Standard, 100M
    /// Professional, 1B Institutional, 10B Prime, above that Sovereign.
    pub fn from_volume(volume_usd: u64) -> (r: ParticipantTier)
        ensures
            r == Self::spec_from_volume(volume_usd),
    {
        match volume_usd {
            0..=10_000_000 => ParticipantTier::Standard,
            10_000_001..=100_000_000 => ParticipantTier::Professional,
            100_000_001..=1_000_000_000 => ParticipantTier::Institutional,
            1_000_000_001..=10_000_000_000 => ParticipantTier::Prime,
            _ => ParticipantTier::Sovereign,
        }
    }
}

/// More volume never earns a lower tier.
pub proof fn lemma_tier_monotone(v1: u64, v2: u64)
    requires
        v1 <= v2,
    ensures
        ParticipantTier::spec_from_volume(v1).spec_rank() <= ParticipantTier::spec_from_volume(v2).spec_rank(),
{
}

/// The default discount schedule.
pub open spec fn default_volume_tiers_spec() -> Seq<VolumeTier> {
    seq![
        VolumeTier { min_monthly_volume_usd: 0, max_monthly_volume_usd: 10_000_000, maker_discount_bps: 0, taker_discount_bps: 0, rebate_bps: 0 },
        VolumeTier { min_monthly_volume_usd: 10_000_000, max_monthly_volume_usd: 100_000_000, maker_discount_bps: 1, taker_discount_bps: 2, rebate_bps: 1 },
        VolumeTier { min_monthly_volume_usd: 100_000_000, max_monthly_volume_usd: 1_000_000_000, maker_discount_bps: 2, taker_discount_bps: 3, rebate_bps: 2 },
        VolumeTier { min_monthly_volume_usd: 1_000_000_000, max_monthly_volume_usd: u64::MAX, maker_discount_bps: 3, taker_discount_bps: 4, rebate_bps: 3 },
    ]
}

pub fn default_volume_tiers() -> (r: Vec<VolumeTier>)
    ensures
        r@ == default_volume_tiers_spec(),
{
    let mut v: Vec<VolumeTier> = Vec::new();
    v.push(VolumeTier { min_monthly_volume_usd: 0, max_monthly_volume_usd: 10_000_000, maker_discount_bps: 0, taker_discount_bps: 0, rebate_bps: 0 });
    v.push(VolumeTier { min_monthly_volume_usd: 10_000_000, max_monthly_volume_usd: 100_000_000, maker_discount_bps: 1, taker_discount_bps: 2, rebate_bps: 1 });
    v.push(VolumeTier { min_monthly_volume_usd: 100_000_000, max_monthly_volume_usd: 1_000_000_000, maker_discount_bps: 2, taker_discount_bps: 3, rebate_bps: 2 });
    v.push(VolumeTier { min_monthly_volume_usd: 1_000_000_000, max_monthly_volume_usd: u64::MAX, maker_discount_bps: 3, taker_discount_bps: 4, rebate_bps: 3 });
    assert(v@ =~= default_volume_tiers_spec());
    v
}

/// Whether a monthly volume falls in a band.
pub open spec fn in_band(t: VolumeTier, volume: u64) -> bool {
    t.min_monthly_volume_usd <= volume < t.max_monthly_volume_usd
}

/// The discount, in basis points, of the first band from `i` on that holds
/// the volume; 0 when none does.
pub open spec fn discount_from(tiers: Seq<VolumeTier>, volume: u64, is_maker: bool, i: int) -> u32
    decreases tiers.len() - i,
{
    if i >= tiers.len() || i < 0 {
        0
    } else if in_band(tiers[i], volume) {
        if is_maker { tiers[i].maker_discount_bps } else { tiers[i].taker_discount_bps }
    } else {
        discount_from(tiers, volume, is_maker, i + 1)
    }
}

/// The maker or taker discount of the first band that holds the volume
/// (none: 0).
pub fn volume_discount(tiers: &[VolumeTier], volume: u64, is_maker: bool) -> (r: u32)
    ensures
        r == discount_from(tiers@, volume, is_maker, 0),
{
    let mut i: usize = 0;
    while i < tiers.len()
        invariant
            i <= tiers@.len(),
            discount_from(tiers@, volume, is_maker, 0) == discount_from(tiers@, volume, is_maker, i as int),
        decreases tiers@.len() - i,
    {
        let t = tiers[i];
        if volume >= t.min_monthly_volume_usd && volume < t.max_monthly_volume_usd {
            return if is_maker { t.maker_discount_bps } else { t.taker_discount_bps };
        }
        i = i + 1;
    }
    0
}

} // verus!
