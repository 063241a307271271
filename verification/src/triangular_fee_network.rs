//! The fee legs of a routed trade: the market-making fee, the currency
//! spread and the platform fee, each in basis points and each switched on or
//! off; and how a routed trade is classed.

use vstd::prelude::*;

verus! {

/// The market-making fee by default, in basis points.
pub const DEFAULT_BMM_FEE_BPS: u32 = 50;

/// The currency spread by default, in basis points.
pub const DEFAULT_FX_SPREAD_BPS: u32 = 5;

/// The platform fee by default, in basis points.
pub const DEFAULT_REVENUE_FEE_BPS: u32 = 5;

/// The three fee legs and which of them are charged.
#[derive(Debug, Clone, Copy)]
pub struct TriangularFeeConfig {
    pub bmm_fee_bps: u32,
    pub fx_spread_bps: u32,
    pub revenue_fee_bps: u32,
    pub legs_enabled: [bool; 3],
}

impl Default for TriangularFeeConfig {
    /// 50, 5 and 5 basis points, all legs charged.
    fn default() -> (r: TriangularFeeConfig)
        ensures
            r.bmm_fee_bps == DEFAULT_BMM_FEE_BPS,
            r.fx_spread_bps == DEFAULT_FX_SPREAD_BPS,
            r.revenue_fee_bps == DEFAULT_REVENUE_FEE_BPS,
            r.legs_enabled@ == seq![true, true, true],
    {
        let legs: [bool; 3] = [true, true, true];
        assert(legs@ =~= seq![true, true, true]);
        TriangularFeeConfig {
            bmm_fee_bps: DEFAULT_BMM_FEE_BPS,
            fx_spread_bps: DEFAULT_FX_SPREAD_BPS,
            revenue_fee_bps: DEFAULT_REVENUE_FEE_BPS,
            legs_enabled: legs,
        }
    }
}

/// The basis points of the legs, in leg order.
pub open spec fn leg_bps(c: TriangularFeeConfig) -> Seq<u32> {
    seq![c.bmm_fee_bps, c.fx_spread_bps, c.revenue_fee_bps]
}

/// The basis points charged over the first `n` flags: a leg counts when its
/// flag is set; flags past the third leg count for nothing.
pub open spec fn charged_bps(bps: Seq<u32>, legs: Seq<bool>, n: int) -> int
    decreases n,
{
    if n <= 0 {
        0
    } else {
        charged_bps(bps, legs, n - 1) + if legs[n - 1] && n - 1 < bps.len() { bps[n - 1] as int } else { 0 }
    }
}

/// The basis points charged when the flagged legs are on; the projected
/// revenue multiplier is this over the market-making fee.
pub fn enabled_fee_bps(config: &TriangularFeeConfig, legs: &[bool]) -> (r: u64)
    ensures
        r == charged_bps(leg_bps(*config), legs@, legs@.len() as int),
{
    let bps: [u32; 3] = [config.bmm_fee_bps, config.fx_spread_bps, config.revenue_fee_bps];
    assert(bps@ =~= leg_bps(*config));
    let mut total: u64 = 0;
    let mut i: usize = 0;
    while i < legs.len()
        invariant
            i <= legs@.len(),
            bps@ == leg_bps(*config),
            total == charged_bps(bps@, legs@, i as int),
            total <= 3 * 0xffff_ffffu64,
        decreases legs@.len() - i,
    {
        proof {
            lemma_charged_bound(bps@, legs@, i as int + 1);
        }
        if legs[i] && i < 3 {
            total = total + bps[i] as u64;
        }
        i = i + 1;
    }
    total
}

/// At most three legs are ever charged, each under 2^32 basis points.
proof fn lemma_charged_bound(bps: Seq<u32>, legs: Seq<bool>, n: int)
    requires
        bps.len() == 3,
    ensures
        0 <= charged_bps(bps, legs, n),
        charged_bps(bps, legs, n) <= (if n <= 0 { 0 } else if n < 3 { n } else { 3 }) * 0xffff_ffff,
        n > 3 ==> charged_bps(bps, legs, n) == charged_bps(bps, legs, 3),
    decreases n,
{
    if n > 0 {
        lemma_charged_bound(bps, legs, n - 1);
    }
}

/// Whether a routed trade counts as simulated: some leg is both charged and
/// simulated.
pub open spec fn spec_is_simulated_route(legs_enabled: Seq<bool>, is_simulated: Seq<bool>) -> bool {
    exists|i: int| 0 <= i < 3 && legs_enabled[i] && is_simulated[i]
}

/// Whether a routed trade counts as simulated rather than live.
pub fn is_simulated_route(legs_enabled: &[bool; 3], is_simulated: &[bool; 3]) -> (r: bool)
    ensures
        r == spec_is_simulated_route(legs_enabled@, is_simulated@),
{
    let mut i: usize = 0;
    while i < 3
        invariant
            i <= 3,
            legs_enabled@.len() == 3,
            is_simulated@.len() == 3,
            forall|j: int| 0 <= j < i ==> !(legs_enabled@[j] && is_simulated@[j]),
        decreases 3 - i,
    {
        if legs_enabled[i] && is_simulated[i] {
            return true;
        }
        i = i + 1;
    }
    false
}

} // verus!
