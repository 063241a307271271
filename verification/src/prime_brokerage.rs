//! The revenue summary of the prime-brokerage plans. Subscriptions and
//! billing run on the tenant and billing services, which are not part of this
//! crate.

use vstd::prelude::*;

verus! {

/// Active subscriptions, monthly recurring revenue, revenue to date and what
/// is outstanding, in cents.
#[derive(Debug, Clone, Copy)]
pub struct PrimeRevenueSummary {
    pub active_subscriptions: u64,
    pub monthly_recurring_cents: u64,
    pub total_revenue_cents: u64,
    pub outstanding_cents: u64,
}

} // verus!
