//! The AML transaction monitor: each tenant's last hundred transactions are
//! kept, and each new one is screened against them for structuring,
//! velocity, wash-trading oscillation, round and large values and the
//! jurisdiction's risk. A critical score files a suspicious activity report.
//! How a value stands against the thresholds is worked out by the caller,
//! who holds the floating-point quantity and price.

use vstd::prelude::*;
use crate::kyc::{classify_jurisdiction, grade_aml_risk, spec_classify_jurisdiction, spec_grade_aml_risk, AmlCheck};
use crate::text::{copy_strings, decimal, owned, push_decimal, push_str, str_eq, texts};
use crate::clock::utc_millis;

verus! {

/// The most transactions kept per tenant.
pub const MAX_HISTORY: usize = 100;

/// The velocity window, in milliseconds.
pub const VELOCITY_WINDOW_MS: i64 = 10_000;

/// Where a transaction's value stands against the large-value thresholds.
#[derive(Debug, Clone, Copy, PartialEq, Eq, Structural)]
pub enum ValueTier {
    /// 50,000 or less.
    Normal,
    /// Over 50,000 and at most 100,000.
    Elevated,
    /// Over 100,000.
    High,
}

/// How a transaction's value (quantity times price) stands against the AML
/// thresholds.
#[derive(Debug, Clone)]
pub struct TransactionValue {
    /// Over 8,000 and under the 10,000 reporting threshold.
    pub near_threshold: bool,
    /// At least 1,000 and less than 0.01 past a multiple of 1,000.
    pub round_number: bool,
    pub tier: ValueTier,
    /// The value as written in the large-value flags.
    pub value_text: String,
}

/// What the monitor keeps of a transaction.
#[derive(Debug, Clone)]
pub struct TransactionRecord {
    pub id: u128,
    pub side: String,
    pub timestamp: i64,
    /// Whether its value lay just under the reporting threshold.
    pub near_threshold: bool,
}

/// A kept transaction as values: id, side, time and whether it was near the
/// threshold.
pub open spec fn record_view(t: TransactionRecord) -> (u128, Seq<char>, i64, bool) {
    (t.id, t.side@, t.timestamp, t.near_threshold)
}

/// The views of a list of kept transactions.
pub open spec fn records_view(v: Seq<TransactionRecord>) -> Seq<(u128, Seq<char>, i64, bool)> {
    v.map_values(|t: TransactionRecord| record_view(t))
}

/// A tenant's history after a transaction: the transaction appended, and the
/// oldest dropped beyond the hundred kept.
pub open spec fn appended(h: Seq<(u128, Seq<char>, i64, bool)>, t: (u128, Seq<char>, i64, bool)) -> Seq<(u128, Seq<char>, i64, bool)> {
    let g = h.push(t);
    if g.len() > 100 { g.skip(g.len() - 100) } else { g }
}

/// How many transactions of a history were near the threshold.
pub open spec fn near_count(h: Seq<(u128, Seq<char>, i64, bool)>) -> nat
    decreases h.len(),
{
    if h.len() == 0 {
        0
    } else {
        near_count(h.drop_last()) + if h.last().3 { 1nat } else { 0nat }
    }
}

/// The transactions of a history less than ten seconds before `now`, in
/// order.
pub open spec fn rapid(h: Seq<(u128, Seq<char>, i64, bool)>, now: i64) -> Seq<(u128, Seq<char>, i64, bool)>
    decreases h.len(),
{
    if h.len() == 0 {
        Seq::empty()
    } else if now - h.last().2 < 10_000 {
        rapid(h.drop_last(), now).push(h.last())
    } else {
        rapid(h.drop_last(), now)
    }
}

/// Whether no two consecutive transactions are on the same side.
pub open spec fn alternating(h: Seq<(u128, Seq<char>, i64, bool)>) -> bool {
    forall|i: int| 0 <= i < h.len() - 1 ==> #[trigger] h[i].1 != h[i + 1].1
}

/// Whether recent transactions oscillate between buying and selling: four or
/// more, alternating sides.
pub open spec fn oscillating(r: Seq<(u128, Seq<char>, i64, bool)>) -> bool {
    r.len() >= 4 && alternating(r)
}

/// The points of a screen, before the cap at 100.
pub open spec fn aml_points(sanctions_risk: u8, near: nat, rapid_count: nat, round: bool, osc: bool, tier: ValueTier, jurisdiction_risk: u8) -> nat {
    (sanctions_risk / 2) as nat
        + (if near >= 3 { 40nat } else { 0nat })
        + (if rapid_count >= 5 { 35nat } else if rapid_count >= 3 { 20nat } else { 0nat })
        + (if round { 10nat } else { 0nat })
        + (if osc { 30nat } else { 0nat })
        + (match tier { ValueTier::High => 25nat, ValueTier::Elevated => 15nat, ValueTier::Normal => 0nat })
        + (if jurisdiction_risk >= 80 { (jurisdiction_risk / 3) as nat } else { 0nat })
}

/// The score of a screen of the transaction that ends history `h` at `now`:
/// its points, at most 100.
pub open spec fn aml_score(h: Seq<(u128, Seq<char>, i64, bool)>, now: i64, sanctions_risk: u8, value: TransactionValue, jurisdiction: Seq<char>) -> u8 {
    let p = aml_points(
        sanctions_risk,
        near_count(h),
        rapid(h, now).len(),
        value.round_number,
        oscillating(rapid(h, now)),
        value.tier,
        spec_classify_jurisdiction(jurisdiction).1,
    );
    if p > 100 { 100 } else { p as u8 }
}

/// A list of one text when `b` holds, empty otherwise.
pub open spec fn flag_if(b: bool, text: Seq<char>) -> Seq<Seq<char>> {
    if b { seq![text] } else { Seq::empty() }
}

/// The flags raised for counts near the threshold and in the velocity
/// window, oscillation, a value and a jurisdiction, in the order they are
/// raised.
pub open spec fn flags_for(near: nat, fast: nat, osc: bool, value: TransactionValue, jurisdiction: Seq<char>) -> Seq<Seq<char>> {
    let j = spec_classify_jurisdiction(jurisdiction).1;
    flag_if(near >= 3, "STRUCTURING_DETECTED: "@ + decimal(near) + " transactions near $10000 threshold"@)
        + flag_if(fast >= 5, "HIGH_VELOCITY: "@ + decimal(fast) + " transactions in 10 seconds"@)
        + flag_if(3 <= fast < 5, "ELEVATED_VELOCITY: "@ + decimal(fast) + " transactions in 10 seconds"@)
        + flag_if(value.round_number, "ROUND_NUMBER_TRANSACTION"@)
        + flag_if(osc, "RAPID_BUY_SELL_OSCILLATION"@)
        + flag_if(value.tier == ValueTier::High, "HIGH_VALUE: $"@ + value.value_text@)
        + flag_if(value.tier == ValueTier::Elevated, "ELEVATED_VALUE: $"@ + value.value_text@)
        + flag_if(j >= 80, "HIGH_RISK_JURISDICTION: "@ + jurisdiction)
}

/// The flags of a screen of the transaction that ends history `h` at `now`.
pub open spec fn aml_flags(h: Seq<(u128, Seq<char>, i64, bool)>, now: i64, value: TransactionValue, jurisdiction: Seq<char>) -> Seq<Seq<char>> {
    flags_for(near_count(h), rapid(h, now).len(), oscillating(rapid(h, now)), value, jurisdiction)
}

/// Texts joined with a separator between them.
pub open spec fn joined(s: Seq<Seq<char>>, sep: Seq<char>) -> Seq<char>
    decreases s.len(),
{
    if s.len() == 0 {
        Seq::empty()
    } else if s.len() == 1 {
        s[0]
    } else {
        joined(s.drop_last(), sep) + sep + s.last()
    }
}

/// The narrative of an automatic suspicious activity report.
pub open spec fn sar_narrative(score: u8, flags: Seq<Seq<char>>) -> Seq<char> {
    "AUTO_SAR: Risk score "@ + decimal(score as nat) + " - "@ + joined(flags, "; "@)
}

/// A suspicious activity report.
#[derive(Debug, Clone)]
pub struct SarRecord {
    pub id: u128,
    pub tenant_id: u128,
    pub transaction_ids: Vec<u128>,
    pub risk_score: u8,
    pub flags: Vec<String>,
    pub narrative: String,
    pub filed_at: i64,
    pub filed_to_regulator: bool,
}

impl SarRecord {
    /// Whether two reports hold the same data.
    pub open spec fn same_as(&self, other: &SarRecord) -> bool {
        &&& self.id == other.id
        &&& self.tenant_id == other.tenant_id
        &&& self.transaction_ids@ == other.transaction_ids@
        &&& self.risk_score == other.risk_score
        &&& self.flags@ == other.flags@
        &&& self.narrative@ == other.narrative@
        &&& self.filed_at == other.filed_at
        &&& self.filed_to_regulator == other.filed_to_regulator
    }

    /// A copy holding the same data.
    pub fn duplicate(&self) -> (r: SarRecord)
        ensures
            r.same_as(self),
    {
        SarRecord {
            id: self.id,
            tenant_id: self.tenant_id,
            transaction_ids: self.transaction_ids.clone(),
            risk_score: self.risk_score,
            flags: copy_strings(&self.flags),
            narrative: self.narrative.clone(),
            filed_at: self.filed_at,
            filed_to_regulator: self.filed_to_regulator,
        }
    }
}

/// Whether `s` is the report filed for a tenant's history with a score and
/// flags, at `now`, not yet sent to the regulator.
pub open spec fn is_sar(s: SarRecord, id: u128, tenant_id: u128, h: Seq<(u128, Seq<char>, i64, bool)>, score: u8, flags: Seq<Seq<char>>, now: i64) -> bool {
    &&& s.id == id
    &&& s.tenant_id == tenant_id
    &&& s.transaction_ids@ == h.map_values(|t: (u128, Seq<char>, i64, bool)| t.0)
    &&& s.risk_score == score
    &&& texts(s.flags@) == flags
    &&& s.narrative@ == sar_narrative(score, flags)
    &&& s.filed_at == now
    &&& !s.filed_to_regulator
}

/// Whether slot `i` of `s` is the tenant's.
pub open spec fn holds_slot(s: Seq<(u128, Vec<TransactionRecord>)>, tenant_id: u128, i: int) -> bool {
    0 <= i < s.len() && s[i].0 == tenant_id
}

/// Whether some slot of `s` is the tenant's.
pub open spec fn has_slot(s: Seq<(u128, Vec<TransactionRecord>)>, tenant_id: u128) -> bool {
    exists|i: int| holds_slot(s, tenant_id, i)
}

/// The tenant's kept transactions: empty when it has none.
pub open spec fn history_of(s: Seq<(u128, Vec<TransactionRecord>)>, tenant_id: u128) -> Seq<(u128, Seq<char>, i64, bool)> {
    if has_slot(s, tenant_id) {
        records_view(s[choose|i: int| holds_slot(s, tenant_id, i)].1@)
    } else {
        Seq::empty()
    }
}

/// Whether no two slots of `s` are of the same tenant.
pub open spec fn slots_unique(s: Seq<(u128, Vec<TransactionRecord>)>) -> bool {
    forall|i: int, j: int| 0 <= i < j < s.len() ==> s[i].0 != s[j].0
}

/// With slots unique, the history of a tenant is that of its slot.
pub proof fn lemma_history_at(s: Seq<(u128, Vec<TransactionRecord>)>, tenant_id: u128, i: int)
    requires
        slots_unique(s),
        holds_slot(s, tenant_id, i),
    ensures
        history_of(s, tenant_id) == records_view(s[i].1@),
{
    let k = choose|k: int| holds_slot(s, tenant_id, k);
    assert(holds_slot(s, tenant_id, k));
    if k != i {
        if k < i {
            assert(s[k].0 != s[i].0);
        } else {
            assert(s[i].0 != s[k].0);
        }
    }
}

/// The index of the tenant's slot, if any.
fn slot_position(v: &Vec<(u128, Vec<TransactionRecord>)>, tenant_id: u128) -> (r: Option<usize>)
    ensures
        match r {
            Some(i) => holds_slot(v@, tenant_id, i as int),
            None => !has_slot(v@, tenant_id),
        },
{
    let mut i: usize = 0;
    while i < v.len()
        invariant
            i <= v@.len(),
            forall|j: int| 0 <= j < i ==> v@[j].0 != tenant_id,
        decreases v@.len() - i,
    {
        if v[i].0 == tenant_id {
            return Some(i);
        }
        i = i + 1;
    }
    assert forall|j: int| !holds_slot(v@, tenant_id, j) by {}
    None
}

/// Appending to a list keeps it alternating exactly when the list was and
/// the new side differs from the last one.
pub proof fn lemma_alternating_push(p: Seq<(u128, Seq<char>, i64, bool)>, x: (u128, Seq<char>, i64, bool))
    ensures
        alternating(p.push(x)) == (alternating(p) && (p.len() > 0 ==> p.last().1 != x.1)),
{
    let q = p.push(x);
    if alternating(q) {
        assert forall|i: int| 0 <= i < p.len() - 1 implies #[trigger] p[i].1 != p[i + 1].1 by {
            assert(q[i] == p[i]);
            assert(q[i + 1] == p[i + 1]);
            assert(q[i].1 != q[i + 1].1);
        }
        if p.len() > 0 {
            assert(q[p.len() - 1].1 != q[p.len() as int].1);
        }
    }
    if alternating(p) && (p.len() > 0 ==> p.last().1 != x.1) {
        assert forall|i: int| 0 <= i < q.len() - 1 implies #[trigger] q[i].1 != q[i + 1].1 by {
            if i + 1 < p.len() {
                assert(p[i].1 != p[i + 1].1);
            }
        }
    }
}

/// The count near the threshold, the count of transactions in the velocity
/// window and whether those oscillate, for a history.
fn screen_history(hist: &Vec<TransactionRecord>, now: i64) -> (r: (usize, usize, bool))
    ensures
        r.0 == near_count(records_view(hist@)),
        r.1 == rapid(records_view(hist@), now).len(),
        r.2 == oscillating(rapid(records_view(hist@), now)),
{
    let ghost h = records_view(hist@);
    let mut near: usize = 0;
    let mut fast: usize = 0;
    let mut alt = true;
    let mut last: usize = 0;
    let mut i: usize = 0;
    while i < hist.len()
        invariant
            i <= hist@.len(),
            h == records_view(hist@),
            near == near_count(h.take(i as int)),
            fast == rapid(h.take(i as int), now).len(),
            alt == alternating(rapid(h.take(i as int), now)),
            fast > 0 ==> last < i && rapid(h.take(i as int), now).last() == h[last as int],
            near <= i,
            fast <= i,
        decreases hist@.len() - i,
    {
        let ghost p = rapid(h.take(i as int), now);
        proof {
            assert(h.take(i + 1).drop_last() =~= h.take(i as int));
            assert(h.take(i + 1).last() == h[i as int]);
        }
        if hist[i].near_threshold {
            near = near + 1;
        }
        if (now as i128) - (hist[i].timestamp as i128) < 10_000 {
            if fast > 0 && str_eq(hist[last].side.as_str(), hist[i].side.as_str()) {
                alt = false;
            }
            proof {
                lemma_alternating_push(p, h[i as int]);
            }
            fast = fast + 1;
            last = i;
        }
        i = i + 1;
    }
    proof {
        assert(h.take(hist@.len() as int) =~= h);
    }
    (near, fast, fast >= 4 && alt)
}

/// The ids of a history, in order.
fn history_ids(hist: &Vec<TransactionRecord>) -> (r: Vec<u128>)
    ensures
        r@ == records_view(hist@).map_values(|t: (u128, Seq<char>, i64, bool)| t.0),
{
    let mut out: Vec<u128> = Vec::new();
    let mut i: usize = 0;
    while i < hist.len()
        invariant
            i <= hist@.len(),
            out@ == records_view(hist@).take(i as int).map_values(|t: (u128, Seq<char>, i64, bool)| t.0),
        decreases hist@.len() - i,
    {
        out.push(hist[i].id);
        proof {
            assert(records_view(hist@).take(i + 1).map_values(|t: (u128, Seq<char>, i64, bool)| t.0)
                =~= records_view(hist@).take(i as int).map_values(|t: (u128, Seq<char>, i64, bool)| t.0).push(hist@[i as int].id));
        }
        i = i + 1;
    }
    proof {
        assert(records_view(hist@).take(hist@.len() as int) =~= records_view(hist@));
    }
    out
}

/// Appends a flag when `raised` holds.
fn push_flag_if(flags: &mut Vec<String>, raised: bool, text: String)
    ensures
        texts(final(flags)@) == texts(old(flags)@) + flag_if(raised, text@),
{
    if raised {
        flags.push(text);
        proof {
            assert(texts(flags@) =~= texts(old(flags)@) + flag_if(raised, text@));
        }
    } else {
        proof {
            assert(texts(flags@) =~= texts(old(flags)@) + flag_if(raised, text@));
        }
    }
}

/// Texts joined with a separator between them.
fn join_texts(v: &Vec<String>, sep: &str) -> (r: String)
    ensures
        r@ == joined(texts(v@), sep@),
{
    let ghost t = texts(v@);
    let mut out = String::new();
    let mut i: usize = 0;
    while i < v.len()
        invariant
            i <= v@.len(),
            t == texts(v@),
            out@ == joined(t.take(i as int), sep@),
        decreases v@.len() - i,
    {
        proof {
            assert(t.take(i + 1).drop_last() =~= t.take(i as int));
        }
        if i > 0 {
            push_str(&mut out, sep);
        }
        push_str(&mut out, v[i].as_str());
        proof {
            if i == 0 {
                assert(out@ =~= joined(t.take(1), sep@));
            } else {
                assert(out@ =~= joined(t.take(i + 1), sep@));
            }
        }
        i = i + 1;
    }
    proof {
        assert(t.take(v@.len() as int) =~= t);
    }
    out
}

/// The flags raised for the counts of a screen, a value and a jurisdiction
/// of risk `j_risk`.
fn screen_flags(near: usize, fast: usize, osc: bool, value: &TransactionValue, jurisdiction: &str, j_risk: u8) -> (r: Vec<String>)
    requires
        j_risk == spec_classify_jurisdiction(jurisdiction@).1,
    ensures
        texts(r@) == flags_for(near as nat, fast as nat, osc, *value, jurisdiction@),
{
    let mut flags: Vec<String> = Vec::new();
    let mut structuring = owned("STRUCTURING_DETECTED: ");
    push_decimal(&mut structuring, near as u64);
    push_str(&mut structuring, " transactions near $10000 threshold");
    push_flag_if(&mut flags, near >= 3, structuring);
    let mut high_velocity = owned("HIGH_VELOCITY: ");
    push_decimal(&mut high_velocity, fast as u64);
    push_str(&mut high_velocity, " transactions in 10 seconds");
    push_flag_if(&mut flags, fast >= 5, high_velocity);
    let mut elevated_velocity = owned("ELEVATED_VELOCITY: ");
    push_decimal(&mut elevated_velocity, fast as u64);
    push_str(&mut elevated_velocity, " transactions in 10 seconds");
    push_flag_if(&mut flags, 3 <= fast && fast < 5, elevated_velocity);
    push_flag_if(&mut flags, value.round_number, owned("ROUND_NUMBER_TRANSACTION"));
    push_flag_if(&mut flags, osc, owned("RAPID_BUY_SELL_OSCILLATION"));
    let mut high_value = owned("HIGH_VALUE: $");
    push_str(&mut high_value, value.value_text.as_str());
    push_flag_if(&mut flags, value.tier == ValueTier::High, high_value);
    let mut elevated_value = owned("ELEVATED_VALUE: $");
    push_str(&mut elevated_value, value.value_text.as_str());
    push_flag_if(&mut flags, value.tier == ValueTier::Elevated, elevated_value);
    let mut high_risk = owned("HIGH_RISK_JURISDICTION: ");
    push_str(&mut high_risk, jurisdiction);
    push_flag_if(&mut flags, j_risk >= 80, high_risk);
    proof {
        assert(texts(flags@) =~= flags_for(near as nat, fast as nat, osc, *value, jurisdiction@));
    }
    flags
}

/// The score of a screen: its points, at most 100.
fn screen_points(sanctions_risk_score: u8, near: usize, fast: usize, round: bool, osc: bool, tier: ValueTier, j_risk: u8) -> (r: u8)
    ensures
        r == (if aml_points(sanctions_risk_score, near as nat, fast as nat, round, osc, tier, j_risk) > 100 { 100 }
            else { aml_points(sanctions_risk_score, near as nat, fast as nat, round, osc, tier, j_risk) }),
{
    let carried: u32 = (sanctions_risk_score / 2) as u32;
    let structuring: u32 = if near >= 3 { 40 } else { 0 };
    let velocity: u32 = if fast >= 5 { 35 } else if fast >= 3 { 20 } else { 0 };
    let round_points: u32 = if round { 10 } else { 0 };
    let oscillation: u32 = if osc { 30 } else { 0 };
    let large: u32 = match tier {
        ValueTier::High => 25,
        ValueTier::Elevated => 15,
        ValueTier::Normal => 0,
    };
    let place: u32 = if j_risk >= 80 { (j_risk / 3) as u32 } else { 0 };
    let points: u32 = carried + structuring + velocity + round_points + oscillation + large + place;
    let score: u8 = if points > 100 { 100 } else { points as u8 };
    score
}

/// `Uuid::new_v4().as_u128()`: a fresh random identifier; nothing is
/// promised of it.
#[verifier::external_body]
fn new_uuid_u128() -> (r: u128) {
    uuid::Uuid::new_v4().as_u128()
}

/// The AML monitor: each tenant's kept transactions and the reports filed.
pub struct AmlMonitor {
    tx_history: Vec<(u128, Vec<TransactionRecord>)>,
    sar_log: Vec<SarRecord>,
    sar_counter: u64,
}

impl AmlMonitor {
    #[verifier::type_invariant]
    closed spec fn inv(&self) -> bool {
        &&& slots_unique(self.tx_history@)
        &&& forall|i: int| 0 <= i < self.tx_history@.len() ==> (#[trigger] self.tx_history@[i]).1@.len() <= 100
    }

    /// A tenant's kept transactions, oldest first.
    pub closed spec fn history(&self, tenant_id: u128) -> Seq<(u128, Seq<char>, i64, bool)> {
        history_of(self.tx_history@, tenant_id)
    }

    /// The reports filed, oldest first.
    pub closed spec fn sars(&self) -> Seq<SarRecord> {
        self.sar_log@
    }

    /// The number of reports filed (wrapping at 2^64).
    pub closed spec fn sar_count(&self) -> u64 {
        self.sar_counter
    }

    /// A monitor with no history and no reports.
    pub fn new() -> (r: AmlMonitor)
        ensures
            forall|t: u128| r.history(t).len() == 0,
            r.sars().len() == 0,
            r.sar_count() == 0,
    {
        AmlMonitor { tx_history: Vec::new(), sar_log: Vec::new(), sar_counter: 0 }
    }

    /// Appends a transaction to its tenant's history and screens the history:
    /// the count near the threshold, the count in the velocity window, whether
    /// those oscillate, and the ids kept.
    fn record_and_screen(&mut self, tenant_id: u128, record: TransactionRecord, now: i64) -> (r: (usize, usize, bool, Vec<u128>))
        ensures
            final(self).history(tenant_id) == appended(old(self).history(tenant_id), record_view(record)),
            forall|t: u128| t != tenant_id ==> final(self).history(t) == old(self).history(t),
            final(self).sars() == old(self).sars(),
            final(self).sar_count() == old(self).sar_count(),
            r.0 == near_count(final(self).history(tenant_id)),
            r.1 == rapid(final(self).history(tenant_id), now).len(),
            r.2 == oscillating(rapid(final(self).history(tenant_id), now)),
            r.3@ == final(self).history(tenant_id).map_values(|t: (u128, Seq<char>, i64, bool)| t.0),
    {
        proof {
            use_type_invariant(&*self);
        }
        let ghost rv = record_view(record);
        let mut v: Vec<(u128, Vec<TransactionRecord>)> = Vec::new();
        std::mem::swap(&mut v, &mut self.tx_history);
        let ghost before = v@;
        let found = slot_position(&v, tenant_id);
        let ghost old_h: Seq<(u128, Seq<char>, i64, bool)>;
        let (k, mut hist) = match found {
            Some(i) => {
                proof {
                    lemma_history_at(before, tenant_id, i as int);
                }
                let slot = v.remove(i);
                proof {
                    old_h = records_view(slot.1@);
                }
                (i, slot.1)
            },
            None => {
                proof {
                    old_h = Seq::empty();
                }
                (v.len(), Vec::new())
            },
        };
        proof {
            assert(old_h == history_of(before, tenant_id));
            assert(hist@.len() <= 100);
            assert(records_view(hist@) == old_h);
        }
        hist.push(record);
        proof {
            assert(records_view(hist@) =~= old_h.push(rv));
        }
        if hist.len() > MAX_HISTORY {
            let _oldest = hist.remove(0);
            proof {
                assert(records_view(hist@) =~= old_h.push(rv).skip(1));
            }
        }
        proof {
            assert(records_view(hist@) =~= appended(old_h, rv));
        }
        let (near, fast, osc) = screen_history(&hist, now);
        let ids = history_ids(&hist);
        let ghost new_h = records_view(hist@);
        v.insert(k, (tenant_id, hist));
        proof {
            match found {
                Some(i) => {
                    assert(v@ =~= before.update(i as int, v@[i as int]));
                },
                None => {
                    assert(v@ =~= before.push(v@[k as int]));
                },
            }
            assert forall|a: int, b: int| 0 <= a < b < v@.len() implies v@[a].0 != v@[b].0 by {
                if found is Some {
                    if a != k && b != k {
                        assert(before[a].0 != before[b].0);
                    } else if a == k {
                        assert(!holds_slot(before, tenant_id, b) || b == k);
                        assert(before[a].0 == tenant_id);
                        assert(before[a].0 != before[b].0);
                    } else {
                        assert(before[b].0 == tenant_id);
                        assert(before[a].0 != before[b].0);
                    }
                } else {
                    if b == k {
                        assert(!holds_slot(before, tenant_id, a));
                    } else {
                        assert(before[a].0 != before[b].0);
                    }
                }
            }
            assert forall|i: int| 0 <= i < v@.len() implies (#[trigger] v@[i]).1@.len() <= 100 by {
                if i != k {
                    assert(v@[i] == before[i]);
                }
            }
            lemma_history_at(v@, tenant_id, k as int);
            assert forall|t: u128| t != tenant_id implies history_of(v@, t) == history_of(before, t) by {
                if has_slot(before, t) {
                    let j = choose|j: int| holds_slot(before, t, j);
                    assert(j != k);
                    assert(v@[j] == before[j]);
                    lemma_history_at(before, t, j);
                    lemma_history_at(v@, t, j);
                } else {
                    assert forall|j: int| !holds_slot(v@, t, j) by {
                        if 0 <= j < v@.len() && j != k {
                            assert(v@[j] == before[j]);
                            assert(!holds_slot(before, t, j));
                        }
                    }
                }
            }
        }
        self.tx_history = v;
        (near, fast, osc, ids)
    }

    /// Files a report.
    fn file_sar(&mut self, sar: SarRecord)
        ensures
            final(self).sars() == old(self).sars().push(sar),
            final(self).sar_count() == old(self).sar_count().wrapping_add(1),
            forall|t: u128| final(self).history(t) == old(self).history(t),
    {
        proof {
            use_type_invariant(&*self);
        }
        let mut log: Vec<SarRecord> = Vec::new();
        std::mem::swap(&mut log, &mut self.sar_log);
        log.push(sar);
        self.sar_log = log;
        self.sar_counter = self.sar_counter.wrapping_add(1);
    }

    /// Screens a transaction of a tenant at `now`, recording it under
    /// `tx_id`: the sanctions risk carried over at half, structuring (three or
    /// more kept transactions near the threshold), velocity (three, or five,
    /// within ten seconds), a round value, buy and sell oscillation, a large
    /// value and a high-risk jurisdiction each add points; the score is capped
    /// at 100. A score of 80 or more files a report under `sar_id`.
    pub fn check_transaction_at(
        &mut self,
        tenant_id: u128,
        side: &str,
        value: &TransactionValue,
        jurisdiction: &str,
        sanctions_risk_score: u8,
        now: i64,
        tx_id: u128,
        sar_id: u128,
    ) -> (r: AmlCheck)
        ensures
            final(self).history(tenant_id) == appended(old(self).history(tenant_id), (tx_id, side@, now, value.near_threshold)),
            forall|t: u128| t != tenant_id ==> final(self).history(t) == old(self).history(t),
            r.risk_score == aml_score(final(self).history(tenant_id), now, sanctions_risk_score, *value, jurisdiction@),
            r.risk_level@ == spec_grade_aml_risk(r.risk_score).1,
            r.passed == (r.risk_score < 60),
            r.sar_required == (r.risk_score >= 80),
            texts(r.flags@) == aml_flags(final(self).history(tenant_id), now, *value, jurisdiction@),
            r.checked_at == now,
            r.risk_score >= 80 ==> {
                &&& final(self).sars().len() == old(self).sars().len() + 1
                &&& final(self).sars().drop_last() == old(self).sars()
                &&& is_sar(final(self).sars().last(), sar_id, tenant_id, final(self).history(tenant_id), r.risk_score, texts(r.flags@), now)
                &&& final(self).sar_count() == old(self).sar_count().wrapping_add(1)
            },
            r.risk_score < 80 ==> final(self).sars() == old(self).sars() && final(self).sar_count() == old(self).sar_count(),
    {
        let record = TransactionRecord { id: tx_id, side: owned(side), timestamp: now, near_threshold: value.near_threshold };
        let (near, fast, osc, ids) = self.record_and_screen(tenant_id, record, now);
        let ghost h = self.history(tenant_id);
        let (_, j_risk) = classify_jurisdiction(jurisdiction);

        let score = screen_points(sanctions_risk_score, near, fast, value.round_number, osc, value.tier, j_risk);
        let (risk_score, risk_level, passed, sar_required) = grade_aml_risk(score);

        let flags = screen_flags(near, fast, osc, value, jurisdiction, j_risk);

        if sar_required {
            let mut narrative = owned("AUTO_SAR: Risk score ");
            push_decimal(&mut narrative, risk_score as u64);
            push_str(&mut narrative, " - ");
            let all = join_texts(&flags, "; ");
            push_str(&mut narrative, all.as_str());
            let sar = SarRecord {
                id: sar_id,
                tenant_id,
                transaction_ids: ids,
                risk_score,
                flags: copy_strings(&flags),
                narrative,
                filed_at: now,
                filed_to_regulator: false,
            };
            self.file_sar(sar);
        }
        AmlCheck { passed, risk_score, risk_level: owned(risk_level), flags, sar_required, checked_at: now }
    }

    /// Screens a transaction of a tenant now, under a fresh id; a report, if
    /// one is due, is filed under another fresh id.
    pub fn check_transaction(
        &mut self,
        tenant_id: u128,
        side: &str,
        value: &TransactionValue,
        jurisdiction: &str,
        sanctions_risk_score: u8,
    ) -> (r: AmlCheck)
        ensures
            final(self).history(tenant_id) == appended(old(self).history(tenant_id), final(self).history(tenant_id).last()),
            final(self).history(tenant_id).last().1 == side@,
            final(self).history(tenant_id).last().2 == r.checked_at,
            final(self).history(tenant_id).last().3 == value.near_threshold,
            forall|t: u128| t != tenant_id ==> final(self).history(t) == old(self).history(t),
            r.risk_score == aml_score(final(self).history(tenant_id), r.checked_at, sanctions_risk_score, *value, jurisdiction@),
            r.risk_level@ == spec_grade_aml_risk(r.risk_score).1,
            r.passed == (r.risk_score < 60),
            r.sar_required == (r.risk_score >= 80),
            texts(r.flags@) == aml_flags(final(self).history(tenant_id), r.checked_at, *value, jurisdiction@),
            r.risk_score >= 80 ==> {
                &&& final(self).sars().len() == old(self).sars().len() + 1
                &&& final(self).sars().drop_last() == old(self).sars()
                &&& is_sar(final(self).sars().last(), final(self).sars().last().id, tenant_id, final(self).history(tenant_id), r.risk_score, texts(r.flags@), r.checked_at)
                &&& final(self).sar_count() == old(self).sar_count().wrapping_add(1)
            },
            r.risk_score < 80 ==> final(self).sars() == old(self).sars() && final(self).sar_count() == old(self).sar_count(),
    {
        let now = utc_millis();
        let tx_id = new_uuid_u128();
        let sar_id = new_uuid_u128();
        let r = self.check_transaction_at(tenant_id, side, value, jurisdiction, sanctions_risk_score, now, tx_id, sar_id);
        proof {
            let old_h = old(self).history(tenant_id);
            let g = old_h.push((tx_id, side@, now, value.near_threshold));
            assert(appended(old_h, (tx_id, side@, now, value.near_threshold)).last() == (tx_id, side@, now, value.near_threshold));
        }
        r
    }

    /// The latest reports, newest first, at most `limit` of them.
    pub fn get_sar_log(&self, limit: usize) -> (r: Vec<SarRecord>)
        ensures
            r@.len() == if limit < self.sars().len() { limit as int } else { self.sars().len() as int },
            forall|i: int| 0 <= i < r@.len() ==> (#[trigger] r@[i]).same_as(&self.sars()[self.sars().len() - 1 - i]),
    {
        let n = self.sar_log.len();
        let mut out: Vec<SarRecord> = Vec::new();
        let mut i: usize = 0;
        while i < limit && i < n
            invariant
                n == self.sars().len(),
                i <= n,
                i <= limit,
                out@.len() == i,
                forall|k: int| 0 <= k < i ==> (#[trigger] out@[k]).same_as(&self.sars()[n - 1 - k]),
            decreases n - i,
        {
            out.push(self.sar_log[n - 1 - i].duplicate());
            i = i + 1;
        }
        out
    }

    /// The number of reports filed.
    pub fn total_sars(&self) -> (r: u64)
        ensures
            r == self.sar_count(),
    {
        self.sar_counter
    }
}

} // verus!
