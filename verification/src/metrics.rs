//! Engine counters: orders, trades, settlements, FIX messages, volume in
//! cents, errors, health, a latency histogram and the peak rate; read out as a
//! snapshot or as Prometheus exposition text, each read resetting what it
//! drains.

use vstd::prelude::*;
use vstd::wrapping::u64_specs::wrapping_add;
use std::time::Instant;
use crate::clock::{instant_now, secs_since};
use crate::text::{decimal, digit_char, push_char, push_decimal, push_str};

verus! {

pub const LATENCY_BUCKETS: usize = 10;

/// The upper bound, in microseconds, of latency bucket `i`.
pub open spec fn latency_threshold(i: int) -> u64 {
    if i == 0 { 1 }
    else if i == 1 { 5 }
    else if i == 2 { 10 }
    else if i == 3 { 25 }
    else if i == 4 { 50 }
    else if i == 5 { 100 }
    else if i == 6 { 250 }
    else if i == 7 { 500 }
    else if i == 8 { 1000 }
    else { 5000 }
}

fn latency_threshold_at(i: usize) -> (r: u64)
    requires
        i < LATENCY_BUCKETS,
    ensures
        r == latency_threshold(i as int),
{
    match i {
        0 => 1,
        1 => 5,
        2 => 10,
        3 => 25,
        4 => 50,
        5 => 100,
        6 => 250,
        7 => 500,
        8 => 1000,
        _ => 5000,
    }
}

/// The first bucket at or after `i` whose bound is at least `latency_us`;
/// `LATENCY_BUCKETS` when none is.
pub open spec fn bucket_from(latency_us: u64, i: int) -> int
    decreases 10 - i,
{
    if i >= 10 {
        10
    } else if latency_us <= latency_threshold(i) {
        i
    } else {
        bucket_from(latency_us, i + 1)
    }
}

/// The bucket a latency falls in: the first whose bound it does not exceed.
pub open spec fn latency_bucket(latency_us: u64) -> int {
    bucket_from(latency_us, 0)
}

/// Everything one snapshot reads out.
#[derive(Debug, Clone, Copy, PartialEq, Eq, Structural)]
pub struct MetricsSnapshot {
    pub tps_current: u64,
    pub tps_peak: u64,
    pub trades: u64,
    pub dot: u64,
    pub fix: u64,
    pub volume_cents: u64,
    pub errors: u64,
    pub health: bool,
    pub uptime_secs: u64,
}

/// A histogram with every bucket at zero.
fn zero_buckets() -> (r: Vec<u64>)
    ensures
        r@ == seq![0u64; 10],
{
    let mut buckets: Vec<u64> = Vec::new();
    let mut i: usize = 0;
    while i < LATENCY_BUCKETS
        invariant
            i <= LATENCY_BUCKETS,
            buckets@.len() == i,
            forall|j: int| 0 <= j < i ==> buckets@[j] == 0,
        decreases LATENCY_BUCKETS - i,
    {
        buckets.push(0);
        i = i + 1;
    }
    assert(buckets@ =~= seq![0u64; 10]);
    buckets
}

pub struct MetricsCollector {
    orders_processed: u64,
    trades_executed: u64,
    dot_settlements: u64,
    fix_messages: u64,
    total_volume: u64,
    errors: u64,
    health: bool,
    latency_buckets: Vec<u64>,
    peak_tps: u64,
    start_time: Instant,
}

/// A volume in cents written as a decimal amount: whole units, then a point
/// and the cents with trailing zeros dropped, when there are any.
pub open spec fn cents_text(c: nat) -> Seq<char> {
    let units = decimal(c / 100);
    let cents = c % 100;
    if cents == 0 {
        units
    } else if cents % 10 == 0 {
        units.push('.').push(digit_char(cents / 10))
    } else {
        units.push('.').push(digit_char(cents / 10)).push(digit_char(cents % 10))
    }
}

/// One counter or gauge block: its help and type lines, then its sample.
pub open spec fn metric_block(header: Seq<char>, name: Seq<char>, value: Seq<char>) -> Seq<char> {
    header + name + value + "\n"@
}

/// The histogram lines for buckets `0..n`.
pub open spec fn latency_lines(buckets: Seq<u64>, n: int) -> Seq<char>
    decreases n,
{
    if n <= 0 {
        Seq::empty()
    } else {
        latency_lines(buckets, n - 1) + "the_bridge_latency_bucket{le=\""@ + decimal(latency_threshold(n - 1) as nat)
            + "\"} "@ + decimal(buckets[n - 1] as nat) + "\n"@
    }
}

/// The whole exposition text for the drained values.
pub open spec fn prometheus_text_spec(
    orders: u64,
    trades: u64,
    dot: u64,
    fix: u64,
    volume_cents: u64,
    errors: u64,
    health: bool,
    uptime: u64,
    peak: u64,
    buckets: Seq<u64>,
) -> Seq<char> {
    metric_block("# HELP the_bridge_orders_total Total orders processed\n# TYPE the_bridge_orders_total counter\n"@, "the_bridge_orders_total "@, decimal(orders as nat))
    + metric_block("# HELP the_bridge_trades_total Total trades executed\n# TYPE the_bridge_trades_total counter\n"@, "the_bridge_trades_total "@, decimal(trades as nat))
    + metric_block("# HELP the_bridge_dot_settlements DOT settlements\n# TYPE the_bridge_dot_settlements counter\n"@, "the_bridge_dot_settlements "@, decimal(dot as nat))
    + metric_block("# HELP the_bridge_fix_messages FIX messages processed\n# TYPE the_bridge_fix_messages counter\n"@, "the_bridge_fix_messages "@, decimal(fix as nat))
    + metric_block("# HELP the_bridge_volume_24h Total volume 24h\n# TYPE the_bridge_volume_24h gauge\n"@, "the_bridge_volume_24h "@, cents_text(volume_cents as nat))
    + metric_block("# HELP the_bridge_errors_total Total errors\n# TYPE the_bridge_errors_total counter\n"@, "the_bridge_errors_total "@, decimal(errors as nat))
    + metric_block("# HELP the_bridge_health Engine health (1=ok, 0=halted)\n# TYPE the_bridge_health gauge\n"@, "the_bridge_health "@, decimal(if health { 1nat } else { 0nat }))
    + metric_block("# HELP the_bridge_uptime_seconds Uptime in seconds\n# TYPE the_bridge_uptime_seconds gauge\n"@, "the_bridge_uptime_seconds "@, decimal(uptime as nat))
    + metric_block("# HELP the_bridge_peak_tps Highest TPS recorded\n# TYPE the_bridge_peak_tps gauge\n"@, "the_bridge_peak_tps "@, decimal(peak as nat))
    + "# HELP the_bridge_latency Latency histogram buckets (\u{b5}s)\n# TYPE the_bridge_latency histogram\n"@
    + latency_lines(buckets, 10)
    + "the_bridge_latency_count "@ + decimal(orders as nat) + "\n"@
}

fn push_cents(s: &mut String, c: u64)
    ensures
        final(s)@ == old(s)@ + cents_text(c as nat),
{
    push_decimal(s, c / 100);
    let cents = c % 100;
    if cents != 0 {
        push_char(s, '.');
        let tens: u8 = (cents / 10) as u8;
        push_char(s, (tens + 48u8) as char);
        if cents % 10 != 0 {
            let ones: u8 = (cents % 10) as u8;
            push_char(s, (ones + 48u8) as char);
        }
    }
    assert(final(s)@ =~= old(s)@ + cents_text(c as nat));
}

fn push_block(s: &mut String, header: &str, name: &str, value: u64)
    ensures
        final(s)@ == old(s)@ + metric_block(header@, name@, decimal(value as nat)),
{
    let ghost start = s@;
    push_str(s, header);
    push_str(s, name);
    push_decimal(s, value);
    push_str(s, "\n");
    assert(s@ =~= start + metric_block(header@, name@, decimal(value as nat)));
}

impl MetricsCollector {
    pub closed spec fn spec_orders(&self) -> u64 { self.orders_processed }
    pub closed spec fn spec_trades(&self) -> u64 { self.trades_executed }
    pub closed spec fn spec_dot(&self) -> u64 { self.dot_settlements }
    pub closed spec fn spec_fix(&self) -> u64 { self.fix_messages }
    pub closed spec fn spec_volume_cents(&self) -> u64 { self.total_volume }
    pub closed spec fn spec_errors(&self) -> u64 { self.errors }
    pub closed spec fn spec_health(&self) -> bool { self.health }
    pub closed spec fn spec_peak(&self) -> u64 { self.peak_tps }
    pub closed spec fn spec_buckets(&self) -> Seq<u64> { self.latency_buckets@ }

    pub closed spec fn wf(&self) -> bool {
        self.latency_buckets@.len() == LATENCY_BUCKETS
    }

    #[verifier::type_invariant]
    closed spec fn inv(&self) -> bool {
        self.wf()
    }

    /// Whether `other` has the same counters as `self` but for those the
    /// caller names as changed.
    pub open spec fn same_except(&self, other: &Self, orders: bool, trades: bool, dot: bool, fix: bool, volume: bool, errors: bool, health: bool, buckets: bool, peak: bool) -> bool {
        &&& other.wf()
        &&& !orders ==> other.spec_orders() == self.spec_orders()
        &&& !trades ==> other.spec_trades() == self.spec_trades()
        &&& !dot ==> other.spec_dot() == self.spec_dot()
        &&& !fix ==> other.spec_fix() == self.spec_fix()
        &&& !volume ==> other.spec_volume_cents() == self.spec_volume_cents()
        &&& !errors ==> other.spec_errors() == self.spec_errors()
        &&& !health ==> other.spec_health() == self.spec_health()
        &&& !buckets ==> other.spec_buckets() == self.spec_buckets()
        &&& !peak ==> other.spec_peak() == self.spec_peak()
    }

    /// All counters at zero, healthy, the uptime clock started.
    pub fn new() -> (r: MetricsCollector)
        ensures
            r.wf(),
            r.spec_orders() == 0,
            r.spec_trades() == 0,
            r.spec_dot() == 0,
            r.spec_fix() == 0,
            r.spec_volume_cents() == 0,
            r.spec_errors() == 0,
            r.spec_health(),
            r.spec_peak() == 0,
            r.spec_buckets() == seq![0u64; 10],
    {
        let buckets = zero_buckets();
        MetricsCollector {
            orders_processed: 0,
            trades_executed: 0,
            dot_settlements: 0,
            fix_messages: 0,
            total_volume: 0,
            errors: 0,
            health: true,
            latency_buckets: buckets,
            peak_tps: 0,
            start_time: instant_now(),
        }
    }

    pub fn inc_orders(&mut self)
        ensures
            old(self).same_except(final(self), true, false, false, false, false, false, false, false, false),
            final(self).spec_orders() == wrapping_add(old(self).spec_orders(), 1),
    {
        proof {
            use_type_invariant(&*self);
        }
        self.orders_processed = self.orders_processed.wrapping_add(1);
    }

    pub fn inc_trades(&mut self)
        ensures
            old(self).same_except(final(self), false, true, false, false, false, false, false, false, false),
            final(self).spec_trades() == wrapping_add(old(self).spec_trades(), 1),
    {
        proof {
            use_type_invariant(&*self);
        }
        self.trades_executed = self.trades_executed.wrapping_add(1);
    }

    pub fn inc_trades_by(&mut self, n: u64)
        ensures
            old(self).same_except(final(self), false, true, false, false, false, false, false, false, false),
            final(self).spec_trades() == wrapping_add(old(self).spec_trades(), n),
    {
        proof {
            use_type_invariant(&*self);
        }
        self.trades_executed = self.trades_executed.wrapping_add(n);
    }

    pub fn inc_dot(&mut self)
        ensures
            old(self).same_except(final(self), false, false, true, false, false, false, false, false, false),
            final(self).spec_dot() == wrapping_add(old(self).spec_dot(), 1),
    {
        proof {
            use_type_invariant(&*self);
        }
        self.dot_settlements = self.dot_settlements.wrapping_add(1);
    }

    pub fn inc_fix(&mut self)
        ensures
            old(self).same_except(final(self), false, false, false, true, false, false, false, false, false),
            final(self).spec_fix() == wrapping_add(old(self).spec_fix(), 1),
    {
        proof {
            use_type_invariant(&*self);
        }
        self.fix_messages = self.fix_messages.wrapping_add(1);
    }

    /// Adds a traded volume already converted to whole cents.
    pub fn add_volume_cents(&mut self, cents: u64)
        ensures
            old(self).same_except(final(self), false, false, false, false, true, false, false, false, false),
            final(self).spec_volume_cents() == wrapping_add(old(self).spec_volume_cents(), cents),
    {
        proof {
            use_type_invariant(&*self);
        }
        self.total_volume = self.total_volume.wrapping_add(cents);
    }

    pub fn inc_errors(&mut self)
        ensures
            old(self).same_except(final(self), false, false, false, false, false, true, false, false, false),
            final(self).spec_errors() == wrapping_add(old(self).spec_errors(), 1),
    {
        proof {
            use_type_invariant(&*self);
        }
        self.errors = self.errors.wrapping_add(1);
    }

    pub fn set_health(&mut self, ok: bool)
        ensures
            old(self).same_except(final(self), false, false, false, false, false, false, true, false, false),
            final(self).spec_health() == ok,
    {
        proof {
            use_type_invariant(&*self);
        }
        self.health = ok;
    }

    /// Counts one latency sample in the first bucket whose bound it does not
    /// exceed; samples above the last bound are not counted.
    pub fn record_latency(&mut self, latency_us: u64)
        ensures
            old(self).same_except(final(self), false, false, false, false, false, false, false, true, false),
            latency_bucket(latency_us) < 10 ==> final(self).spec_buckets() == old(self).spec_buckets().update(
                latency_bucket(latency_us),
                wrapping_add(old(self).spec_buckets()[latency_bucket(latency_us)], 1),
            ),
            latency_bucket(latency_us) >= 10 ==> final(self).spec_buckets() == old(self).spec_buckets(),
    {
        proof {
            use_type_invariant(&*self);
        }
        let mut idx: usize = 0;
        while idx < LATENCY_BUCKETS && latency_us > latency_threshold_at(idx)
            invariant
                idx <= LATENCY_BUCKETS,
                bucket_from(latency_us, idx as int) == latency_bucket(latency_us),
            decreases LATENCY_BUCKETS - idx,
        {
            idx = idx + 1;
        }
        if idx < LATENCY_BUCKETS {
            let v = self.latency_buckets[idx];
            let mut buckets = self.latency_buckets.clone();
            buckets.set(idx, v.wrapping_add(1));
            self.latency_buckets = buckets;
        }
    }

    /// Drains the per-interval counters into a snapshot: orders become the
    /// current rate and raise the peak, the counters return to zero; health
    /// and the histogram are left as they are.
    pub fn snapshot(&mut self) -> (r: MetricsSnapshot)
        ensures
            exists|uptime: u64| #[trigger] old(self).spec_snapshot(uptime) == r,
            old(self).drained_for_snapshot(final(self)),
    {
        proof {
            use_type_invariant(&*self);
        }
        let uptime = secs_since(&self.start_time);
        self.snapshot_at(uptime)
    }

    /// What a snapshot taken `uptime` seconds after start reads out.
    pub open spec fn spec_snapshot(&self, uptime: u64) -> MetricsSnapshot {
        let peak = if self.spec_orders() > self.spec_peak() { self.spec_orders() } else { self.spec_peak() };
        MetricsSnapshot {
            tps_current: self.spec_orders(),
            tps_peak: peak,
            trades: self.spec_trades(),
            dot: self.spec_dot(),
            fix: self.spec_fix(),
            volume_cents: self.spec_volume_cents(),
            errors: self.spec_errors(),
            health: self.spec_health(),
            uptime_secs: uptime,
        }
    }

    /// The collector after a snapshot: drained counters at zero, the peak
    /// raised to the drained order count.
    pub open spec fn drained_for_snapshot(&self, after: &Self) -> bool {
        &&& self.same_except(after, true, true, true, true, true, true, false, false, true)
        &&& after.spec_orders() == 0
        &&& after.spec_trades() == 0
        &&& after.spec_dot() == 0
        &&& after.spec_fix() == 0
        &&& after.spec_volume_cents() == 0
        &&& after.spec_errors() == 0
        &&& after.spec_peak() == (if self.spec_orders() > self.spec_peak() { self.spec_orders() } else { self.spec_peak() })
    }

    /// A snapshot with the uptime given.
    pub fn snapshot_at(&mut self, uptime_secs: u64) -> (r: MetricsSnapshot)
        ensures
            r == old(self).spec_snapshot(uptime_secs),
            old(self).drained_for_snapshot(final(self)),
    {
        proof {
            use_type_invariant(&*self);
        }
        let tps = self.orders_processed;
        self.orders_processed = 0;
        if tps > self.peak_tps {
            self.peak_tps = tps;
        }
        let trades = self.trades_executed;
        self.trades_executed = 0;
        let dot = self.dot_settlements;
        self.dot_settlements = 0;
        let fix = self.fix_messages;
        self.fix_messages = 0;
        let volume = self.total_volume;
        self.total_volume = 0;
        let errors = self.errors;
        self.errors = 0;
        MetricsSnapshot {
            tps_current: tps,
            tps_peak: self.peak_tps,
            trades,
            dot,
            fix,
            volume_cents: volume,
            errors,
            health: self.health,
            uptime_secs,
        }
    }

    /// Drains the order counter and returns what it held.
    pub fn prometheus_cumulative(&mut self) -> (r: u64)
        ensures
            r == old(self).spec_orders(),
            old(self).same_except(final(self), true, false, false, false, false, false, false, false, false),
            final(self).spec_orders() == 0,
    {
        proof {
            use_type_invariant(&*self);
        }
        let v = self.orders_processed;
        self.orders_processed = 0;
        v
    }

    /// The Prometheus exposition text; every counter it prints and every
    /// histogram bucket is drained to zero, the peak and health are kept.
    pub fn prometheus_text(&mut self) -> (r: String)
        ensures
            exists|uptime: u64| r@ == #[trigger] old(self).spec_prometheus_text(uptime),
            old(self).drained_for_text(final(self)),
    {
        proof {
            use_type_invariant(&*self);
        }
        let uptime = secs_since(&self.start_time);
        self.prometheus_text_at(uptime)
    }

    pub open spec fn spec_prometheus_text(&self, uptime: u64) -> Seq<char> {
        prometheus_text_spec(
            self.spec_orders(),
            self.spec_trades(),
            self.spec_dot(),
            self.spec_fix(),
            self.spec_volume_cents(),
            self.spec_errors(),
            self.spec_health(),
            uptime,
            self.spec_peak(),
            self.spec_buckets(),
        )
    }

    /// The collector after the text was written: printed counters and all
    /// buckets at zero.
    pub open spec fn drained_for_text(&self, after: &Self) -> bool {
        &&& self.same_except(after, true, true, true, true, true, true, false, true, false)
        &&& after.spec_orders() == 0
        &&& after.spec_trades() == 0
        &&& after.spec_dot() == 0
        &&& after.spec_fix() == 0
        &&& after.spec_volume_cents() == 0
        &&& after.spec_errors() == 0
        &&& after.spec_buckets() == seq![0u64; 10]
    }

    /// The exposition text with the uptime given.
    pub fn prometheus_text_at(&mut self, uptime_secs: u64) -> (r: String)
        ensures
            r@ == old(self).spec_prometheus_text(uptime_secs),
            old(self).drained_for_text(final(self)),
    {
        proof {
            use_type_invariant(&*self);
        }
        let ghost before = *self;
        let orders = self.orders_processed;
        self.orders_processed = 0;
        let trades = self.trades_executed;
        self.trades_executed = 0;
        let dot = self.dot_settlements;
        self.dot_settlements = 0;
        let fix = self.fix_messages;
        self.fix_messages = 0;
        let volume = self.total_volume;
        self.total_volume = 0;
        let errors = self.errors;
        self.errors = 0;
        let health: u64 = if self.health { 1 } else { 0 };
        let mut out = String::new();
        push_block(&mut out, "# HELP the_bridge_orders_total Total orders processed\n# TYPE the_bridge_orders_total counter\n", "the_bridge_orders_total ", orders);
        push_block(&mut out, "# HELP the_bridge_trades_total Total trades executed\n# TYPE the_bridge_trades_total counter\n", "the_bridge_trades_total ", trades);
        push_block(&mut out, "# HELP the_bridge_dot_settlements DOT settlements\n# TYPE the_bridge_dot_settlements counter\n", "the_bridge_dot_settlements ", dot);
        push_block(&mut out, "# HELP the_bridge_fix_messages FIX messages processed\n# TYPE the_bridge_fix_messages counter\n", "the_bridge_fix_messages ", fix);
        let ghost p4 = out@;
        push_str(&mut out, "# HELP the_bridge_volume_24h Total volume 24h\n# TYPE the_bridge_volume_24h gauge\n");
        push_str(&mut out, "the_bridge_volume_24h ");
        push_cents(&mut out, volume);
        push_str(&mut out, "\n");
        assert(out@ =~= p4 + metric_block("# HELP the_bridge_volume_24h Total volume 24h\n# TYPE the_bridge_volume_24h gauge\n"@, "the_bridge_volume_24h "@, cents_text(volume as nat)));
        push_block(&mut out, "# HELP the_bridge_errors_total Total errors\n# TYPE the_bridge_errors_total counter\n", "the_bridge_errors_total ", errors);
        push_block(&mut out, "# HELP the_bridge_health Engine health (1=ok, 0=halted)\n# TYPE the_bridge_health gauge\n", "the_bridge_health ", health);
        push_block(&mut out, "# HELP the_bridge_uptime_seconds Uptime in seconds\n# TYPE the_bridge_uptime_seconds gauge\n", "the_bridge_uptime_seconds ", uptime_secs);
        push_block(&mut out, "# HELP the_bridge_peak_tps Highest TPS recorded\n# TYPE the_bridge_peak_tps gauge\n", "the_bridge_peak_tps ", self.peak_tps);
        push_str(&mut out, "# HELP the_bridge_latency Latency histogram buckets (\u{b5}s)\n# TYPE the_bridge_latency histogram\n");
        let ghost head = out@;
        let mut i: usize = 0;
        while i < LATENCY_BUCKETS
            invariant
                i <= LATENCY_BUCKETS,
                self.latency_buckets@ == before.latency_buckets@,
                before.latency_buckets@.len() == LATENCY_BUCKETS,
                out@ == head + latency_lines(before.latency_buckets@, i as int),
                self.orders_processed == 0,
                self.trades_executed == 0,
                self.dot_settlements == 0,
                self.fix_messages == 0,
                self.total_volume == 0,
                self.errors == 0,
                self.health == before.health,
                self.peak_tps == before.peak_tps,
            decreases LATENCY_BUCKETS - i,
        {
            let count = self.latency_buckets[i];
            let ghost line_start = out@;
            push_str(&mut out, "the_bridge_latency_bucket{le=\"");
            push_decimal(&mut out, latency_threshold_at(i));
            push_str(&mut out, "\"} ");
            push_decimal(&mut out, count);
            push_str(&mut out, "\n");
            assert(out@ =~= head + latency_lines(before.latency_buckets@, i + 1));
            i = i + 1;
        }
        push_str(&mut out, "the_bridge_latency_count ");
        push_decimal(&mut out, orders);
        push_str(&mut out, "\n");
        self.latency_buckets = zero_buckets();
        assert(out@ =~= before.spec_prometheus_text(uptime_secs));
        out
    }
}

} // verus!
