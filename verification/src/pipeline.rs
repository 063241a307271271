//! The trade pipeline: a fixed-capacity sequence ring that one producer fills
//! and workers drain in claimed batches, the batch-flush policy, and the
//! in-order commit sequencer.

use vstd::prelude::*;
use vstd::arithmetic::power2::*;
use vstd::utf8::*;
use vstd::string::*;
use vstd::slice::*;
use std::time::Instant;
use crate::clock::{instant_now, micros_since};

verus! {

pub const BATCH_MAX: usize = 10_000;

pub const BATCH_TIME_US: u64 = 100_000;

pub const BURST_WINDOW: u64 = 50_000;

/// One executed trade as it travels through the pipeline, in fixed-point
/// integers so that it can be copied into a ring slot.
#[derive(Clone, Copy, Debug)]
pub struct TradePayload {
    pub trade_id: u64,
    pub buy_order_id: u64,
    pub sell_order_id: u64,
    pub pair: [u8; 14],
    pub pair_len: u8,
    pub price: u64,
    pub quantity: u64,
    pub total: u64,
    pub buy_user_id: u64,
    pub sell_user_id: u64,
    pub timestamp_ns: i64,
    pub seq: u64,
    pub track: u8,
}

/// `std::str::from_utf8`: the text the bytes encode, or nothing when they are
/// not UTF-8.
#[verifier::external_body]
fn str_from_utf8(bytes: &[u8]) -> (r: Option<&str>)
    ensures
        r is Some <==> valid_utf8(bytes@),
        r matches Some(s) ==> s.spec_bytes() == bytes@,
{
    core::str::from_utf8(bytes).ok()
}

impl TradePayload {
    /// The trading pair named by the first `pair_len` bytes, or `"UNKNOWN"`
    /// when those bytes are not UTF-8.
    pub fn pair_str(&self) -> (r: &str)
        requires
            self.pair_len <= 14,
        ensures
            valid_utf8(self.pair@.take(self.pair_len as int)) ==> r.spec_bytes() == self.pair@.take(self.pair_len as int),
            !valid_utf8(self.pair@.take(self.pair_len as int)) ==> r@ == "UNKNOWN"@,
    {
        let all: &[u8] = self.pair.as_slice();
        let valid = slice_subrange(all, 0, self.pair_len as usize);
        assert(valid@ == self.pair@.take(self.pair_len as int));
        match str_from_utf8(valid) {
            Some(s) => s,
            None => "UNKNOWN",
        }
    }
}

/// Whether `n` is a power of two.
pub open spec fn is_power_of_two(n: int) -> bool {
    exists|k: nat| pow2(k) == n
}

/// The smallest power of two that is at least `n` (1 for 0), as
/// `usize::next_power_of_two` computes it.
pub fn next_power_of_two(n: usize) -> (r: usize)
    requires
        n <= usize::MAX / 2 + 1,
    ensures
        is_power_of_two(r as int),
        r >= n,
        r >= 1,
        r == 1 || r / 2 < n,
{
    let mut p: usize = 1;
    let ghost mut k: nat = 0;
    proof {
        reveal(vstd::arithmetic::power::pow);
        assert(pow2(0) == 1);
    }
    while p < n
        invariant
            p == pow2(k),
            p >= 1,
            p == 1 || p / 2 < n,
            n <= usize::MAX / 2 + 1,
        decreases usize::MAX - p,
    {
        proof {
            lemma_pow2_unfold(k + 1);
        }
        p = p * 2;
        proof {
            k = k + 1;
        }
    }
    p
}

/// The ring slot that sequence number `seq` lands in.
pub open spec fn slot_of(seq: u64, mask: usize) -> usize {
    (seq as usize) & mask
}

/// What a single-threaded caller does to the ring's counters: a push, or a
/// batch claim of at most the given size.
#[derive(Debug, Clone, Copy)]
pub enum RingEvent {
    Push,
    Claim(usize),
}

/// The producer's and the consumers' next sequences after one event.
pub open spec fn ring_step(s: (u64, u64), e: RingEvent) -> (u64, u64) {
    match e {
        RingEvent::Push => ((s.0 + 1) as u64, s.1),
        RingEvent::Claim(max) => if s.1 >= s.0 {
            s
        } else {
            let avail = (s.0 - s.1) as usize;
            let n = if avail < max { avail } else { max };
            (s.0, (s.1 + n) as u64)
        },
    }
}

/// The counters after a run of events.
pub open spec fn ring_after(s: (u64, u64), events: Seq<RingEvent>) -> (u64, u64)
    decreases events.len(),
{
    if events.len() == 0 {
        s
    } else {
        ring_step(ring_after(s, events.drop_last()), events.last())
    }
}

/// How many events of a run are pushes.
pub open spec fn push_count(events: Seq<RingEvent>) -> nat
    decreases events.len(),
{
    if events.len() == 0 {
        0
    } else {
        push_count(events.drop_last()) + if events.last() is Push { 1nat } else { 0nat }
    }
}

/// How many sequences the claims of a run take, starting from `s`.
pub open spec fn claimed_count(s: (u64, u64), events: Seq<RingEvent>) -> int
    decreases events.len(),
{
    if events.len() == 0 {
        0
    } else {
        let before = ring_after(s, events.drop_last());
        claimed_count(s, events.drop_last()) + (ring_step(before, events.last()).1 - before.1)
    }
}

/// Over any run of pushes and claims (without the producer's counter
/// overflowing), the consumers never pass the producer, the producer moves on
/// by the number of pushes, and what is pending is what was pending plus the
/// pushes less the sequences claimed.
pub proof fn lemma_ring_counts(s: (u64, u64), events: Seq<RingEvent>)
    requires
        s.1 <= s.0,
        s.0 + push_count(events) <= u64::MAX,
    ensures
        ring_after(s, events).1 <= ring_after(s, events).0,
        ring_after(s, events).0 == s.0 + push_count(events),
        ring_after(s, events).0 - ring_after(s, events).1 == (s.0 - s.1) + push_count(events) - claimed_count(s, events),
        claimed_count(s, events) >= 0,
    decreases events.len(),
{
    if events.len() > 0 {
        let init = events.drop_last();
        lemma_ring_counts(s, init);
        let b = ring_after(s, init);
        match events.last() {
            RingEvent::Push => {},
            RingEvent::Claim(max) => {
                if b.1 < b.0 {
                    let x: u64 = (b.0 - b.1) as u64;
                    assert((x as usize) as int <= x as int) by (bit_vector);
                }
            },
        }
    }
}

/// What a claim of at most `max` returns from the counters `s`: nothing when
/// none wait, otherwise the first sequence waiting and how many are taken.
pub open spec fn claim_result(s: (u64, u64), max: usize) -> Option<(u64, usize)> {
    if s.1 >= s.0 {
        None
    } else {
        let avail = (s.0 - s.1) as usize;
        Some((s.1, if avail < max { avail } else { max }))
    }
}

/// The ranges handed out by the claims of a run, in order.
pub open spec fn claims_of(s: (u64, u64), events: Seq<RingEvent>) -> Seq<(u64, usize)>
    decreases events.len(),
{
    if events.len() == 0 {
        Seq::empty()
    } else {
        let before = ring_after(s, events.drop_last());
        let prev = claims_of(s, events.drop_last());
        match events.last() {
            RingEvent::Claim(max) => match claim_result(before, max) {
                Some(c) => prev.push(c),
                None => prev,
            },
            RingEvent::Push => prev,
        }
    }
}

/// How many sequences the first `k` ranges hold.
pub open spec fn ranges_total(claims: Seq<(u64, usize)>, k: int) -> int
    decreases k,
{
    if k <= 0 { 0 } else { ranges_total(claims, k - 1) + claims[k - 1].1 }
}

/// Successive claims hand out back-to-back ranges: each starts where the one
/// before ended (the first at the consumers' cursor), none reaches past what
/// the producer has published, and together they are exactly the sequences
/// the consumers' cursor has moved over; so no sequence is claimed twice or
/// before it was published.
pub proof fn lemma_claims_back_to_back(s: (u64, u64), events: Seq<RingEvent>)
    requires
        s.1 <= s.0,
        s.0 + push_count(events) <= u64::MAX,
    ensures
        forall|k: int| 0 <= k < claims_of(s, events).len() ==>
            (#[trigger] claims_of(s, events)[k]).0 == s.1 + ranges_total(claims_of(s, events), k),
        forall|k: int| 0 <= k < claims_of(s, events).len() ==>
            (#[trigger] claims_of(s, events)[k]).0 + claims_of(s, events)[k].1 <= ring_after(s, events).0,
        ring_after(s, events).1 == s.1 + ranges_total(claims_of(s, events), claims_of(s, events).len() as int),
    decreases events.len(),
{
    if events.len() > 0 {
        let init = events.drop_last();
        lemma_claims_back_to_back(s, init);
        lemma_ring_counts(s, init);
        let b = ring_after(s, init);
        let prev = claims_of(s, init);
        let cur = claims_of(s, events);
        match events.last() {
            RingEvent::Push => {
                assert(cur == prev);
            },
            RingEvent::Claim(max) => {
                match claim_result(b, max) {
                    Some(c) => {
                        assert(cur == prev.push(c));
                        let x: u64 = (b.0 - b.1) as u64;
                        assert((x as usize) as int <= x as int) by (bit_vector);
                        assert(ranges_total(cur, prev.len() as int) == ranges_total(prev, prev.len() as int)) by {
                            lemma_ranges_total_prefix(prev, c, prev.len() as int);
                        }
                        assert forall|k: int| 0 <= k < cur.len() implies
                            (#[trigger] cur[k]).0 == s.1 + ranges_total(cur, k) by {
                            if k < prev.len() {
                                lemma_ranges_total_prefix(prev, c, k);
                            }
                        }
                    },
                    None => {
                        assert(cur == prev);
                    },
                }
            },
        }
    }
}

/// Pushing a range does not change the totals of the ranges before it.
proof fn lemma_ranges_total_prefix(prev: Seq<(u64, usize)>, c: (u64, usize), k: int)
    requires
        0 <= k <= prev.len(),
    ensures
        ranges_total(prev.push(c), k) == ranges_total(prev, k),
    decreases k,
{
    if k > 0 {
        lemma_ranges_total_prefix(prev, c, k - 1);
        assert(prev.push(c)[k - 1] == prev[k - 1]);
    }
}

/// Writes `payload` as sequence `seq` into slot `idx` and moves the producer
/// past it, in one step.
fn write_slot(
    slots: &mut Vec<TradePayload>,
    slot_seq: &mut Vec<u64>,
    producer_seq: &mut u64,
    pushed: &mut Ghost<Seq<TradePayload>>,
    idx: usize,
    seq: u64,
    payload: &TradePayload,
)
    requires
        idx < old(slots)@.len(),
        idx < old(slot_seq)@.len(),
        seq < u64::MAX,
    ensures
        final(slots)@ == old(slots)@.update(idx as int, *payload),
        final(slot_seq)@ == old(slot_seq)@.update(idx as int, seq),
        *final(producer_seq) == seq + 1,
        final(pushed)@ == old(pushed)@.push(*payload),
    no_unwind
{
    slots[idx] = *payload;
    slot_seq[idx] = seq;
    *producer_seq = seq + 1;
    proof {
        pushed@ = pushed@.push(*payload);
    }
}

/// A single-producer, multi-consumer sequence ring. Sequence numbers start at
/// 1; slot `seq & mask` holds the payload of the latest sequence written to it.
pub struct Disruptor {
    slots: Vec<TradePayload>,
    slot_seq: Vec<u64>,
    capacity: usize,
    mask: usize,
    producer_seq: u64,
    consumer_gate: u64,
    commit_cursor: u64,
    /// Every payload pushed so far; sequence `s` is entry `s - 1`.
    pushed: Ghost<Seq<TradePayload>>,
}

impl Disruptor {
    pub closed spec fn spec_capacity(&self) -> usize {
        self.capacity
    }

    pub closed spec fn spec_mask(&self) -> usize {
        self.mask
    }

    pub closed spec fn spec_producer(&self) -> u64 {
        self.producer_seq
    }

    pub closed spec fn spec_consumer(&self) -> u64 {
        self.consumer_gate
    }

    pub closed spec fn spec_commit(&self) -> u64 {
        self.commit_cursor
    }

    /// The payloads pushed so far, in sequence order.
    pub closed spec fn spec_pushed(&self) -> Seq<TradePayload> {
        self.pushed@
    }

    /// The latest sequence written into slot `i` (0 when none was).
    pub closed spec fn spec_slot_seq(&self, i: int) -> u64 {
        self.slot_seq@[i]
    }

    /// The ring's shape, the cursors' order, and what each slot holds: the
    /// payload of the latest sequence that lands in it.
    #[verifier::type_invariant]
    closed spec fn wf(&self) -> bool {
        &&& self.slots@.len() == self.capacity
        &&& self.slot_seq@.len() == self.capacity
        &&& self.capacity >= 1
        &&& is_power_of_two(self.capacity as int)
        &&& self.mask == self.capacity - 1
        &&& 1 <= self.consumer_gate <= self.producer_seq
        &&& self.pushed@.len() == self.producer_seq - 1
        &&& forall|i: int|
            0 <= i < self.capacity ==> {
                let s = #[trigger] self.slot_seq@[i];
                &&& s < self.producer_seq
                &&& s == 0 ==> forall|t: u64| 1 <= t < self.producer_seq ==> slot_of(t, self.mask) != i
                &&& s != 0 ==> {
                    &&& slot_of(s, self.mask) == i
                    &&& self.slots@[i] == self.pushed@[s - 1]
                    &&& forall|t: u64| s < t < self.producer_seq ==> slot_of(t, self.mask) != i
                }
            }
    }

    /// A ring of at least `capacity` slots, rounded up to a power of two.
    pub fn new(capacity: usize) -> (r: Disruptor)
        requires
            capacity <= usize::MAX / 2 + 1,
            capacity < u64::MAX,
        ensures
            is_power_of_two(r.spec_capacity() as int),
            r.spec_capacity() >= capacity,
            r.spec_capacity() == 1 || r.spec_capacity() / 2 < capacity,
            r.spec_producer() == 1,
            r.spec_consumer() == 1,
            r.spec_commit() == 0,
            r.spec_pushed() == Seq::<TradePayload>::empty(),
    {
        let cap = next_power_of_two(capacity);
        let mut slots: Vec<TradePayload> = Vec::new();
        let mut slot_seq: Vec<u64> = Vec::new();
        let mut i: usize = 0;
        while i < cap
            invariant
                i <= cap,
                slots@.len() == i,
                slot_seq@.len() == i,
                forall|j: int| 0 <= j < i ==> slot_seq@[j] == 0,
            decreases cap - i,
        {
            slots.push(TradePayload {
                trade_id: 0,
                buy_order_id: 0,
                sell_order_id: 0,
                pair: [0u8; 14],
                pair_len: 0,
                price: 0,
                quantity: 0,
                total: 0,
                buy_user_id: 0,
                sell_user_id: 0,
                timestamp_ns: 0,
                seq: 0,
                track: 0,
            });
            slot_seq.push(0);
            i = i + 1;
        }
        Disruptor {
            slots,
            slot_seq,
            capacity: cap,
            mask: cap - 1,
            producer_seq: 1,
            consumer_gate: 1,
            commit_cursor: 0,
            pushed: Ghost(Seq::empty()),
        }
    }

    /// Single-producer push: the payload takes the next sequence number and
    /// overwrites the slot that number lands in.
    pub fn push_sp(&mut self, payload: &TradePayload) -> (r: Result<(), ()>)
        requires
            old(self).spec_producer() < u64::MAX,
        ensures
            r is Ok,
            final(self).spec_producer() == old(self).spec_producer() + 1,
            final(self).spec_consumer() == old(self).spec_consumer(),
            final(self).spec_commit() == old(self).spec_commit(),
            final(self).spec_capacity() == old(self).spec_capacity(),
            final(self).spec_mask() == old(self).spec_mask(),
            final(self).spec_pushed() == old(self).spec_pushed().push(*payload),
            final(self).ring_state() == ring_step(old(self).ring_state(), RingEvent::Push),
    {
        proof {
            use_type_invariant(&*self);
        }
        let seq = self.producer_seq;
        let m = self.mask;
        let idx = (seq as usize) & m;
        assert(idx <= m) by (bit_vector)
            requires
                idx == (seq as usize) & m,
        ;
        let ghost before = *self;
        let ghost pushed_after = self.pushed@.push(*payload);
        proof {
            assert forall|i: int| 0 <= i < before.capacity implies {
                let s = #[trigger] before.slot_seq@.update(idx as int, seq)[i];
                &&& s < seq + 1
                &&& s == 0 ==> forall|t: u64| 1 <= t < seq + 1 ==> slot_of(t, before.mask) != i
                &&& s != 0 ==> {
                    &&& slot_of(s, before.mask) == i
                    &&& before.slots@.update(idx as int, *payload)[i] == pushed_after[s - 1]
                    &&& forall|t: u64| s < t < seq + 1 ==> slot_of(t, before.mask) != i
                }
            } by {
                if i != idx {
                    let s = before.slot_seq@[i];
                    if s != 0 {
                        assert(pushed_after[s - 1] == before.pushed@[s - 1]);
                    }
                }
            }
        }
        write_slot(&mut self.slots, &mut self.slot_seq, &mut self.producer_seq, &mut self.pushed, idx, seq, payload);
        Ok(())
    }

    /// Multi-consumer batch claim: takes up to `max_size` of the sequences
    /// published but not yet claimed, from the front; nothing when none wait.
    pub fn claim_batch(&mut self, max_size: usize) -> (r: Option<(u64, usize)>)
        ensures
            final(self).spec_producer() == old(self).spec_producer(),
            final(self).spec_commit() == old(self).spec_commit(),
            final(self).spec_capacity() == old(self).spec_capacity(),
            final(self).spec_mask() == old(self).spec_mask(),
            final(self).spec_pushed() == old(self).spec_pushed(),
            old(self).spec_consumer() >= old(self).spec_producer() ==> r is None && final(self).spec_consumer() == old(self).spec_consumer(),
            old(self).spec_consumer() < old(self).spec_producer() ==> {
                let avail = (old(self).spec_producer() - old(self).spec_consumer()) as usize;
                let n = if avail < max_size { avail } else { max_size };
                &&& r == Some((old(self).spec_consumer(), n))
                &&& final(self).spec_consumer() == old(self).spec_consumer() + n
            },
            final(self).ring_state() == ring_step(old(self).ring_state(), RingEvent::Claim(max_size)),
            r == claim_result(old(self).ring_state(), max_size),
    {
        proof {
            use_type_invariant(&*self);
        }
        let producer = self.producer_seq;
        let start = self.consumer_gate;
        if start >= producer {
            return None;
        }
        let available = (producer - start) as usize;
        let batch_size = if available < max_size { available } else { max_size };
        assert(batch_size as u64 <= producer - start) by (bit_vector)
            requires
                available == (producer - start) as usize,
                batch_size <= available,
                start < producer,
        ;
        let new_gate = start + batch_size as u64;
        self.consumer_gate = new_gate;
        Some((start, batch_size))
    }

    /// The payload in the slot of a published sequence `seq`. That slot
    /// holds `seq` or a later sequence (so a reader never waits); when no
    /// later sequence has been written to the same slot, the payload is the
    /// one pushed as `seq`.
    pub fn read_at(&self, seq: u64) -> (r: TradePayload)
        requires
            1 <= seq < self.spec_producer(),
        ensures
            self.spec_slot_seq(slot_of(seq, self.spec_mask()) as int) >= seq,
            r == self.spec_pushed()[self.spec_slot_seq(slot_of(seq, self.spec_mask()) as int) - 1],
            (forall|t: u64| seq < t < self.spec_producer() ==> slot_of(t, self.spec_mask()) != slot_of(seq, self.spec_mask()))
                ==> r == self.spec_pushed()[seq - 1],
    {
        proof {
            use_type_invariant(self);
        }
        let m = self.mask;
        let idx = (seq as usize) & m;
        assert(idx <= m) by (bit_vector)
            requires
                idx == (seq as usize) & m,
        ;
        proof {
            let s = self.slot_seq@[idx as int];
            assert(slot_of(seq, self.mask) == idx);
            if s == 0 {
                assert(slot_of(seq, self.mask) != idx as int);
            } else if s < seq {
                assert(slot_of(seq, self.mask) != idx as int);
            }
        }
        self.slots[idx]
    }

    pub fn commit_cursor(&self) -> (r: u64)
        ensures
            r == self.spec_commit(),
    {
        self.commit_cursor
    }

    pub fn set_commit_cursor(&mut self, seq: u64)
        ensures
            final(self).spec_commit() == seq,
            final(self).spec_producer() == old(self).spec_producer(),
            final(self).spec_consumer() == old(self).spec_consumer(),
            final(self).spec_capacity() == old(self).spec_capacity(),
            final(self).spec_mask() == old(self).spec_mask(),
            final(self).spec_pushed() == old(self).spec_pushed(),
    {
        proof {
            use_type_invariant(&*self);
        }
        self.commit_cursor = seq;
    }

    pub fn producer_seq_val(&self) -> (r: u64)
        ensures
            r == self.spec_producer(),
    {
        self.producer_seq
    }

    /// The next sequence to be claimed; never past the next one to be
    /// published.
    pub fn consumed(&self) -> (r: u64)
        ensures
            r == self.spec_consumer(),
            r <= self.spec_producer(),
    {
        proof {
            use_type_invariant(self);
        }
        self.consumer_gate
    }

    /// Sequences published but not yet claimed: the producer's next
    /// sequence less the consumers' (which never passes it).
    pub fn pending(&self) -> (r: usize)
        ensures
            self.spec_consumer() <= self.spec_producer(),
            r == (self.spec_producer() - self.spec_consumer()) as usize,
    {
        proof {
            use_type_invariant(self);
        }
        self.producer_seq.saturating_sub(self.consumer_gate) as usize
    }

    /// The producer's and the consumers' next sequences.
    pub open spec fn ring_state(&self) -> (u64, u64) {
        (self.spec_producer(), self.spec_consumer())
    }
}

/// Decides when a worker flushes: in a burst (at least `burst_window`
/// pending) only a full batch flushes; otherwise a flush is due once
/// `batch_time_us` microseconds have passed since the last one, and such a
/// flush restarts the timer. Times are microseconds on the batcher's own
/// monotonic clock, counted from when it was made.
pub struct AdaptiveBatcher {
    clock_origin: Instant,
    last_flush_us: u64,
    batch_time_us: u64,
    batch_max: usize,
    burst_window: u64,
    in_burst: bool,
}

/// The flush decision for `pending` sequences, given the microseconds since
/// the last flush: `(flush, in_burst, restart_timer)`.
pub open spec fn flush_decision(
    pending: usize,
    elapsed_us: u64,
    batch_time_us: u64,
    batch_max: usize,
    burst_window: u64,
) -> (bool, bool, bool) {
    let burst = pending >= burst_window as usize;
    if burst {
        (pending >= batch_max, true, false)
    } else if elapsed_us >= batch_time_us {
        (true, false, true)
    } else {
        (false, false, false)
    }
}

/// When the last flush was after a decision taken `elapsed_us` after the
/// previous one: the time of the decision when it restarted the timer
/// (held at the largest time the clock can show), the previous time
/// otherwise.
pub open spec fn next_last_flush(last_flush_us: u64, elapsed_us: u64, restart_timer: bool) -> u64 {
    if !restart_timer {
        last_flush_us
    } else if last_flush_us + elapsed_us <= u64::MAX {
        (last_flush_us + elapsed_us) as u64
    } else {
        u64::MAX
    }
}

/// The microseconds from `last` to `now` on the batcher's clock (none when
/// `now` is not later).
pub open spec fn elapsed_between(last: u64, now: u64) -> u64 {
    if now >= last { (now - last) as u64 } else { 0 }
}

/// Every case of the decision: a burst is at least `burst_window` pending;
/// in a burst a batch flushes exactly when it holds at least `batch_max`,
/// and the timer is left alone; outside a burst a batch flushes exactly when
/// `batch_time_us` have passed, and then the timer restarts.
pub proof fn lemma_flush_decision_cases(pending: usize, elapsed_us: u64, batch_time_us: u64, batch_max: usize, burst_window: u64)
    ensures
        ({
            let d = flush_decision(pending, elapsed_us, batch_time_us, batch_max, burst_window);
            &&& d.1 <==> pending >= burst_window as usize
            &&& d.1 ==> (d.0 <==> pending >= batch_max) && !d.2
            &&& !d.1 ==> (d.0 <==> elapsed_us >= batch_time_us) && (d.2 <==> d.0)
        }),
{
}

/// A flush decided by time restarts the timer at the time of that decision,
/// so a second call at the same time, with fewer than a burst pending, does
/// not flush again (while the flush interval is not zero); a call that is
/// not a time flush leaves the timer where it was.
pub proof fn lemma_time_flush_restarts_timer(
    last: u64,
    now: u64,
    pending1: usize,
    pending2: usize,
    batch_time_us: u64,
    batch_max: usize,
    burst_window: u64,
)
    requires
        last <= now,
        pending1 < burst_window as usize,
        pending2 < burst_window as usize,
        now - last >= batch_time_us,
        batch_time_us > 0,
    ensures
        ({
            let d1 = flush_decision(pending1, elapsed_between(last, now), batch_time_us, batch_max, burst_window);
            let last2 = next_last_flush(last, elapsed_between(last, now), d1.2);
            let d2 = flush_decision(pending2, elapsed_between(last2, now), batch_time_us, batch_max, burst_window);
            &&& d1.0
            &&& d1.2
            &&& last2 == now
            &&& !d2.0
            &&& next_last_flush(last2, elapsed_between(last2, now), d2.2) == now
        }),
{
}

impl AdaptiveBatcher {
    pub closed spec fn spec_batch_time_us(&self) -> u64 {
        self.batch_time_us
    }

    pub closed spec fn spec_batch_max(&self) -> usize {
        self.batch_max
    }

    pub closed spec fn spec_burst_window(&self) -> u64 {
        self.burst_window
    }

    pub closed spec fn spec_in_burst(&self) -> bool {
        self.in_burst
    }

    /// When the last flush by time was (or when the batcher was made), in
    /// microseconds on the batcher's clock.
    pub closed spec fn spec_last_flush(&self) -> u64 {
        self.last_flush_us
    }

    pub fn new() -> (r: AdaptiveBatcher)
        ensures
            r.spec_batch_time_us() == BATCH_TIME_US,
            r.spec_batch_max() == BATCH_MAX,
            r.spec_burst_window() == BURST_WINDOW,
            !r.spec_in_burst(),
            r.spec_last_flush() == 0,
    {
        AdaptiveBatcher {
            clock_origin: instant_now(),
            last_flush_us: 0,
            batch_time_us: BATCH_TIME_US,
            batch_max: BATCH_MAX,
            burst_window: BURST_WINDOW,
            in_burst: false,
        }
    }

    /// Applies `flush_decision` to the time passed since the last flush, as
    /// the clock reports it; a flush by time restarts the timer now.
    pub fn should_flush(&mut self, pending: usize) -> (r: bool)
        ensures
            final(self).spec_batch_time_us() == old(self).spec_batch_time_us(),
            final(self).spec_batch_max() == old(self).spec_batch_max(),
            final(self).spec_burst_window() == old(self).spec_burst_window(),
            exists|now: u64| {
                let d = #[trigger] flush_decision(
                    pending,
                    elapsed_between(old(self).spec_last_flush(), now),
                    old(self).spec_batch_time_us(),
                    old(self).spec_batch_max(),
                    old(self).spec_burst_window(),
                );
                &&& r == d.0
                &&& final(self).spec_in_burst() == d.1
                &&& final(self).spec_last_flush() == next_last_flush(old(self).spec_last_flush(), elapsed_between(old(self).spec_last_flush(), now), d.2)
            },
    {
        let now = micros_since(&self.clock_origin);
        let last = self.last_flush_us;
        let elapsed = if now >= last { now - last } else { 0 };
        assert(elapsed == elapsed_between(last, now));
        self.should_flush_after(pending, elapsed)
    }

    /// The flush decision once the time since the last flush is known; a
    /// flush by time restarts the timer at the time of the decision.
    pub fn should_flush_after(&mut self, pending: usize, elapsed_us: u64) -> (r: bool)
        ensures
            ({
                let d = flush_decision(
                    pending,
                    elapsed_us,
                    old(self).spec_batch_time_us(),
                    old(self).spec_batch_max(),
                    old(self).spec_burst_window(),
                );
                &&& r == d.0
                &&& final(self).spec_in_burst() == d.1
                &&& final(self).spec_last_flush() == next_last_flush(old(self).spec_last_flush(), elapsed_us, d.2)
            }),
            final(self).spec_batch_time_us() == old(self).spec_batch_time_us(),
            final(self).spec_batch_max() == old(self).spec_batch_max(),
            final(self).spec_burst_window() == old(self).spec_burst_window(),
    {
        let burst = pending >= self.burst_window as usize;
        self.in_burst = burst;
        if burst {
            return pending >= self.batch_max;
        }
        if elapsed_us >= self.batch_time_us {
            self.last_flush_us = self.last_flush_us.saturating_add(elapsed_us);
            return true;
        }
        false
    }

    pub fn is_burst(&self) -> (r: bool)
        ensures
            r == self.spec_in_burst(),
    {
        self.in_burst
    }
}

/// Commits claimed batches strictly in sequence order: a batch advances the
/// cursor only when the cursor stands at the batch's first sequence.
pub struct Sequencer {
    next_commit: u64,
}

impl Sequencer {
    pub closed spec fn spec_cursor(&self) -> u64 {
        self.next_commit
    }

    pub fn new() -> (r: Sequencer)
        ensures
            r.spec_cursor() == 1,
    {
        Sequencer { next_commit: 1 }
    }

    /// Moves the cursor past the batch `[batch_start, batch_end)`. A worker
    /// whose batch is not next waits until it is, so the call is made when the
    /// cursor stands at `batch_start`.
    pub fn wait_and_advance(&mut self, batch_start: u64, batch_end: u64)
        requires
            old(self).spec_cursor() == batch_start,
        ensures
            final(self).spec_cursor() == batch_end,
    {
        self.next_commit = batch_end;
    }

    pub fn cursor(&self) -> (r: u64)
        ensures
            r == self.spec_cursor(),
    {
        self.next_commit
    }
}

} // verus!
