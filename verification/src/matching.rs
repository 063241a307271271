//! Timing jitter for batch-auction windows: each window's length is moved by
//! a pseudo-random amount within a configured range, so that its close cannot
//! be predicted.

use vstd::prelude::*;
use vstd::wrapping::u64_specs;
use vstd::wrapping::i64_specs;
use crate::clock::unix_nanos;

verus! {

/// One SplitMix64 step.
pub open spec fn spec_splitmix64(x: u64) -> u64 {
    let z1 = u64_specs::wrapping_add(x, 0x9E3779B97F4A7C15u64);
    let z2 = u64_specs::wrapping_mul(z1 ^ (z1 >> 30u64), 0xBF58476D1CE4E5B9u64);
    let z3 = u64_specs::wrapping_mul(z2 ^ (z2 >> 27u64), 0x94D049BB133111EBu64);
    z3 ^ (z3 >> 31u64)
}

pub fn splitmix64(x: u64) -> (r: u64)
    ensures
        r == spec_splitmix64(x),
{
    let mut z = x.wrapping_add(0x9E3779B97F4A7C15);
    z = (z ^ (z >> 30)).wrapping_mul(0xBF58476D1CE4E5B9);
    z = (z ^ (z >> 27)).wrapping_mul(0x94D049BB133111EB);
    z ^ (z >> 31)
}

/// The jitter, in microseconds, drawn for window `window_number` when the
/// counter read `tsc`: SplitMix64 of the window number plus the counter's low
/// 16 bits, reduced into `0..=2*range`, then shifted down by `range`.
pub open spec fn spec_jitter(jitter_range_micros: u64, window_number: u64, tsc: u64) -> i64 {
    if jitter_range_micros == 0 {
        0
    } else {
        let mixed = spec_splitmix64(u64_specs::wrapping_add(window_number, tsc & 0xFFFFu64));
        let jitter_abs = mixed % ((jitter_range_micros * 2 + 1) as u64);
        i64_specs::wrapping_sub(jitter_abs as i64, jitter_range_micros as i64)
    }
}

/// The jitter for a given counter reading.
pub fn jitter_from_counter(jitter_range_micros: u64, window_number: u64, tsc: u64) -> (r: i64)
    requires
        jitter_range_micros <= (u64::MAX - 1) / 2,
    ensures
        r == spec_jitter(jitter_range_micros, window_number, tsc),
        jitter_range_micros <= i64::MAX as u64 / 2 ==> -(jitter_range_micros as int) <= r <= jitter_range_micros,
{
    if jitter_range_micros == 0 {
        return 0;
    }
    let mixed = splitmix64(window_number.wrapping_add(tsc & 0xFFFF));
    let jitter_abs = mixed % (jitter_range_micros * 2 + 1);
    (jitter_abs as i64).wrapping_sub(jitter_range_micros as i64)
}

/// A jitter in `-range..=range` microseconds (for ranges up to half of
/// `i64::MAX`), drawn from the window number and a counter reading.
pub fn compute_jitter_micros(jitter_range_micros: u64, window_number: u64) -> (r: i64)
    requires
        jitter_range_micros <= (u64::MAX - 1) / 2,
    ensures
        exists|tsc: u64| r == #[trigger] spec_jitter(jitter_range_micros, window_number, tsc),
        jitter_range_micros <= i64::MAX as u64 / 2 ==> -(jitter_range_micros as int) <= r <= jitter_range_micros,
{
    if jitter_range_micros == 0 {
        assert(spec_jitter(jitter_range_micros, window_number, 0) == 0);
        return 0;
    }
    let tsc = unix_nanos();
    jitter_from_counter(jitter_range_micros, window_number, tsc)
}

/// A window length moved by `jitter` microseconds: lengthened with wrap-around,
/// shortened down to no less than zero.
pub open spec fn spec_window_with_jitter(window_ns: u64, jitter: i64) -> u64 {
    if jitter >= 0 {
        u64_specs::wrapping_add(window_ns, (jitter as u64 * 1000) as u64)
    } else {
        if window_ns >= (-jitter) * 1000 { (window_ns - (-jitter) * 1000) as u64 } else { 0 }
    }
}

pub fn window_with_jitter(window_ns: u64, jitter: i64) -> (r: u64)
    requires
        jitter >= 0 ==> jitter * 1000 <= u64::MAX,
        jitter < 0 ==> (-jitter) * 1000 <= u64::MAX,
    ensures
        r == spec_window_with_jitter(window_ns, jitter),
{
    if jitter >= 0 {
        window_ns.wrapping_add((jitter as u64) * 1000)
    } else {
        window_ns.saturating_sub((-jitter) as u64 * 1000)
    }
}

/// The length of batch window `window_number`: the base length moved by the
/// window's jitter.
pub fn actual_window_ns(window_ns: u64, jitter_range_micros: u64, window_number: u64) -> (r: u64)
    requires
        jitter_range_micros <= u64::MAX / 1000,
    ensures
        exists|j: i64|
            -(jitter_range_micros as int) <= j <= jitter_range_micros
            && r == #[trigger] spec_window_with_jitter(window_ns, j),
{
    let jitter = compute_jitter_micros(jitter_range_micros, window_number);
    window_with_jitter(window_ns, jitter)
}

} // verus!
