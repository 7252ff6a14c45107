//! The Metrics Sampler: delta-based CPU utilization.
//!
//! CPU tick counters are monotonically increasing totals since boot, not
//! instantaneous rates, so utilization is computed from the difference
//! between the current reading and the previous one held in the Counter
//! Store. Per-core busy and total deltas are clamped at zero (counters can
//! wrap), a changed core count is treated as "no prior sample", and the
//! final ratio is clamped into the valid percentage range.
//!
//! Percentages are held in fixed point as tenths of a percent (permille),
//! so every computation is exact.

use crate::net;
use crate::net::{elapsed_ms_spec, io_sum, rate_spec};
use crate::store::{CounterStore, CpuSample, CpuTicks};
use crate::sysread;
use crate::sysread::{net_io_of, total_mem_of, used_mem_of};
use crate::types::MainThreadToken;
use crate::units;
use crate::units::gb_tenths;
use vstd::prelude::*;

verus! {

/// One complete snapshot of the computed metrics. An immutable value with
/// no ties to OS resources; fractional quantities are in fixed point
/// (tenths of a percent, tenths of a gigabyte, tenths of a degree), and a
/// sensor that could not be read shows as `None`.
#[derive(Clone, Copy, Debug, PartialEq, Eq)]
pub struct Metrics {
    pub cpu_percent_tenths: u32,
    pub mem_used_gb_tenths: u64,
    pub mem_total_gb_tenths: u64,
    pub cpu_temp_dc: Option<i64>,
    pub gpu_temp_dc: Option<i64>,
    pub net_rx_bps: u64,
    pub net_tx_bps: u64,
}

/// Negative deltas (counter wrap, topology change) are clamped to zero
/// rather than propagated.
pub open spec fn clamp0(x: int) -> int {
    if x < 0 {
        0
    } else {
        x
    }
}

/// Addition saturating at the tick-counter width. Sums of deltas are
/// accumulated with this; a genuine reading of 64-bit counters can never
/// reach the cap, but it makes the summation total for every input.
pub open spec fn sat_add(a: int, b: int) -> int {
    if a + b > 0xffff_ffff_ffff_ffff {
        0xffff_ffff_ffff_ffff
    } else {
        a + b
    }
}

/// Busy ticks spent on one core between two readings:
/// `max(0, delta_user + delta_nice + delta_system)`.
pub open spec fn busy_delta(prev: CpuTicks, cur: CpuTicks) -> int {
    clamp0(
        (cur.user + cur.nice + cur.system) - (prev.user + prev.nice + prev.system),
    )
}

/// Total ticks elapsed on one core between two readings:
/// `max(0, busy_delta + delta_idle)`.
pub open spec fn total_delta(prev: CpuTicks, cur: CpuTicks) -> int {
    clamp0(busy_delta(prev, cur) + (cur.idle - prev.idle))
}

/// Busy deltas summed across cores (saturating).
pub open spec fn busy_sum(prev: Seq<CpuTicks>, cur: Seq<CpuTicks>) -> int
    decreases cur.len(),
{
    if cur.len() == 0 || prev.len() == 0 {
        0
    } else {
        sat_add(
            busy_sum(prev.drop_last(), cur.drop_last()),
            busy_delta(prev.last(), cur.last()),
        )
    }
}

/// Total deltas summed across cores (saturating).
pub open spec fn total_sum(prev: Seq<CpuTicks>, cur: Seq<CpuTicks>) -> int
    decreases cur.len(),
{
    if cur.len() == 0 || prev.len() == 0 {
        0
    } else {
        sat_add(
            total_sum(prev.drop_last(), cur.drop_last()),
            total_delta(prev.last(), cur.last()),
        )
    }
}

/// `1000 * busy / total` rounded to the nearest permille and clamped into
/// `[0, 1000]`; zero when no ticks elapsed at all.
pub open spec fn permille_of(busy: int, total: int) -> int {
    if total <= 0 {
        0
    } else if (1000 * busy + total / 2) / total > 1000 {
        1000
    } else {
        (1000 * busy + total / 2) / total
    }
}

/// CPU utilization in permille for a current reading given the previous
/// one: zero with no prior sample, and a changed core count counts as no
/// prior sample.
pub open spec fn cpu_permille_spec(prev: Option<Seq<CpuTicks>>, cur: Seq<CpuTicks>) -> int {
    match prev {
        Option::None => 0,
        Option::Some(p) => if p.len() != cur.len() {
            0
        } else {
            permille_of(busy_sum(p, cur), total_sum(p, cur))
        },
    }
}

/// The per-core tick sequence held in the store, if any.
pub open spec fn stored_cores(store: CounterStore) -> Option<Seq<CpuTicks>> {
    match store.cpu.value {
        Option::Some(s) => Option::Some(s.cores@),
        Option::None => Option::None,
    }
}

/// Computes the CPU utilization for a new reading against the store and
/// leaves the store holding that reading. A failed read (`None`) yields
/// zero and leaves the store untouched, so the next successful read still
/// has its baseline. Returns the permille value and the core count.
pub fn cpu_percent(store: &mut CounterStore, reading: Option<CpuSample>) -> (r: (u32, usize))
    ensures
        reading is None ==> r.0 == 0 && r.1 == 0 && *final(store) == *old(store),
        reading matches Some(s) ==> {
            &&& r.0 == cpu_permille_spec(stored_cores(*old(store)), s.cores@)
            &&& r.1 == s.cores@.len()
            &&& final(store).cpu.value == Some(s)
            &&& final(store).net_prev_ms == old(store).net_prev_ms
        },
{
    match reading {
        Option::None => (0, 0),
        Option::Some(s) => {
            let ncpu = s.cores.len();
            let permille: u32 = match store.cpu.current() {
                Option::None => 0,
                Option::Some(prev_sample) => {
                    cpu_permille_between(&prev_sample.cores, &s.cores)
                },
            };
            let _ = store.cpu.replace(s);
            (permille, ncpu)
        },
    }
}

/// The delta computation between two concrete readings; equals
/// `cpu_permille_spec(Some(prev), cur)`.
pub fn cpu_permille_between(prev: &Vec<CpuTicks>, cur: &Vec<CpuTicks>) -> (r: u32)
    ensures
        r == cpu_permille_spec(Some(prev@), cur@),
{
    if prev.len() != cur.len() {
        return 0;
    }
    let n = cur.len();
    let mut busy: u128 = 0;
    let mut total: u128 = 0;
    let mut i: usize = 0;
    while i < n
        invariant
            n == cur@.len() == prev@.len(),
            i <= n,
            busy as int == busy_sum(prev@.take(i as int), cur@.take(i as int)),
            total as int == total_sum(prev@.take(i as int), cur@.take(i as int)),
            busy <= 0xffff_ffff_ffff_ffff,
            total <= 0xffff_ffff_ffff_ffff,
        decreases n - i,
    {
        let pc = prev[i];
        let cc = cur[i];
        let prev3: u128 = pc.user as u128 + pc.nice as u128 + pc.system as u128;
        let cur3: u128 = cc.user as u128 + cc.nice as u128 + cc.system as u128;
        let bd: u128 = if cur3 > prev3 {
            cur3 - prev3
        } else {
            0
        };
        let td: u128 = if bd + (cc.idle as u128) > (pc.idle as u128) {
            bd + (cc.idle as u128) - (pc.idle as u128)
        } else {
            0
        };
        proof {
            assert(bd as int == busy_delta(prev@[i as int], cur@[i as int]));
            assert(td as int == total_delta(prev@[i as int], cur@[i as int]));
            assert(prev@.take(i + 1).drop_last() =~= prev@.take(i as int));
            assert(cur@.take(i + 1).drop_last() =~= cur@.take(i as int));
            assert(prev@.take(i + 1).last() == prev@[i as int]);
            assert(cur@.take(i + 1).last() == cur@[i as int]);
        }
        busy = if busy + bd > 0xffff_ffff_ffff_ffff {
            0xffff_ffff_ffff_ffff
        } else {
            busy + bd
        };
        total = if total + td > 0xffff_ffff_ffff_ffff {
            0xffff_ffff_ffff_ffff
        } else {
            total + td
        };
        i += 1;
    }
    proof {
        assert(prev@.take(n as int) =~= prev@);
        assert(cur@.take(n as int) =~= cur@);
    }
    if total == 0 {
        0
    } else {
        let q: u128 = (1000 * busy + total / 2) / total;
        proof {
            lemma_permille_div_in_range(busy as int, total as int);
        }
        if q > 1000 {
            1000
        } else {
            q as u32
        }
    }
}

/// For nonnegative `busy` and positive `total`, the rounded permille ratio
/// is itself nonnegative, so clamping only ever pulls it down to 1000.
proof fn lemma_permille_div_in_range(busy: int, total: int)
    requires
        busy >= 0,
        total >= 1,
    ensures
        (1000 * busy + total / 2) / total >= 0,
        permille_of(busy, total) == if (1000 * busy + total / 2) / total > 1000 {
            1000int
        } else {
            (1000 * busy + total / 2) / total
        },
{
    let num = 1000 * busy + total / 2;
    vstd::arithmetic::div_mod::lemma_div_pos_is_pos(total, 2);
    assert(num >= 0);
    vstd::arithmetic::div_mod::lemma_div_pos_is_pos(num, total);
}

/// With a nonnegative busy count no larger than the total, the rounded
/// ratio never exceeds full utilization, so the final clamp is a no-op.
proof fn lemma_ratio_le_1000(busy: int, total: int)
    requires
        0 <= busy <= total,
        total >= 1,
    ensures
        0 <= (1000 * busy + total / 2) / total <= 1000,
        permille_of(busy, total) == (1000 * busy + total / 2) / total,
{
    let num = 1000 * busy + total / 2;
    lemma_permille_div_in_range(busy, total);
    assert(num <= 1000 * total + total / 2);
    vstd::arithmetic::div_mod::lemma_div_is_ordered(num, 1000 * total + total / 2, total);
    vstd::arithmetic::div_mod::lemma_div_pos_is_pos(total, 2);
    vstd::arithmetic::div_mod::lemma_div_is_strictly_smaller(total, 2);
    assert(total * 1000 == 1000 * total) by (nonlinear_arith);
    vstd::arithmetic::div_mod::lemma_div_multiples_vanish_fancy(1000, total / 2, total);
    assert((1000 * total + total / 2) / total == 1000);
}

/// Every per-core delta is clamped at zero: a counter regression can make a
/// delta smaller, never negative.
pub proof fn lemma_deltas_clamped(prev: CpuTicks, cur: CpuTicks)
    ensures
        busy_delta(prev, cur) >= 0,
        total_delta(prev, cur) >= 0,
{
}

/// The saturating sums of clamped deltas stay within the counter width,
/// whatever the two readings are.
pub proof fn lemma_sums_in_range(prev: Seq<CpuTicks>, cur: Seq<CpuTicks>)
    ensures
        0 <= busy_sum(prev, cur) <= 0xffff_ffff_ffff_ffff,
        0 <= total_sum(prev, cur) <= 0xffff_ffff_ffff_ffff,
    decreases cur.len(),
{
    if cur.len() != 0 && prev.len() != 0 {
        lemma_sums_in_range(prev.drop_last(), cur.drop_last());
    }
}

/// No prior sample means a defined fallback of zero utilization: the first
/// call after process start or a store reset reports an idle CPU rather
/// than dividing by zero or guessing.
pub proof fn lemma_no_prior_sample_zero(cur: Seq<CpuTicks>)
    ensures
        cpu_permille_spec(None, cur) == 0,
{
}

/// Counter regression is clamped: for any two readings, including ones
/// where counters went backwards, the computed utilization is a defined
/// value within the valid range; nothing negative and no division blow-up
/// can reach the caller.
pub proof fn lemma_percent_clamped(prev: Option<Seq<CpuTicks>>, cur: Seq<CpuTicks>)
    ensures
        0 <= cpu_permille_spec(prev, cur) <= 1000,
{
    match prev {
        Option::None => {},
        Option::Some(p) => {
            if p.len() == cur.len() {
                lemma_sums_in_range(p, cur);
                let t = total_sum(p, cur);
                if t > 0 {
                    lemma_permille_div_in_range(busy_sum(p, cur), t);
                }
            }
        },
    }
}

/// Two same-shape readings where every tick counter only increased.
pub open spec fn monotonic_reading(prev: Seq<CpuTicks>, cur: Seq<CpuTicks>) -> bool {
    &&& prev.len() == cur.len()
    &&& forall|i: int|
        0 <= i < prev.len() ==> {
            &&& (#[trigger] cur[i]).user >= prev[i].user
            &&& cur[i].nice >= prev[i].nice
            &&& cur[i].system >= prev[i].system
            &&& cur[i].idle >= prev[i].idle
        }
}

/// For monotonic readings the busy ticks never exceed the total ticks.
proof fn lemma_monotonic_busy_le_total(prev: Seq<CpuTicks>, cur: Seq<CpuTicks>)
    requires
        monotonic_reading(prev, cur),
    ensures
        busy_sum(prev, cur) <= total_sum(prev, cur),
    decreases cur.len(),
{
    if cur.len() != 0 {
        assert(monotonic_reading(prev.drop_last(), cur.drop_last()));
        lemma_monotonic_busy_le_total(prev.drop_last(), cur.drop_last());
        assert(busy_delta(prev.last(), cur.last()) <= total_delta(prev.last(), cur.last()));
    }
}

/// Reads the memory gauges and converts them with the canonical rounding
/// rule: both figures divided by 2^30 and rounded to one decimal. Returns
/// `(used, total)` in tenths of a gigabyte.
pub fn mem_gb(sys: &mut sysinfo::System) -> (r: (u64, u64))
    ensures
        r.0 == gb_tenths(used_mem_of(*final(sys))),
        r.1 == gb_tenths(total_mem_of(*final(sys))),
{
    sysread::sys_refresh_memory(sys);
    let used = sysread::sys_used_memory(sys);
    let total = sysread::sys_total_memory(sys);
    (units::bytes_to_gb(used), units::bytes_to_gb(total))
}

/// Produces one best-effort snapshot. Never fails the caller: a CPU
/// reading that could not be obtained (`None`) degrades the CPU field to
/// zero and keeps the stored baseline; absent temperatures stay `None`;
/// the memory and network fields reflect whatever the OS handles hold
/// after their refresh. The store is left holding the most recent raw
/// readings.
pub fn sample(
    sys: &mut sysinfo::System,
    nets: &mut sysinfo::Networks,
    store: &mut CounterStore,
    reading: Option<CpuSample>,
    now_ms: u64,
    cpu_temp_dc: Option<i64>,
    gpu_temp_dc: Option<i64>,
) -> (m: Metrics)
    ensures
        reading is None ==> m.cpu_percent_tenths == 0 && final(store).cpu == old(store).cpu,
        reading matches Some(s) ==> {
            &&& m.cpu_percent_tenths == cpu_permille_spec(stored_cores(*old(store)), s.cores@)
            &&& final(store).cpu.value == Some(s)
        },
        m.mem_used_gb_tenths == gb_tenths(used_mem_of(*final(sys))),
        m.mem_total_gb_tenths == gb_tenths(total_mem_of(*final(sys))),
        m.cpu_temp_dc == cpu_temp_dc,
        m.gpu_temp_dc == gpu_temp_dc,
        final(store).net_prev_ms.value == Some(now_ms),
        old(store).net_prev_ms.value is None ==> m.net_rx_bps == 0 && m.net_tx_bps == 0,
        old(store).net_prev_ms.value matches Some(prev) ==> {
            let sums = io_sum(net_io_of(*final(nets)));
            let elapsed = elapsed_ms_spec(prev, now_ms);
            &&& m.net_rx_bps == rate_spec(sums.0, elapsed)
            &&& m.net_tx_bps == rate_spec(sums.1, elapsed)
        },
{
    let (cpu_percent_tenths, _ncpu) = cpu_percent(store, reading);
    let (mem_used_gb_tenths, mem_total_gb_tenths) = mem_gb(sys);
    let (net_rx_bps, net_tx_bps) = net::net_usage_bps(nets, store, now_ms);
    Metrics {
        cpu_percent_tenths,
        mem_used_gb_tenths,
        mem_total_gb_tenths,
        cpu_temp_dc,
        gpu_temp_dc,
        net_rx_bps,
        net_tx_bps,
    }
}

/// One delivery-side refresh: the per-tick work performed for the
/// consumer. Taking the token by reference makes "called on the
/// privileged context" a checked precondition of every delivery, as the
/// consumer-visible state demands; the sampling itself has no such need.
pub fn refresh(
    _mt: &MainThreadToken,
    sys: &mut sysinfo::System,
    nets: &mut sysinfo::Networks,
    store: &mut CounterStore,
    reading: Option<CpuSample>,
    now_ms: u64,
    cpu_temp_dc: Option<i64>,
    gpu_temp_dc: Option<i64>,
) -> (m: Metrics)
    ensures
        reading is None ==> m.cpu_percent_tenths == 0 && final(store).cpu == old(store).cpu,
        reading matches Some(s) ==> {
            &&& m.cpu_percent_tenths == cpu_permille_spec(stored_cores(*old(store)), s.cores@)
            &&& final(store).cpu.value == Some(s)
        },
        m.mem_used_gb_tenths == gb_tenths(used_mem_of(*final(sys))),
        m.mem_total_gb_tenths == gb_tenths(total_mem_of(*final(sys))),
        m.cpu_temp_dc == cpu_temp_dc,
        m.gpu_temp_dc == gpu_temp_dc,
        final(store).net_prev_ms.value == Some(now_ms),
        old(store).net_prev_ms.value is None ==> m.net_rx_bps == 0 && m.net_tx_bps == 0,
        old(store).net_prev_ms.value matches Some(prev) ==> {
            let sums = io_sum(net_io_of(*final(nets)));
            let elapsed = elapsed_ms_spec(prev, now_ms);
            &&& m.net_rx_bps == rate_spec(sums.0, elapsed)
            &&& m.net_tx_bps == rate_spec(sums.1, elapsed)
        },
{
    sample(sys, nets, store, reading, now_ms, cpu_temp_dc, gpu_temp_dc)
}

/// A fresh store carries no baseline for any family, so the sample taken
/// from it reports the defined fallbacks: zero CPU utilization and, by the
/// sampling contract, zero network rates. Together with the recovery
/// policy, which hands back a fresh store after a poisoned acquisition,
/// this is what makes a sample after an abnormal termination succeed with
/// the "no prior sample" behaviour rather than hang or fail.
pub proof fn lemma_fresh_store_fallback(store: CounterStore, cur: Seq<CpuTicks>)
    requires
        store.is_fresh(),
    ensures
        cpu_permille_spec(stored_cores(store), cur) == 0,
        store.net_prev_ms.value is None,
{
}

/// Monotonic counters give a percentage within range with no clamping: when
/// every tick counter only increases between two readings, the utilization
/// is exactly the rounded ratio of busy to total ticks, and that ratio
/// already lies in `[0, 1000]` permille.
pub proof fn lemma_monotonic_percent_exact(prev: Seq<CpuTicks>, cur: Seq<CpuTicks>)
    requires
        monotonic_reading(prev, cur),
    ensures
        0 <= cpu_permille_spec(Some(prev), cur) <= 1000,
        busy_sum(prev, cur) <= total_sum(prev, cur),
        total_sum(prev, cur) > 0 ==> cpu_permille_spec(Some(prev), cur) == (1000 * busy_sum(
            prev,
            cur,
        ) + total_sum(prev, cur) / 2) / total_sum(prev, cur),
{
    lemma_sums_in_range(prev, cur);
    lemma_monotonic_busy_le_total(prev, cur);
    let t = total_sum(prev, cur);
    if t > 0 {
        lemma_ratio_le_1000(busy_sum(prev, cur), t);
    }
}

} // verus!
