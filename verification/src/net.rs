//! Network throughput: per-interface byte deltas summed into one rx/tx
//! total and divided by the elapsed wall-clock time.
//!
//! The OS reports, per interface, the bytes moved **since the previous
//! poll**, not cumulative totals, so only the previous poll's timestamp
//! needs to be remembered. The interface map is walked in arbitrary order;
//! the summation is proved independent of that order by working over the
//! multiset of per-interface pairs.

use crate::metrics::sat_add;
use crate::store::CounterStore;
use crate::sysread;
use crate::sysread::net_io_of;
use vstd::multiset::Multiset;
use vstd::prelude::*;

verus! {

/// Sum of the `(rx, tx)` pairs of a sequence of interface readings,
/// component-wise, saturating at the counter width.
pub open spec fn io_sum_seq(s: Seq<(u64, u64)>) -> (int, int)
    decreases s.len(),
{
    if s.len() == 0 {
        (0, 0)
    } else {
        let p = io_sum_seq(s.drop_last());
        (sat_add(p.0, s.last().0 as int), sat_add(p.1, s.last().1 as int))
    }
}

/// Sum of the `(rx, tx)` pairs of a multiset of interface readings,
/// component-wise, saturating at the counter width. Defined by peeling an
/// arbitrary element, and proved below to agree with any enumeration
/// order.
pub open spec fn io_sum(m: Multiset<(u64, u64)>) -> (int, int)
    decreases m.len(),
    via io_sum_decreases
{
    if m.len() == 0 {
        (0, 0)
    } else {
        let x = m.choose();
        let p = io_sum(m.remove(x));
        (sat_add(p.0, x.0 as int), sat_add(p.1, x.1 as int))
    }
}

#[via_fn]
proof fn io_sum_decreases(m: Multiset<(u64, u64)>) {
    broadcast use vstd::multiset::group_multiset_axioms;

    if m.len() != 0 {
        lemma_remove_contained_len(m, m.choose());
    }
}

/// Removing one occurrence of a contained element shrinks a multiset by
/// exactly one.
proof fn lemma_remove_contained_len<V>(m: Multiset<V>, x: V)
    requires
        m.count(x) > 0,
    ensures
        m.remove(x).len() == m.len() - 1,
{
    broadcast use vstd::multiset::group_multiset_axioms;

    assert(Multiset::singleton(x).subset_of(m)) by {
        assert forall|v: V| Multiset::singleton(x).count(v) <= m.count(v) by {
            if v != x {
                assert(Multiset::singleton(x).count(v) == 0);
            }
        }
    }
}

/// Both components of a multiset sum lie within the counter width.
proof fn lemma_io_sum_in_range(m: Multiset<(u64, u64)>)
    ensures
        0 <= io_sum(m).0 <= 0xffff_ffff_ffff_ffff,
        0 <= io_sum(m).1 <= 0xffff_ffff_ffff_ffff,
    decreases m.len(),
{
    broadcast use vstd::multiset::group_multiset_axioms;

    if m.len() != 0 {
        lemma_remove_contained_len(m, m.choose());
        lemma_io_sum_in_range(m.remove(m.choose()));
    }
}

/// Peeling any contained element off a multiset sum leaves the sum of the
/// rest: the summation does not depend on which element is taken first.
proof fn lemma_io_sum_remove(m: Multiset<(u64, u64)>, x: (u64, u64))
    requires
        m.count(x) > 0,
    ensures
        io_sum(m).0 == sat_add(io_sum(m.remove(x)).0, x.0 as int),
        io_sum(m).1 == sat_add(io_sum(m.remove(x)).1, x.1 as int),
    decreases m.len(),
{
    broadcast use vstd::multiset::group_multiset_axioms;

    lemma_remove_contained_len(m, x);
    let y = m.choose();
    assert(m.len() > 0);
    if y == x {
        // Definition already peels the chosen element.
    } else {
        lemma_remove_contained_len(m, y);
        assert(m.remove(y).count(x) > 0);
        lemma_io_sum_remove(m.remove(y), x);
        assert(m.remove(x).count(y) > 0);
        lemma_io_sum_remove(m.remove(x), y);
        assert(m.remove(y).remove(x) =~= m.remove(x).remove(y));
        let b = io_sum(m.remove(y).remove(x));
        lemma_io_sum_in_range(m.remove(y).remove(x));
        assert(sat_add(sat_add(b.0, x.0 as int), y.0 as int) == sat_add(sat_add(b.0, y.0 as int), x.0 as int));
        assert(sat_add(sat_add(b.1, x.1 as int), y.1 as int) == sat_add(sat_add(b.1, y.1 as int), x.1 as int));
    }
}

/// Adding one element to a multiset adds its components to the sum.
proof fn lemma_io_sum_insert(m: Multiset<(u64, u64)>, x: (u64, u64))
    ensures
        io_sum(m.insert(x)).0 == sat_add(io_sum(m).0, x.0 as int),
        io_sum(m.insert(x)).1 == sat_add(io_sum(m).1, x.1 as int),
{
    broadcast use vstd::multiset::group_multiset_axioms;

    assert(m.insert(x).count(x) > 0);
    lemma_io_sum_remove(m.insert(x), x);
    assert(m.insert(x).remove(x) =~= m);
}

/// Summing a sequence of interface readings in its own order gives the
/// multiset sum: any two enumeration orders of the same readings agree.
pub proof fn lemma_io_sum_seq_agrees(s: Seq<(u64, u64)>)
    ensures
        io_sum_seq(s) == io_sum(s.to_multiset()),
    decreases s.len(),
{
    broadcast use vstd::seq_lib::group_to_multiset_ensures;

    if s.len() == 0 {
        broadcast use vstd::multiset::group_multiset_axioms;

        assert(s.to_multiset().len() == 0);
    } else {
        lemma_io_sum_seq_agrees(s.drop_last());
        assert(s =~= s.drop_last().push(s.last()));
        assert(s.drop_last().push(s.last()).to_multiset() =~= s.drop_last().to_multiset().insert(
            s.last(),
        ));
        lemma_io_sum_insert(s.drop_last().to_multiset(), s.last());
    }
}

/// Milliseconds elapsed between the previous poll and now, floored at one
/// millisecond so that back-to-back polls cannot blow the division up.
pub open spec fn elapsed_ms_spec(prev_ms: u64, now_ms: u64) -> int {
    if now_ms > prev_ms {
        now_ms - prev_ms
    } else {
        1
    }
}

/// Bytes per second from a byte total and an elapsed time in milliseconds,
/// clamped at the counter width.
pub open spec fn rate_spec(total: int, elapsed_ms: int) -> int {
    if (total * 1000) / elapsed_ms > 0xffff_ffff_ffff_ffff {
        0xffff_ffff_ffff_ffff
    } else {
        (total * 1000) / elapsed_ms
    }
}

/// Polls the interfaces and returns `(rx, tx)` in bytes per second.
///
/// The very first poll after a store reset has no baseline, so it returns
/// zero rates and only records its timestamp. Later polls sum the
/// per-interface deltas and divide by the elapsed wall-clock time. The
/// store's CPU family is left untouched.
pub fn net_usage_bps(
    nets: &mut sysinfo::Networks,
    store: &mut CounterStore,
    now_ms: u64,
) -> (r: (u64, u64))
    ensures
        final(store).net_prev_ms.value == Some(now_ms),
        final(store).cpu == old(store).cpu,
        old(store).net_prev_ms.value is None ==> r == (0u64, 0u64),
        old(store).net_prev_ms.value matches Some(prev) ==> {
            let sums = io_sum(net_io_of(*final(nets)));
            let elapsed = elapsed_ms_spec(prev, now_ms);
            r.0 == rate_spec(sums.0, elapsed) && r.1 == rate_spec(sums.1, elapsed)
        },
{
    sysread::nets_refresh(nets);
    let deltas = sysread::nets_io_deltas(nets);
    let n = deltas.len();
    let mut rx: u64 = 0;
    let mut tx: u64 = 0;
    let mut i: usize = 0;
    while i < n
        invariant
            n == deltas@.len(),
            i <= n,
            rx as int == io_sum_seq(deltas@.take(i as int)).0,
            tx as int == io_sum_seq(deltas@.take(i as int)).1,
        decreases n - i,
    {
        let (drx, dtx) = deltas[i];
        proof {
            assert(deltas@.take(i + 1).drop_last() =~= deltas@.take(i as int));
            assert(deltas@.take(i + 1).last() == deltas@[i as int]);
        }
        rx = if rx > 0xffff_ffff_ffff_ffff - drx {
            0xffff_ffff_ffff_ffff
        } else {
            rx + drx
        };
        tx = if tx > 0xffff_ffff_ffff_ffff - dtx {
            0xffff_ffff_ffff_ffff
        } else {
            tx + dtx
        };
        i += 1;
    }
    proof {
        assert(deltas@.take(n as int) =~= deltas@);
        lemma_io_sum_seq_agrees(deltas@);
    }
    let prev = store.net_prev_ms.replace(now_ms);
    match prev {
        Option::None => (0, 0),
        Option::Some(p) => {
            let elapsed: u64 = if now_ms > p {
                now_ms - p
            } else {
                1
            };
            (rate_bps(rx, elapsed), rate_bps(tx, elapsed))
        },
    }
}

/// One rate division: `total * 1000 / elapsed_ms`, clamped at the counter
/// width.
fn rate_bps(total: u64, elapsed_ms: u64) -> (r: u64)
    requires
        elapsed_ms >= 1,
    ensures
        r == rate_spec(total as int, elapsed_ms as int),
{
    let num: u128 = (total as u128) * 1000;
    let q: u128 = num / (elapsed_ms as u128);
    if q > 0xffff_ffff_ffff_ffff {
        0xffff_ffff_ffff_ffff
    } else {
        q as u64
    }
}

} // verus!
