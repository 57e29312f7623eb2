//! Network counters and their refresh routine.
//!
//! The counter state holds cumulative received/transmitted totals since
//! construction, the last computed rates, and the instant of the last
//! sample.  A refresh always updates the totals; the rates are recomputed
//! only when the elapsed interval is long enough to be meaningful, else the
//! previous rates are retained unchanged.

use vstd::prelude::*;
use crate::probe;
use crate::rate::{MIN_RATE_INTERVAL_MS, compute_rate, spec_rate};

verus! {

/// Cumulative byte totals, the derived rates in bytes per second, and the
/// instant (caller's clock, in milliseconds) of the last sample.
#[derive(Clone, Copy, Debug, PartialEq, Eq, Structural)]
pub struct NetworkCounters {
    pub last_update_ms: u64,
    pub total_received: u64,
    pub total_transmitted: u64,
    pub rx_rate: u64,
    pub tx_rate: u64,
}

/// State after one sample: the totals always take the new values; the rates
/// are recomputed from the totals' change only when at least the minimum
/// interval elapsed, and retained unchanged otherwise.
pub open spec fn spec_apply_sample(
    state: NetworkCounters,
    now_ms: u64,
    new_rx_total: u64,
    new_tx_total: u64,
) -> NetworkCounters {
    let elapsed = now_ms.saturating_sub(state.last_update_ms);
    NetworkCounters {
        last_update_ms: now_ms,
        total_received: new_rx_total,
        total_transmitted: new_tx_total,
        rx_rate: if elapsed >= MIN_RATE_INTERVAL_MS {
            spec_rate(state.total_received, new_rx_total, elapsed)
        } else {
            state.rx_rate
        },
        tx_rate: if elapsed >= MIN_RATE_INTERVAL_MS {
            spec_rate(state.total_transmitted, new_tx_total, elapsed)
        } else {
            state.tx_rate
        },
    }
}

impl NetworkCounters {
    /// Baseline state: the given totals, zero rates, sampled at `now_ms`.
    pub fn baseline(now_ms: u64, rx_total: u64, tx_total: u64) -> (state: Self)
        ensures
            state == (NetworkCounters {
                last_update_ms: now_ms,
                total_received: rx_total,
                total_transmitted: tx_total,
                rx_rate: 0u64,
                tx_rate: 0u64,
            }),
    {
        NetworkCounters {
            last_update_ms: now_ms,
            total_received: rx_total,
            total_transmitted: tx_total,
            rx_rate: 0,
            tx_rate: 0,
        }
    }

    /// Applies one sample of the cumulative totals taken at `now_ms`.
    ///
    /// The stored totals always update.  When less than the minimum
    /// interval elapsed since the previous sample, the interval is too
    /// noisy: the previous rates are retained unchanged.  Otherwise each
    /// rate becomes the saturating growth of its total, scaled to bytes per
    /// second — a counter regression yields a zero rate, never a negative
    /// one.
    pub fn apply_sample(&mut self, now_ms: u64, new_rx_total: u64, new_tx_total: u64)
        ensures
            *final(self) == spec_apply_sample(*old(self), now_ms, new_rx_total, new_tx_total),
            final(self).total_received == new_rx_total,
            final(self).total_transmitted == new_tx_total,
            final(self).last_update_ms == now_ms,
            now_ms.saturating_sub(old(self).last_update_ms) < MIN_RATE_INTERVAL_MS ==> {
                &&& final(self).rx_rate == old(self).rx_rate
                &&& final(self).tx_rate == old(self).tx_rate
            },
    {
        let elapsed = now_ms.saturating_sub(self.last_update_ms);
        if elapsed >= MIN_RATE_INTERVAL_MS {
            self.rx_rate = compute_rate(self.total_received, new_rx_total, elapsed);
            self.tx_rate = compute_rate(self.total_transmitted, new_tx_total, elapsed);
        }
        self.total_received = new_rx_total;
        self.total_transmitted = new_tx_total;
        self.last_update_ms = now_ms;
    }
}

/// Saturating sum of the received counts in a sequence of per-interface
/// `(received, transmitted)` pairs.
pub open spec fn spec_sum_rx(deltas: Seq<(u64, u64)>) -> u64
    decreases deltas.len(),
{
    if deltas.len() == 0 {
        0u64
    } else {
        spec_sum_rx(deltas.drop_last()).saturating_add(deltas.last().0)
    }
}

/// Saturating sum of the transmitted counts.
pub open spec fn spec_sum_tx(deltas: Seq<(u64, u64)>) -> u64
    decreases deltas.len(),
{
    if deltas.len() == 0 {
        0u64
    } else {
        spec_sum_tx(deltas.drop_last()).saturating_add(deltas.last().1)
    }
}

/// Sums per-interface `(received, transmitted)` byte counts, saturating at
/// the counter width.
pub fn sum_deltas(deltas: &Vec<(u64, u64)>) -> (sums: (u64, u64))
    ensures
        sums.0 == spec_sum_rx(deltas@),
        sums.1 == spec_sum_tx(deltas@),
{
    let mut rx: u64 = 0;
    let mut tx: u64 = 0;
    let mut i: usize = 0;
    while i < deltas.len()
        invariant
            i <= deltas@.len(),
            rx == spec_sum_rx(deltas@.subrange(0, i as int)),
            tx == spec_sum_tx(deltas@.subrange(0, i as int)),
        decreases deltas@.len() - i,
    {
        proof {
            assert(deltas@.subrange(0, i + 1).drop_last() =~= deltas@.subrange(0, i as int));
            assert(deltas@.subrange(0, i + 1).last() == deltas@[i as int]);
        }
        rx = rx.saturating_add(deltas[i].0);
        tx = tx.saturating_add(deltas[i].1);
        i = i + 1;
    }
    proof {
        assert(deltas@.subrange(0, deltas@.len() as int) =~= deltas@);
    }
    (rx, tx)
}

/// Owns the live interface probe handle and the counter state.  Created
/// once at startup with a zero-rate baseline; mutated only by its own
/// refresh; never reset during a run.
pub struct NetworkStats {
    networks: sysinfo::Networks,
    counters: NetworkCounters,
}

impl NetworkStats {
    /// The current counter state.
    pub closed spec fn spec_counters(&self) -> NetworkCounters {
        self.counters
    }

    /// Probes the interfaces once and captures the baseline: the totals
    /// start from the first sample's counts, the rates at zero.
    pub fn new(now_ms: u64) -> (stats: Self)
        ensures
            stats.spec_counters().last_update_ms == now_ms,
            stats.spec_counters().rx_rate == 0,
            stats.spec_counters().tx_rate == 0,
    {
        let networks = probe::networks_new();
        let deltas = probe::interface_deltas(&networks);
        let sums = sum_deltas(&deltas);
        NetworkStats { networks, counters: NetworkCounters::baseline(now_ms, sums.0, sums.1) }
    }

    /// Re-reads the interface counters at `now_ms`: the cumulative totals
    /// grow by the bytes seen since the previous refresh (saturating, so
    /// they never decrease), and the rates follow the sampling rule of
    /// `NetworkCounters::apply_sample` — in particular, when less than the
    /// minimum interval elapsed the previous rates are retained.
    pub fn refresh(&mut self, now_ms: u64)
        ensures
            final(self).spec_counters().last_update_ms == now_ms,
            final(self).spec_counters().total_received >= old(self).spec_counters().total_received,
            final(self).spec_counters().total_transmitted >= old(
                self,
            ).spec_counters().total_transmitted,
            now_ms.saturating_sub(old(self).spec_counters().last_update_ms)
                < MIN_RATE_INTERVAL_MS ==> {
                &&& final(self).spec_counters().rx_rate == old(self).spec_counters().rx_rate
                &&& final(self).spec_counters().tx_rate == old(self).spec_counters().tx_rate
            },
            exists|new_rx: u64, new_tx: u64|
                {
                    &&& new_rx >= old(self).spec_counters().total_received
                    &&& new_tx >= old(self).spec_counters().total_transmitted
                    &&& final(self).spec_counters() == #[trigger] spec_apply_sample(
                        old(self).spec_counters(),
                        now_ms,
                        new_rx,
                        new_tx,
                    )
                },
    {
        probe::networks_refresh(&mut self.networks);
        let deltas = probe::interface_deltas(&self.networks);
        let sums = sum_deltas(&deltas);
        let new_rx = self.counters.total_received.saturating_add(sums.0);
        let new_tx = self.counters.total_transmitted.saturating_add(sums.1);
        self.counters.apply_sample(now_ms, new_rx, new_tx);
    }

    /// The current counter state: totals, rates and last sample instant.
    pub fn counters(&self) -> (counters: NetworkCounters)
        ensures
            counters == self.spec_counters(),
    {
        self.counters
    }

    /// Download rate of the last meaningful interval, in bytes per second.
    pub fn rx_rate(&self) -> (rate: u64)
        ensures
            rate == self.spec_counters().rx_rate,
    {
        self.counters.rx_rate
    }

    /// Upload rate of the last meaningful interval, in bytes per second.
    pub fn tx_rate(&self) -> (rate: u64)
        ensures
            rate == self.spec_counters().tx_rate,
    {
        self.counters.tx_rate
    }

    /// Bytes received since construction (saturating).
    pub fn total_received(&self) -> (bytes: u64)
        ensures
            bytes == self.spec_counters().total_received,
    {
        self.counters.total_received
    }

    /// Bytes transmitted since construction (saturating).
    pub fn total_transmitted(&self) -> (bytes: u64)
        ensures
            bytes == self.spec_counters().total_transmitted,
    {
        self.counters.total_transmitted
    }
}

} // verus!
