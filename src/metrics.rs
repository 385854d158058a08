//! Running totals of the realtime tick loop and the report made of them.
use vstd::prelude::*;

verus! {

/// `a + b`, held at `u64::MAX` instead of wrapping.
pub open spec fn sat_add(a: u64, b: u64) -> u64 {
    if a + b > u64::MAX {
        u64::MAX
    } else {
        (a + b) as u64
    }
}

/// Totals gathered since the last flush.
#[derive(Clone, Copy, Debug, PartialEq, Eq, Structural)]
pub struct TickMetrics {
    pub num_ticks: u64,
    pub num_hashes: u64,
    pub total_sleep_us: u64,
    pub total_lock_time_ns: u64,
    pub total_hash_time_ns: u64,
    pub total_tick_time_ns: u64,
}

/// Counters handed to telemetry on a flush.
#[derive(Clone, Copy, Debug, PartialEq, Eq, Structural)]
pub struct MetricsReport {
    pub ticks: u64,
    pub hashes: u64,
    /// Elapsed time scaled to one slot: `elapsed_us * ticks_per_slot / ticks`.
    pub elapsed_us: u128,
    pub total_sleep_us: u64,
    pub total_tick_time_us: u64,
    pub total_lock_time_us: u64,
    pub total_hash_time_us: u64,
}

impl TickMetrics {
    pub open spec fn zero() -> TickMetrics {
        TickMetrics {
            num_ticks: 0,
            num_hashes: 0,
            total_sleep_us: 0,
            total_lock_time_ns: 0,
            total_hash_time_ns: 0,
            total_tick_time_ns: 0,
        }
    }

    /// The totals after one batch of `hashes` iterations.
    pub open spec fn with_batch(self, hashes: u64, lock_ns: u64, hash_ns: u64) -> TickMetrics {
        TickMetrics {
            num_hashes: sat_add(self.num_hashes, hashes),
            total_lock_time_ns: sat_add(self.total_lock_time_ns, lock_ns),
            total_hash_time_ns: sat_add(self.total_hash_time_ns, hash_ns),
            ..self
        }
    }

    /// The totals after one finalized tick.
    pub open spec fn with_tick(self, lock_ns: u64, tick_ns: u64) -> TickMetrics {
        TickMetrics {
            num_ticks: sat_add(self.num_ticks, 1),
            total_lock_time_ns: sat_add(self.total_lock_time_ns, lock_ns),
            total_tick_time_ns: sat_add(self.total_tick_time_ns, tick_ns),
            ..self
        }
    }

    /// The totals after `us` more microseconds of waiting.
    pub open spec fn with_sleep(self, us: u64) -> TickMetrics {
        TickMetrics { total_sleep_us: sat_add(self.total_sleep_us, us), ..self }
    }

    /// The report of these totals over `elapsed_us` microseconds.
    pub open spec fn report_spec(self, elapsed_us: u64, ticks_per_slot: u64) -> MetricsReport
        recommends
            self.num_ticks > 0,
    {
        MetricsReport {
            ticks: self.num_ticks,
            hashes: self.num_hashes,
            elapsed_us: ((elapsed_us * ticks_per_slot) / (self.num_ticks as int)) as u128,
            total_sleep_us: self.total_sleep_us,
            total_tick_time_us: self.total_tick_time_ns / 1000,
            total_lock_time_us: self.total_lock_time_ns / 1000,
            total_hash_time_us: self.total_hash_time_ns / 1000,
        }
    }

    pub fn new() -> (r: TickMetrics)
        ensures
            r == TickMetrics::zero(),
    {
        TickMetrics {
            num_ticks: 0,
            num_hashes: 0,
            total_sleep_us: 0,
            total_lock_time_ns: 0,
            total_hash_time_ns: 0,
            total_tick_time_ns: 0,
        }
    }

    pub fn add_batch(&mut self, hashes: u64, lock_ns: u64, hash_ns: u64)
        ensures
            *final(self) == old(self).with_batch(hashes, lock_ns, hash_ns),
    {
        self.num_hashes = self.num_hashes.saturating_add(hashes);
        self.total_lock_time_ns = self.total_lock_time_ns.saturating_add(lock_ns);
        self.total_hash_time_ns = self.total_hash_time_ns.saturating_add(hash_ns);
    }

    pub fn add_tick(&mut self, lock_ns: u64, tick_ns: u64)
        ensures
            *final(self) == old(self).with_tick(lock_ns, tick_ns),
    {
        self.num_ticks = self.num_ticks.saturating_add(1);
        self.total_lock_time_ns = self.total_lock_time_ns.saturating_add(lock_ns);
        self.total_tick_time_ns = self.total_tick_time_ns.saturating_add(tick_ns);
    }

    pub fn add_sleep(&mut self, us: u64)
        ensures
            *final(self) == old(self).with_sleep(us),
    {
        self.total_sleep_us = self.total_sleep_us.saturating_add(us);
    }

    /// The counters to emit, with the elapsed time normalised to one slot.
    pub fn report(&self, elapsed_us: u64, ticks_per_slot: u64) -> (r: MetricsReport)
        requires
            self.num_ticks > 0,
        ensures
            r == self.report_spec(elapsed_us, ticks_per_slot),
    {
        let e = elapsed_us as u128;
        let t = ticks_per_slot as u128;
        assert(e * t <= u64::MAX * u64::MAX) by (nonlinear_arith)
            requires
                e <= u64::MAX,
                t <= u64::MAX,
        ;
        let scaled = e * t;
        let per_slot = scaled / (self.num_ticks as u128);
        assert(per_slot <= scaled) by (nonlinear_arith)
            requires
                per_slot == scaled / (self.num_ticks as u128),
                self.num_ticks > 0,
                scaled >= 0,
        ;
        MetricsReport {
            ticks: self.num_ticks,
            hashes: self.num_hashes,
            elapsed_us: per_slot,
            total_sleep_us: self.total_sleep_us,
            total_tick_time_us: self.total_tick_time_ns / 1000,
            total_lock_time_us: self.total_lock_time_ns / 1000,
            total_hash_time_us: self.total_hash_time_ns / 1000,
        }
    }
}

} // verus!
