//! Timing configuration and the choice of tick strategy it implies.
use vstd::prelude::*;

verus! {

/// Hash iterations performed per acquisition of the hash-chain lock.
/// Too small a batch lowers the hash rate; too large a batch makes recording
/// wait longer on the hash-chain lock.
pub const DEFAULT_HASHES_PER_BATCH: u64 = 64;

/// Logical core that the realtime tick thread is pinned to by default.
pub const DEFAULT_PINNED_CPU_CORE: usize = 0;

/// Time reserved in every slot for work outside hashing, in nanoseconds.
/// It is spread evenly over the ticks of a slot.
pub const TARGET_SLOT_ADJUSTMENT_NS: u64 = 50_000_000;

/// How ticks are to be produced, as read from the node's configuration.
pub struct TickConfig {
    /// Hash iterations per tick; absent for the sleeping strategies.
    pub hashes_per_tick: Option<u64>,
    /// Target duration of one tick, in nanoseconds.
    pub target_tick_ns: u64,
    /// Number of ticks after which a sleeping producer stops by itself.
    pub target_tick_count: Option<u64>,
}

/// The three ways of producing ticks.
#[derive(Clone, Copy, Debug, PartialEq, Eq, Structural)]
pub enum Strategy {
    /// Sleep one tick duration, finalize a tick, until the exit signal is seen.
    Sleepy,
    /// Sleep and finalize exactly `ticks` times, whatever the exit signal says.
    ShortLived { ticks: u64 },
    /// Hash in batches and spin until each tick's deadline.
    Realtime { hashes_per_tick: u64 },
}

/// The strategy that a configuration selects.
pub open spec fn strategy_of(c: TickConfig) -> Strategy {
    match c.hashes_per_tick {
        Some(h) => Strategy::Realtime { hashes_per_tick: h },
        None => match c.target_tick_count {
            Some(n) => Strategy::ShortLived { ticks: n },
            None => Strategy::Sleepy,
        },
    }
}

/// The share of a slot's reserved time that falls on one tick.
pub open spec fn adjustment_per_tick_spec(slot_adjustment_ns: u64, ticks_per_slot: u64) -> u64 {
    if ticks_per_slot > 0 {
        slot_adjustment_ns / ticks_per_slot
    } else {
        0
    }
}

impl TickConfig {
    /// Selects the tick strategy: hashing when hashes per tick are set,
    /// otherwise sleeping, bounded when a tick count is set.
    pub fn strategy(&self) -> (r: Strategy)
        ensures
            r == strategy_of(*self),
    {
        match self.hashes_per_tick {
            Some(h) => Strategy::Realtime { hashes_per_tick: h },
            None => match self.target_tick_count {
                Some(n) => Strategy::ShortLived { ticks: n },
                None => Strategy::Sleepy,
            },
        }
    }
}

/// The share of `slot_adjustment_ns` that each of a slot's ticks gives up;
/// nothing when a slot has no ticks.
pub fn adjustment_per_tick(slot_adjustment_ns: u64, ticks_per_slot: u64) -> (r: u64)
    ensures
        r == adjustment_per_tick_spec(slot_adjustment_ns, ticks_per_slot),
        r <= slot_adjustment_ns,
{
    if ticks_per_slot > 0 {
        slot_adjustment_ns / ticks_per_slot
    } else {
        0
    }
}

/// Time budget of one realtime tick: the configured tick duration less
/// the tick's share of the slot adjustment.
pub fn tick_budget_ns(target_tick_ns: u64, slot_adjustment_ns: u64, ticks_per_slot: u64) -> (r: u64)
    requires
        target_tick_ns >= adjustment_per_tick_spec(slot_adjustment_ns, ticks_per_slot),
    ensures
        r == target_tick_ns - adjustment_per_tick_spec(slot_adjustment_ns, ticks_per_slot),
{
    target_tick_ns - adjustment_per_tick(slot_adjustment_ns, ticks_per_slot)
}

/// Whether a busy-wait towards `deadline_ns` may end after `elapsed_ns`.
pub fn spin_finished(deadline_ns: u64, elapsed_ns: u64) -> (r: bool)
    ensures
        r == (elapsed_ns >= deadline_ns),
{
    elapsed_ns >= deadline_ns
}

} // verus!
