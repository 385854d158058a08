//! The tick loop as a state machine.
//!
//! The thread that produces ticks asks the scheduler what to do next, does it
//! (sleeps, hashes a batch under the hash-chain lock, finalizes a tick under
//! the recorder lock, spins, emits counters, reads the exit signal, logs a
//! warning), and reports back what happened. Every decision of the loop is
//! taken here.
use vstd::prelude::*;
use crate::config::{
    strategy_of, adjustment_per_tick_spec, tick_budget_ns, Strategy, TickConfig,
    TARGET_SLOT_ADJUSTMENT_NS,
};
use crate::metrics::{MetricsReport, TickMetrics};

verus! {

/// What the loop is waiting on: the outcome of the last action handed out.
#[derive(Clone, Copy, Debug, PartialEq, Eq, Structural)]
pub enum Phase {
    Start,
    Sleeping,
    Hashing,
    Ticking,
    Spinning,
    Flushing,
    ReadingExit,
    Warning,
    Done,
}

/// What happened since the last action.
#[derive(Clone, Copy, Debug, PartialEq, Eq, Structural)]
pub enum Event {
    /// The thread has started.
    Started,
    /// A sleep of one tick duration has ended.
    Slept,
    /// A batch was hashed; `should_tick` when it completed a tick's quota.
    Hashed { lock_ns: u64, hash_ns: u64, should_tick: bool },
    /// A tick was finalized; `elapsed_ns` is the time since the previous tick
    /// read right after it. Only the realtime strategy uses the timings.
    TickFinalized { lock_ns: u64, tick_ns: u64, elapsed_ns: u64 },
    /// The busy-wait ended; `elapsed_ns` is the time since the previous tick,
    /// `since_flush_us` the time since the last flush of the counters.
    Spun { elapsed_ns: u64, since_flush_us: u64 },
    /// The counters were emitted.
    Flushed,
    /// The exit signal was read.
    ExitRead { exit: bool },
    /// The warning was logged.
    Warned,
}

/// What the loop is to do next.
#[derive(Clone, Copy, Debug, PartialEq, Eq, Structural)]
pub enum Action {
    /// Sleep `ns` nanoseconds.
    Sleep { ns: u64 },
    /// Advance the hash chain by `hashes` iterations under its lock.
    HashBatch { hashes: u64 },
    /// Finalize a tick under the recorder lock.
    FinalizeTick,
    /// Busy-wait until `ns` nanoseconds have passed since the previous tick.
    SpinUntil { ns: u64 },
    /// Emit these counters to telemetry.
    Flush { report: MetricsReport },
    /// Read the exit signal.
    ReadExit,
    /// Log once that the exit signal is ignored by a bounded run.
    Warn,
    /// Leave the loop; the owner then sets the exit signal.
    Stop,
}

/// Interval between two flushes of the counters, in milliseconds.
pub const METRICS_INTERVAL_MS: u64 = 1000;

/// State of one run of the tick loop.
#[derive(Clone, Copy, Debug, PartialEq, Eq, Structural)]
pub struct TickScheduler {
    pub strategy: Strategy,
    pub phase: Phase,
    /// Sleep per tick for the sleeping strategies, time budget per tick for
    /// the realtime one.
    pub tick_ns: u64,
    pub ticks_per_slot: u64,
    pub hashes_per_batch: u64,
    /// Ticks still owed by a bounded run.
    pub ticks_left: u64,
    /// Whether the ignored exit signal has been reported.
    pub warned: bool,
    /// Time since the previous tick, read right after the current one.
    pub tick_elapsed_ns: u64,
    pub metrics: TickMetrics,
}

/// The state in which a run starts.
pub open spec fn initial(strategy: Strategy, tick_ns: u64, ticks_per_slot: u64, hashes_per_batch: u64) -> TickScheduler {
    TickScheduler {
        strategy,
        phase: Phase::Start,
        tick_ns,
        ticks_per_slot,
        hashes_per_batch,
        ticks_left: match strategy {
            Strategy::ShortLived { ticks } => ticks,
            _ => 0,
        },
        warned: false,
        tick_elapsed_ns: 0,
        metrics: TickMetrics::zero(),
    }
}

/// Whether `e` is a possible outcome of the action that `s` waits on.
pub open spec fn accepts(s: TickScheduler, e: Event) -> bool {
    match e {
        Event::Started => s.phase == Phase::Start,
        Event::Slept => s.phase == Phase::Sleeping,
        Event::Hashed { .. } => s.phase == Phase::Hashing,
        Event::TickFinalized { .. } => s.phase == Phase::Ticking,
        Event::Spun { elapsed_ns, .. } => s.phase == Phase::Spinning && elapsed_ns >= s.tick_elapsed_ns,
        Event::Flushed => s.phase == Phase::Flushing,
        Event::ExitRead { .. } => s.phase == Phase::ReadingExit,
        Event::Warned => s.phase == Phase::Warning,
    }
}

/// Whether the counters are due for a flush after `since_flush_us`.
pub open spec fn flush_due(since_flush_us: u64) -> bool {
    since_flush_us / 1000 > METRICS_INTERVAL_MS
}

/// A bounded run goes on sleeping while it owes ticks, and stops when it owes none.
pub open spec fn continue_bounded(s: TickScheduler) -> (TickScheduler, Action) {
    if s.ticks_left > 0 {
        (TickScheduler { phase: Phase::Sleeping, ..s }, Action::Sleep { ns: s.tick_ns })
    } else {
        (TickScheduler { phase: Phase::Done, ..s }, Action::Stop)
    }
}

/// The next state and action after event `e` in state `s`.
pub open spec fn next(s: TickScheduler, e: Event) -> (TickScheduler, Action) {
    match e {
        Event::Started => match s.strategy {
            Strategy::Sleepy => (TickScheduler { phase: Phase::ReadingExit, ..s }, Action::ReadExit),
            Strategy::ShortLived { .. } => continue_bounded(s),
            Strategy::Realtime { .. } => (
                TickScheduler { phase: Phase::Hashing, ..s },
                Action::HashBatch { hashes: s.hashes_per_batch },
            ),
        },
        Event::Slept => (TickScheduler { phase: Phase::Ticking, ..s }, Action::FinalizeTick),
        Event::Hashed { lock_ns, hash_ns, should_tick } => {
            let m = s.metrics.with_batch(s.hashes_per_batch, lock_ns, hash_ns);
            if should_tick {
                (TickScheduler { phase: Phase::Ticking, metrics: m, ..s }, Action::FinalizeTick)
            } else {
                (TickScheduler { metrics: m, ..s }, Action::HashBatch { hashes: s.hashes_per_batch })
            }
        },
        Event::TickFinalized { lock_ns, tick_ns, elapsed_ns } => match s.strategy {
            Strategy::Realtime { .. } => (
                TickScheduler {
                    phase: Phase::Spinning,
                    tick_elapsed_ns: elapsed_ns,
                    metrics: s.metrics.with_tick(lock_ns, tick_ns),
                    ..s
                },
                Action::SpinUntil { ns: s.tick_ns },
            ),
            Strategy::ShortLived { .. } => (
                TickScheduler { phase: Phase::ReadingExit, ticks_left: (s.ticks_left - 1) as u64, ..s },
                Action::ReadExit,
            ),
            Strategy::Sleepy => (TickScheduler { phase: Phase::ReadingExit, ..s }, Action::ReadExit),
        },
        Event::Spun { elapsed_ns, since_flush_us } => {
            let m = s.metrics.with_sleep(((elapsed_ns - s.tick_elapsed_ns) / 1000) as u64);
            if flush_due(since_flush_us) {
                (
                    TickScheduler { phase: Phase::Flushing, metrics: TickMetrics::zero(), ..s },
                    Action::Flush { report: m.report_spec(since_flush_us, s.ticks_per_slot) },
                )
            } else {
                (TickScheduler { phase: Phase::ReadingExit, metrics: m, ..s }, Action::ReadExit)
            }
        },
        Event::Flushed => (TickScheduler { phase: Phase::ReadingExit, ..s }, Action::ReadExit),
        Event::ExitRead { exit } => match s.strategy {
            Strategy::ShortLived { .. } => if exit && !s.warned {
                (TickScheduler { phase: Phase::Warning, warned: true, ..s }, Action::Warn)
            } else {
                continue_bounded(s)
            },
            Strategy::Sleepy => if exit {
                (TickScheduler { phase: Phase::Done, ..s }, Action::Stop)
            } else {
                (TickScheduler { phase: Phase::Sleeping, ..s }, Action::Sleep { ns: s.tick_ns })
            },
            Strategy::Realtime { .. } => if exit {
                (TickScheduler { phase: Phase::Done, ..s }, Action::Stop)
            } else {
                (TickScheduler { phase: Phase::Hashing, ..s }, Action::HashBatch { hashes: s.hashes_per_batch })
            },
        },
        Event::Warned => continue_bounded(s),
    }
}

impl TickScheduler {
    /// The state of a run: the strategy and phase agree, a bounded run owes
    /// no more than it was given and owes a tick while sleeping or
    /// finalizing, and the realtime totals hold a tick while spinning.
    pub open spec fn wf(self) -> bool {
        &&& match self.strategy {
            Strategy::Sleepy => !(self.phase is Hashing || self.phase is Spinning
                || self.phase is Flushing || self.phase is Warning),
            Strategy::ShortLived { ticks } => {
                &&& self.ticks_left <= ticks
                &&& (self.phase is Sleeping || self.phase is Ticking) ==> self.ticks_left > 0
                &&& !(self.phase is Hashing || self.phase is Spinning || self.phase is Flushing)
            },
            Strategy::Realtime { .. } => !(self.phase is Sleeping || self.phase is Warning),
        }
        &&& self.phase is Spinning ==> self.metrics.num_ticks > 0
    }

    /// A run of the strategy that `config` selects, for slots of
    /// `ticks_per_slot` ticks, hashing `hashes_per_batch` iterations per lock.
    /// A realtime run gets the configured tick duration less its share of
    /// the slot adjustment; a sleeping run sleeps the configured duration.
    pub fn new(config: &TickConfig, ticks_per_slot: u64, hashes_per_batch: u64) -> (r: TickScheduler)
        requires
            config.hashes_per_tick is Some ==> config.target_tick_ns >= adjustment_per_tick_spec(
                TARGET_SLOT_ADJUSTMENT_NS,
                ticks_per_slot,
            ),
        ensures
            r == initial(
                strategy_of(*config),
                if config.hashes_per_tick is Some {
                    (config.target_tick_ns - adjustment_per_tick_spec(
                        TARGET_SLOT_ADJUSTMENT_NS,
                        ticks_per_slot,
                    )) as u64
                } else {
                    config.target_tick_ns
                },
                ticks_per_slot,
                hashes_per_batch,
            ),
            r.wf(),
    {
        let strategy = config.strategy();
        let tick_ns = match strategy {
            Strategy::Realtime { .. } => tick_budget_ns(
                config.target_tick_ns,
                TARGET_SLOT_ADJUSTMENT_NS,
                ticks_per_slot,
            ),
            _ => config.target_tick_ns,
        };
        let ticks_left = match strategy {
            Strategy::ShortLived { ticks } => ticks,
            _ => 0,
        };
        TickScheduler {
            strategy,
            phase: Phase::Start,
            tick_ns,
            ticks_per_slot,
            hashes_per_batch,
            ticks_left,
            warned: false,
            tick_elapsed_ns: 0,
            metrics: TickMetrics::new(),
        }
    }

    /// Whether `e` can be handed to `step` in this state.
    pub fn accepts(&self, e: &Event) -> (r: bool)
        ensures
            r == accepts(*self, *e),
    {
        match e {
            Event::Started => self.phase == Phase::Start,
            Event::Slept => self.phase == Phase::Sleeping,
            Event::Hashed { .. } => self.phase == Phase::Hashing,
            Event::TickFinalized { .. } => self.phase == Phase::Ticking,
            Event::Spun { elapsed_ns, .. } => self.phase == Phase::Spinning && *elapsed_ns
                >= self.tick_elapsed_ns,
            Event::Flushed => self.phase == Phase::Flushing,
            Event::ExitRead { .. } => self.phase == Phase::ReadingExit,
            Event::Warned => self.phase == Phase::Warning,
        }
    }

    fn continue_bounded(&mut self) -> (a: Action)
        ensures
            (*final(self), a) == continue_bounded(*old(self)),
    {
        if self.ticks_left > 0 {
            self.phase = Phase::Sleeping;
            Action::Sleep { ns: self.tick_ns }
        } else {
            self.phase = Phase::Done;
            Action::Stop
        }
    }

    /// Takes the outcome `e` of the last action and decides the next one.
    pub fn step(&mut self, e: Event) -> (a: Action)
        requires
            old(self).wf(),
            accepts(*old(self), e),
        ensures
            (*final(self), a) == next(*old(self), e),
            final(self).wf(),
    {
        match e {
            Event::Started => match self.strategy {
                Strategy::Sleepy => {
                    self.phase = Phase::ReadingExit;
                    Action::ReadExit
                },
                Strategy::ShortLived { .. } => self.continue_bounded(),
                Strategy::Realtime { .. } => {
                    self.phase = Phase::Hashing;
                    Action::HashBatch { hashes: self.hashes_per_batch }
                },
            },
            Event::Slept => {
                self.phase = Phase::Ticking;
                Action::FinalizeTick
            },
            Event::Hashed { lock_ns, hash_ns, should_tick } => {
                self.metrics.add_batch(self.hashes_per_batch, lock_ns, hash_ns);
                if should_tick {
                    self.phase = Phase::Ticking;
                    Action::FinalizeTick
                } else {
                    Action::HashBatch { hashes: self.hashes_per_batch }
                }
            },
            Event::TickFinalized { lock_ns, tick_ns, elapsed_ns } => match self.strategy {
                Strategy::Realtime { .. } => {
                    self.phase = Phase::Spinning;
                    self.tick_elapsed_ns = elapsed_ns;
                    self.metrics.add_tick(lock_ns, tick_ns);
                    Action::SpinUntil { ns: self.tick_ns }
                },
                Strategy::ShortLived { .. } => {
                    self.phase = Phase::ReadingExit;
                    self.ticks_left = self.ticks_left - 1;
                    Action::ReadExit
                },
                Strategy::Sleepy => {
                    self.phase = Phase::ReadingExit;
                    Action::ReadExit
                },
            },
            Event::Spun { elapsed_ns, since_flush_us } => {
                self.metrics.add_sleep((elapsed_ns - self.tick_elapsed_ns) / 1000);
                if since_flush_us / 1000 > METRICS_INTERVAL_MS {
                    let report = self.metrics.report(since_flush_us, self.ticks_per_slot);
                    self.phase = Phase::Flushing;
                    self.metrics = TickMetrics::new();
                    Action::Flush { report }
                } else {
                    self.phase = Phase::ReadingExit;
                    Action::ReadExit
                }
            },
            Event::Flushed => {
                self.phase = Phase::ReadingExit;
                Action::ReadExit
            },
            Event::ExitRead { exit } => match self.strategy {
                Strategy::ShortLived { .. } => if exit && !self.warned {
                    self.phase = Phase::Warning;
                    self.warned = true;
                    Action::Warn
                } else {
                    self.continue_bounded()
                },
                Strategy::Sleepy => if exit {
                    self.phase = Phase::Done;
                    Action::Stop
                } else {
                    self.phase = Phase::Sleeping;
                    Action::Sleep { ns: self.tick_ns }
                },
                Strategy::Realtime { .. } => if exit {
                    self.phase = Phase::Done;
                    Action::Stop
                } else {
                    self.phase = Phase::Hashing;
                    Action::HashBatch { hashes: self.hashes_per_batch }
                },
            },
            Event::Warned => self.continue_bounded(),
        }
    }
}

} // verus!
