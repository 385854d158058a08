use poh_service::config::{
    adjustment_per_tick, spin_finished, tick_budget_ns, Strategy, TickConfig,
    DEFAULT_HASHES_PER_BATCH, TARGET_SLOT_ADJUSTMENT_NS,
};
use poh_service::metrics::{MetricsReport, TickMetrics};
use poh_service::scheduler::{Action, Event, Phase, TickScheduler};

fn realtime_config(hashes_per_tick: u64, target_tick_ns: u64) -> TickConfig {
    TickConfig {
        hashes_per_tick: Some(hashes_per_tick),
        target_tick_ns,
        target_tick_count: None,
    }
}

fn sleepy_config(target_tick_ns: u64, count: Option<u64>) -> TickConfig {
    TickConfig {
        hashes_per_tick: None,
        target_tick_ns,
        target_tick_count: count,
    }
}

fn finalized() -> Event {
    Event::TickFinalized {
        lock_ns: 0,
        tick_ns: 0,
        elapsed_ns: 0,
    }
}

#[test]
fn strategy_follows_configuration() {
    assert_eq!(sleepy_config(10, None).strategy(), Strategy::Sleepy);
    assert_eq!(
        sleepy_config(10, Some(3)).strategy(),
        Strategy::ShortLived { ticks: 3 }
    );
    assert_eq!(
        realtime_config(4, 10).strategy(),
        Strategy::Realtime { hashes_per_tick: 4 }
    );
    // A tick count is not consulted once hashes per tick are set.
    let c = TickConfig {
        hashes_per_tick: Some(12_500),
        target_tick_ns: 10,
        target_tick_count: Some(7),
    };
    assert_eq!(c.strategy(), Strategy::Realtime { hashes_per_tick: 12_500 });
}

#[test]
fn slot_adjustment_is_spread_over_ticks() {
    assert_eq!(adjustment_per_tick(TARGET_SLOT_ADJUSTMENT_NS, 64), 781_250);
    assert_eq!(adjustment_per_tick(TARGET_SLOT_ADJUSTMENT_NS, 4), 12_500_000);
    assert_eq!(adjustment_per_tick(TARGET_SLOT_ADJUSTMENT_NS, 0), 0);
    assert_eq!(tick_budget_ns(6_250_000, TARGET_SLOT_ADJUSTMENT_NS, 64), 5_468_750);
    assert_eq!(tick_budget_ns(6_250_000, TARGET_SLOT_ADJUSTMENT_NS, 0), 6_250_000);
}

#[test]
fn spin_ends_at_deadline() {
    assert!(!spin_finished(1000, 999));
    assert!(spin_finished(1000, 1000));
    assert!(spin_finished(1000, 5000));
}

#[test]
fn scheduler_start_states() {
    let s = TickScheduler::new(&realtime_config(4, 20_000_000), 4, DEFAULT_HASHES_PER_BATCH);
    assert_eq!(s.phase, Phase::Start);
    assert_eq!(s.tick_ns, 7_500_000);
    assert_eq!(s.hashes_per_batch, 64);
    let s = TickScheduler::new(&sleepy_config(10_000_000, None), 4, 64);
    assert_eq!(s.tick_ns, 10_000_000);
    let s = TickScheduler::new(&sleepy_config(10_000_000, Some(5)), 4, 64);
    assert_eq!(s.ticks_left, 5);
}

#[test]
fn realtime_totals_after_one_slot() {
    let mut s = TickScheduler::new(&realtime_config(4, 20_000_000), 4, 4);
    assert_eq!(s.step(Event::Started), Action::HashBatch { hashes: 4 });
    let mut report = None;
    for tick in 0..4u64 {
        let a = s.step(Event::Hashed {
            lock_ns: 10,
            hash_ns: 100,
            should_tick: true,
        });
        assert_eq!(a, Action::FinalizeTick);
        let a = s.step(Event::TickFinalized {
            lock_ns: 20,
            tick_ns: 2000,
            elapsed_ns: 1_000_000,
        });
        assert_eq!(a, Action::SpinUntil { ns: 7_500_000 });
        if tick < 3 {
            let a = s.step(Event::Spun {
                elapsed_ns: 7_500_000,
                since_flush_us: 30_000,
            });
            assert_eq!(a, Action::ReadExit);
            assert_eq!(s.metrics.num_ticks, tick + 1);
            assert_eq!(s.metrics.num_hashes, 4 * (tick + 1));
            let a = s.step(Event::ExitRead { exit: false });
            assert_eq!(a, Action::HashBatch { hashes: 4 });
        } else {
            match s.step(Event::Spun {
                elapsed_ns: 7_500_000,
                since_flush_us: 1_001_000,
            }) {
                Action::Flush { report: r } => report = Some(r),
                other => panic!("expected a flush, got {:?}", other),
            }
        }
    }
    let r = report.unwrap();
    assert_eq!(
        r,
        MetricsReport {
            ticks: 4,
            hashes: 16,
            elapsed_us: 1_001_000,
            total_sleep_us: 4 * 6500,
            total_tick_time_us: 8,
            total_lock_time_us: 0,
            total_hash_time_us: 0,
        }
    );
    assert_eq!(s.metrics, TickMetrics::new());
    assert_eq!(s.step(Event::Flushed), Action::ReadExit);
    assert_eq!(s.step(Event::ExitRead { exit: true }), Action::Stop);
    assert_eq!(s.phase, Phase::Done);
}

#[test]
fn realtime_partial_batches_do_not_tick() {
    let mut s = TickScheduler::new(&realtime_config(128, 20_000_000), 0, 64);
    assert_eq!(s.tick_ns, 20_000_000);
    s.step(Event::Started);
    let a = s.step(Event::Hashed {
        lock_ns: 0,
        hash_ns: 0,
        should_tick: false,
    });
    assert_eq!(a, Action::HashBatch { hashes: 64 });
    assert_eq!(s.phase, Phase::Hashing);
    assert_eq!(s.metrics.num_hashes, 64);
    assert_eq!(s.metrics.num_ticks, 0);
    // The exit signal is not read between batches.
    assert!(!s.accepts(&Event::ExitRead { exit: true }));
}

#[test]
fn realtime_flush_reports_time_per_slot() {
    let mut s = TickScheduler::new(&realtime_config(64, 20_000_000), 64, 64);
    s.step(Event::Started);
    s.step(Event::Hashed {
        lock_ns: 3000,
        hash_ns: 5000,
        should_tick: true,
    });
    s.step(Event::TickFinalized {
        lock_ns: 1000,
        tick_ns: 7000,
        elapsed_ns: 2_000_000,
    });
    let a = s.step(Event::Spun {
        elapsed_ns: 3_500_000,
        since_flush_us: 2_000_000,
    });
    assert_eq!(
        a,
        Action::Flush {
            report: MetricsReport {
                ticks: 1,
                hashes: 64,
                elapsed_us: 128_000_000,
                total_sleep_us: 1500,
                total_tick_time_us: 7,
                total_lock_time_us: 4,
                total_hash_time_us: 5,
            }
        }
    );
    // Exactly one second since the last flush is not yet due.
    let mut s = TickScheduler::new(&realtime_config(64, 20_000_000), 64, 64);
    s.step(Event::Started);
    s.step(Event::Hashed {
        lock_ns: 0,
        hash_ns: 0,
        should_tick: true,
    });
    s.step(finalized());
    let a = s.step(Event::Spun {
        elapsed_ns: 0,
        since_flush_us: 1_000_999,
    });
    assert_eq!(a, Action::ReadExit);
}

#[test]
fn metrics_saturate() {
    let mut m = TickMetrics::new();
    m.add_batch(u64::MAX, 1, 1);
    m.add_batch(5, u64::MAX, 0);
    assert_eq!(m.num_hashes, u64::MAX);
    assert_eq!(m.total_lock_time_ns, u64::MAX);
    m.add_tick(0, 9);
    m.add_sleep(12);
    assert_eq!(m.num_ticks, 1);
    assert_eq!(m.total_tick_time_ns, 9);
    assert_eq!(m.total_sleep_us, 12);
    let r = m.report(u64::MAX, u64::MAX);
    assert_eq!(r.elapsed_us, (u64::MAX as u128) * (u64::MAX as u128));
}

#[test]
fn sleepy_ticks_every_ten_milliseconds() {
    let tick = 10_000_000u64;
    let mut s = TickScheduler::new(&sleepy_config(tick, None), 64, 64);
    let mut clock_ns = 0u64;
    let mut ticks = 0u64;
    let mut a = s.step(Event::Started);
    let mut exit = false;
    loop {
        let e = match a {
            Action::ReadExit => Event::ExitRead { exit },
            Action::Sleep { ns } => {
                assert_eq!(ns, tick);
                clock_ns += ns;
                if clock_ns > 105_000_000 {
                    // The exit signal is set while this sleep is under way.
                    exit = true;
                }
                Event::Slept
            }
            Action::FinalizeTick => {
                ticks += 1;
                if !exit {
                    assert!(ticks * tick <= clock_ns);
                }
                finalized()
            }
            Action::Stop => break,
            other => panic!("unexpected action {:?}", other),
        };
        a = s.step(e);
    }
    assert!(ticks >= 10);
    assert_eq!(ticks, 11);
    assert_eq!(s.phase, Phase::Done);
}

#[test]
fn sleepy_checks_exit_before_first_sleep() {
    let mut s = TickScheduler::new(&sleepy_config(10, None), 0, 1);
    assert_eq!(s.step(Event::Started), Action::ReadExit);
    assert_eq!(s.step(Event::ExitRead { exit: true }), Action::Stop);
}

fn run_bounded(n: u64, exit_at_read: &dyn Fn(u64) -> bool) -> (u64, u64) {
    let mut s = TickScheduler::new(&sleepy_config(1000, Some(n)), 8, 8);
    let mut ticks = 0u64;
    let mut warnings = 0u64;
    let mut reads = 0u64;
    let mut a = s.step(Event::Started);
    loop {
        let e = match a {
            Action::Sleep { ns } => {
                assert_eq!(ns, 1000);
                Event::Slept
            }
            Action::FinalizeTick => {
                ticks += 1;
                finalized()
            }
            Action::ReadExit => {
                reads += 1;
                Event::ExitRead {
                    exit: exit_at_read(reads),
                }
            }
            Action::Warn => {
                warnings += 1;
                Event::Warned
            }
            Action::Stop => break,
            other => panic!("unexpected action {:?}", other),
        };
        a = s.step(e);
    }
    assert_eq!(s.ticks_left, 0);
    (ticks, warnings)
}

#[test]
fn bounded_run_ignores_exit_signal() {
    assert_eq!(run_bounded(3, &|_| true), (3, 1));
    assert_eq!(run_bounded(3, &|_| false), (3, 0));
    assert_eq!(run_bounded(5, &|r| r >= 2), (5, 1));
    assert_eq!(run_bounded(0, &|_| true), (0, 0));
}

#[test]
fn bounded_run_of_zero_stops_at_once() {
    let mut s = TickScheduler::new(&sleepy_config(1000, Some(0)), 8, 8);
    assert_eq!(s.step(Event::Started), Action::Stop);
    assert_eq!(s.phase, Phase::Done);
    assert!(!s.accepts(&Event::Started));
}

#[test]
fn events_out_of_turn_are_refused() {
    let s = TickScheduler::new(&realtime_config(4, 20_000_000), 4, 4);
    assert!(s.accepts(&Event::Started));
    assert!(!s.accepts(&Event::Slept));
    assert!(!s.accepts(&finalized()));
    let mut s = s;
    s.step(Event::Started);
    s.step(Event::Hashed {
        lock_ns: 0,
        hash_ns: 0,
        should_tick: true,
    });
    s.step(Event::TickFinalized {
        lock_ns: 0,
        tick_ns: 0,
        elapsed_ns: 500,
    });
    // The clock cannot run backwards between the tick and the end of the spin.
    assert!(!s.accepts(&Event::Spun {
        elapsed_ns: 499,
        since_flush_us: 0
    }));
    assert!(s.accepts(&Event::Spun {
        elapsed_ns: 500,
        since_flush_us: 0
    }));
}
