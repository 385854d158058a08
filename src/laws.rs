//! What holds of whole runs of the tick loop.
use vstd::prelude::*;
use crate::config::Strategy;
use crate::scheduler::{accepts, flush_due, initial, next, Action, Event, Phase, TickScheduler};

verus! {

/// The state reached from `s` through the events `es`.
pub open spec fn run(s: TickScheduler, es: Seq<Event>) -> TickScheduler
    decreases es.len(),
{
    if es.len() == 0 {
        s
    } else {
        next(run(s, es.drop_last()), es.last()).0
    }
}

/// The actions handed out from `s` in answer to the events `es`, one per event.
pub open spec fn actions(s: TickScheduler, es: Seq<Event>) -> Seq<Action>
    decreases es.len(),
{
    if es.len() == 0 {
        Seq::empty()
    } else {
        actions(s, es.drop_last()).push(next(run(s, es.drop_last()), es.last()).1)
    }
}

/// Whether each event of `es` answers the action that was pending when it came.
pub open spec fn follows(s: TickScheduler, es: Seq<Event>) -> bool
    decreases es.len(),
{
    es.len() == 0 || (follows(s, es.drop_last()) && accepts(run(s, es.drop_last()), es.last()))
}

/// The number of finalized ticks among `es`.
pub open spec fn ticks_in(es: Seq<Event>) -> nat
    decreases es.len(),
{
    if es.len() == 0 {
        0
    } else {
        ticks_in(es.drop_last()) + if es.last() is TickFinalized {
            1nat
        } else {
            0nat
        }
    }
}

/// The number of warnings among `acts`.
pub open spec fn warnings_in(acts: Seq<Action>) -> nat
    decreases acts.len(),
{
    if acts.len() == 0 {
        0
    } else {
        warnings_in(acts.drop_last()) + if acts.last() is Warn {
            1nat
        } else {
            0nat
        }
    }
}

/// Whether every reading of the exit signal among `es` found it set.
pub open spec fn exit_set_throughout(es: Seq<Event>) -> bool {
    forall|i: int| 0 <= i < es.len() && (#[trigger] es[i]) is ExitRead ==> es[i]->exit
}

/// A run keeps its strategy, tick duration and batch size, and hands out
/// one action per event.
pub proof fn lemma_run_keeps_settings(s: TickScheduler, es: Seq<Event>)
    ensures
        run(s, es).strategy == s.strategy,
        run(s, es).tick_ns == s.tick_ns,
        run(s, es).hashes_per_batch == s.hashes_per_batch,
        actions(s, es).len() == es.len(),
    decreases es.len(),
{
    if es.len() > 0 {
        lemma_run_keeps_settings(s, es.drop_last());
    }
}

/// A run that follows the protocol from a well-formed state stays well formed.
pub proof fn lemma_run_wf(s: TickScheduler, es: Seq<Event>)
    requires
        s.wf(),
        follows(s, es),
    ensures
        run(s, es).wf(),
    decreases es.len(),
{
    if es.len() > 0 {
        lemma_run_wf(s, es.drop_last());
    }
}

/// A bounded run of `n` ticks finalizes no more than `n` ticks, and exactly
/// `n` by the time it stops, whatever the exit signal read along the way;
/// it logs the ignored exit signal at most once.
pub proof fn lemma_bounded_run_ticks(
    n: u64,
    tick_ns: u64,
    ticks_per_slot: u64,
    hashes_per_batch: u64,
    es: Seq<Event>,
)
    requires
        follows(initial(Strategy::ShortLived { ticks: n }, tick_ns, ticks_per_slot, hashes_per_batch), es),
    ensures
        ({
            let s0 = initial(Strategy::ShortLived { ticks: n }, tick_ns, ticks_per_slot, hashes_per_batch);
            let s = run(s0, es);
            &&& ticks_in(es) + s.ticks_left == n
            &&& s.phase == Phase::Done ==> ticks_in(es) == n
            &&& warnings_in(actions(s0, es)) == if s.warned { 1nat } else { 0nat }
            &&& warnings_in(actions(s0, es)) <= 1
        }),
    decreases es.len(),
{
    let s0 = initial(Strategy::ShortLived { ticks: n }, tick_ns, ticks_per_slot, hashes_per_batch);
    lemma_bounded_run_invariant(s0, es);
}

proof fn lemma_bounded_run_invariant(s0: TickScheduler, es: Seq<Event>)
    requires
        s0.strategy is ShortLived,
        s0.phase == Phase::Start,
        s0.ticks_left == s0.strategy->ticks,
        !s0.warned,
        s0.wf(),
        follows(s0, es),
    ensures
        ({
            let s = run(s0, es);
            &&& ticks_in(es) + s.ticks_left == s0.ticks_left
            &&& s.phase == Phase::Done ==> s.ticks_left == 0
            &&& warnings_in(actions(s0, es)) == if s.warned { 1nat } else { 0nat }
            &&& s.wf()
            &&& s.strategy == s0.strategy
        }),
    decreases es.len(),
{
    lemma_run_keeps_settings(s0, es);
    if es.len() > 0 {
        let p = es.drop_last();
        lemma_bounded_run_invariant(s0, p);
        let sp = run(s0, p);
        let e = es.last();
        let acts = actions(s0, es);
        assert(acts.drop_last() =~= actions(s0, p));
        assert(acts.last() == next(sp, e).1);
    }
}

/// In a bounded run the exit signal changes nothing but a single warning:
/// after reading it set, and logging the warning where one is due, the run
/// goes on exactly as after reading it clear, which is to sleep towards the
/// next tick while ticks are owed and to stop once none is.
pub proof fn lemma_bounded_run_ignores_exit(s: TickScheduler)
    requires
        s.strategy is ShortLived,
        s.phase == Phase::ReadingExit,
    ensures
        ({
            let (quiet, a) = next(s, Event::ExitRead { exit: false });
            let (loud, b) = next(s, Event::ExitRead { exit: true });
            &&& s.ticks_left > 0 ==> a == (Action::Sleep { ns: s.tick_ns })
            &&& s.ticks_left == 0 ==> a == Action::Stop
            &&& b == Action::Warn ==> next(loud, Event::Warned) == (
            TickScheduler { warned: true, ..quiet }, a)
            &&& b != Action::Warn ==> (loud, b) == (quiet, a)
        }),
{
}

/// In the sleeping strategies every tick is finalized right after a sleep of
/// the full tick duration.
#[verifier::rlimit(40)]
pub proof fn lemma_sleepy_tick_follows_sleep(s0: TickScheduler, es: Seq<Event>)
    requires
        !(s0.strategy is Realtime),
        s0.phase == Phase::Start,
        s0.wf(),
        follows(s0, es),
    ensures
        forall|i: int|
            0 <= i < es.len() && (#[trigger] actions(s0, es)[i]) is FinalizeTick ==> i > 0
                && actions(s0, es)[i - 1] == (Action::Sleep { ns: s0.tick_ns }),
        run(s0, es).phase == Phase::Sleeping ==> es.len() > 0 && actions(s0, es).last() == (
        Action::Sleep { ns: s0.tick_ns }),
        run(s0, es).phase == Phase::Ticking ==> es.len() > 0 && actions(s0, es).last() is FinalizeTick,
    decreases es.len(),
{
    lemma_run_keeps_settings(s0, es);
    if es.len() > 0 {
        let p = es.drop_last();
        lemma_sleepy_tick_follows_sleep(s0, p);
        lemma_run_keeps_settings(s0, p);
        lemma_run_wf(s0, p);
        let sp = run(s0, p);
        let e = es.last();
        let a = next(sp, e).1;
        let acts = actions(s0, es);
        assert(acts == actions(s0, p).push(a));
        assert(a is FinalizeTick ==> e is Slept);
        assert(a is FinalizeTick ==> sp.phase == Phase::Sleeping);
        assert(next(sp, e).0.phase == Phase::Sleeping ==> a == (Action::Sleep { ns: s0.tick_ns }));
        assert(next(sp, e).0.phase == Phase::Ticking ==> a is FinalizeTick);
        assert forall|i: int| 0 <= i < es.len() && (#[trigger] acts[i]) is FinalizeTick implies i > 0
            && acts[i - 1] == (Action::Sleep { ns: s0.tick_ns }) by {
            if i < p.len() {
                assert(acts[i] == actions(s0, p)[i]);
                assert(acts[i - 1] == actions(s0, p)[i - 1]);
            } else {
                assert(acts[i] == a);
                assert(acts[i - 1] == actions(s0, p).last());
            }
        }
    }
}

/// Once the exit signal is set, a run that is not bounded finalizes at most
/// one more tick: the one already under way. A realtime run checks the
/// signal only after a tick and its busy-wait, never between batches.
pub proof fn lemma_exit_stops_within_one_tick(s: TickScheduler, es: Seq<Event>)
    requires
        !(s.strategy is ShortLived),
        s.wf(),
        follows(s, es),
        exit_set_throughout(es),
    ensures
        ticks_in(es) <= 1,
        ticks_in(es) == 1 ==> (run(s, es).phase is Spinning || run(s, es).phase is Flushing
            || run(s, es).phase is ReadingExit || run(s, es).phase is Done),
    decreases es.len(),
{
    lemma_run_keeps_settings(s, es);
    if es.len() > 0 {
        let p = es.drop_last();
        assert(exit_set_throughout(p)) by {
            assert forall|i: int| 0 <= i < p.len() && (#[trigger] p[i]) is ExitRead implies p[i]->exit by {
                assert(es[i] == p[i]);
            }
        }
        assert(es.last() == es[es.len() - 1]);
        lemma_exit_stops_within_one_tick(s, p);
        lemma_run_keeps_settings(s, p);
        lemma_run_wf(s, p);
    }
}

/// In a realtime run the exit signal is read only after a tick's busy-wait
/// (and the flush that may follow it), a tick is finalized only when a batch
/// completed the tick's quota, and every batch adds exactly one batch of
/// hashes to the totals; reading the signal set stops the loop.
pub proof fn lemma_realtime_step(s: TickScheduler, e: Event)
    requires
        s.strategy is Realtime,
        s.wf(),
        accepts(s, e),
    ensures
        next(s, e).1 is ReadExit ==> (e is Spun || e is Flushed),
        next(s, e).1 is FinalizeTick ==> (e is Hashed && e->should_tick),
        next(s, e).1 is HashBatch ==> next(s, e).1 == (Action::HashBatch { hashes: s.hashes_per_batch }),
        e is Hashed ==> next(s, e).0.metrics.num_hashes == crate::metrics::sat_add(
            s.metrics.num_hashes,
            s.hashes_per_batch,
        ),
        e == (Event::ExitRead { exit: true }) ==> next(s, e) == (
        TickScheduler { phase: Phase::Done, ..s }, Action::Stop),
        e is Spun ==> (next(s, e).1 is Flush <==> flush_due(e->since_flush_us)),
{
}

/// The number of hashed batches among `es`.
pub open spec fn batches_in(es: Seq<Event>) -> nat
    decreases es.len(),
{
    if es.len() == 0 {
        0
    } else {
        batches_in(es.drop_last()) + if es.last() is Hashed {
            1nat
        } else {
            0nat
        }
    }
}

/// Whether no busy-wait among `es` ended with the counters due for a flush.
pub open spec fn no_flush_due(es: Seq<Event>) -> bool {
    forall|i: int| 0 <= i < es.len() && (#[trigger] es[i]) is Spun ==> !flush_due(es[i]->since_flush_us)
}

/// Until the first flush, a realtime run counts every finalized tick and
/// exactly `hashes_per_batch` hashes for every hashed batch (while the
/// totals fit in a `u64`).
pub proof fn lemma_realtime_totals(
    hashes_per_tick: u64,
    tick_ns: u64,
    ticks_per_slot: u64,
    hashes_per_batch: u64,
    es: Seq<Event>,
)
    requires
        follows(
            initial(Strategy::Realtime { hashes_per_tick }, tick_ns, ticks_per_slot, hashes_per_batch),
            es,
        ),
        no_flush_due(es),
    ensures
        ({
            let s = run(
                initial(Strategy::Realtime { hashes_per_tick }, tick_ns, ticks_per_slot, hashes_per_batch),
                es,
            );
            &&& ticks_in(es) <= u64::MAX ==> s.metrics.num_ticks == ticks_in(es)
            &&& batches_in(es) * hashes_per_batch <= u64::MAX ==> s.metrics.num_hashes == batches_in(es)
                * hashes_per_batch
        }),
    decreases es.len(),
{
    let s0 = initial(Strategy::Realtime { hashes_per_tick }, tick_ns, ticks_per_slot, hashes_per_batch);
    lemma_run_keeps_settings(s0, es);
    if es.len() == 0 {
        assert(batches_in(es) == 0);
        assert(0 * hashes_per_batch == 0) by (nonlinear_arith);
    } else {
        let p = es.drop_last();
        assert(no_flush_due(p)) by {
            assert forall|i: int| 0 <= i < p.len() && (#[trigger] p[i]) is Spun implies !flush_due(
                p[i]->since_flush_us,
            ) by {
                assert(es[i] == p[i]);
            }
        }
        assert(es.last() == es[es.len() - 1]);
        lemma_realtime_totals(hashes_per_tick, tick_ns, ticks_per_slot, hashes_per_batch, p);
        lemma_run_keeps_settings(s0, p);
        let k = batches_in(p);
        assert((k + 1) * hashes_per_batch == k * hashes_per_batch + hashes_per_batch) by (nonlinear_arith);
        assert(k * hashes_per_batch <= (k + 1) * hashes_per_batch) by (nonlinear_arith);
        let sp = run(s0, p);
        let e = es.last();
        if e is Hashed {
            assert(batches_in(es) == k + 1);
            assert(run(s0, es).metrics.num_hashes == crate::metrics::sat_add(
                sp.metrics.num_hashes,
                hashes_per_batch,
            ));
            if batches_in(es) * hashes_per_batch <= u64::MAX {
                assert(k * hashes_per_batch <= u64::MAX);
                assert(sp.metrics.num_hashes == k * hashes_per_batch);
                assert(run(s0, es).metrics.num_hashes == (k + 1) * hashes_per_batch);
            }
        } else {
            assert(batches_in(es) == k);
            assert(run(s0, es).metrics.num_hashes == sp.metrics.num_hashes);
        }
    }
}

/// Number of lock acquisitions needed to hash `hashes` iterations in batches of `batch`.
pub open spec fn lock_acquisitions(hashes: nat, batch: nat) -> nat
    recommends
        batch > 0,
{
    ((hashes + batch - 1) / batch as int) as nat
}

/// A larger batch never needs more lock acquisitions for the same work, and
/// at a fixed hash rate it takes the lock strictly less often:
/// `rate / batch_large < rate / batch_small`.
pub proof fn lemma_batch_size_tradeoff(hashes: nat, rate: nat, batch_small: nat, batch_large: nat)
    requires
        0 < batch_small < batch_large,
        rate > 0,
    ensures
        lock_acquisitions(hashes, batch_large) <= lock_acquisitions(hashes, batch_small),
        rate * batch_small < rate * batch_large,
{
    let a = hashes + batch_large - 1;
    let b = hashes + batch_small - 1;
    assert(rate * batch_small < rate * batch_large) by (nonlinear_arith)
        requires
            0 < batch_small < batch_large,
            rate > 0,
    ;
    let ql = a / batch_large as int;
    let qs = b / batch_small as int;
    assert(ql <= qs) by (nonlinear_arith)
        requires
            0 < batch_small < batch_large,
            a == hashes + batch_large - 1,
            b == hashes + batch_small - 1,
            ql == a / batch_large as int,
            qs == b / batch_small as int,
            hashes >= 0,
    {
        // ql * batch_large <= a, so (ql - 1) * batch_large < hashes,
        // hence (ql - 1) * batch_small < hashes and ql - 1 < ceil(hashes / batch_small).
        assert(ql * batch_large <= a);
        assert(qs * batch_small > b - batch_small);
        if ql > qs {
            assert(ql >= qs + 1);
            assert((qs + 1) * batch_small > hashes - 1);
            assert(ql * batch_large >= (qs + 1) * batch_large);
        }
    }
}

} // verus!
