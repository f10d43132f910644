//! What holds of whole passes of the sync machine.
use vstd::prelude::*;

use crate::error::{PassError, SyncError};
use crate::syncer::{start_height, Action, Event, Phase, Syncer};

verus! {

/// Feed `evs` to the machine in order, as far as it takes them, and collect
/// the actions it asks for. The run ends at the first event it does not take.
pub open spec fn run(s: Syncer, evs: Seq<Event>) -> (Syncer, Seq<Action>)
    decreases evs.len(),
{
    if evs.len() == 0 || !s.accepts_spec(evs[0]) {
        (s, Seq::empty())
    } else {
        let (s1, a) = s.transition(evs[0]);
        let (s2, rest) = run(s1, evs.subrange(1, evs.len() as int));
        (s2, seq![a] + rest)
    }
}

/// `n` confirmations that the height asked for was stored.
pub open spec fn stored_events(n: nat) -> Seq<Event> {
    Seq::new(n, |i: int| Event::Stored)
}

/// The writes of heights `lo ..= hi`, in increasing order.
pub open spec fn syncs(lo: u64, hi: u64) -> Seq<Action> {
    Seq::new((hi - lo + 1) as nat, |i: int| Action::Sync((lo + i) as u64))
}

/// Running the first event alone, then the rest, is running them all.
proof fn lemma_run_cons(s: Syncer, e: Event, evs: Seq<Event>)
    requires
        s.accepts_spec(e),
    ensures
        run(s, seq![e] + evs) == ({
            let (s1, a) = s.transition(e);
            let (s2, rest) = run(s1, evs);
            (s2, seq![a] + rest)
        }),
{
    let all = seq![e] + evs;
    assert(all[0] == e);
    assert(all.subrange(1, all.len() as int) =~= evs);
}

/// From the middle of a backfill where every write succeeds, the machine
/// asks for each remaining height once, in order, and then reports the head.
proof fn lemma_backfill_rest(s: Syncer, start: u64, next: u64, head: u64)
    requires
        s.wf(),
        s.phase == (Phase::Backfill { start, next, head }),
    ensures
        run(s, stored_events((head - next + 1) as nat)) == (
            Syncer { phase: Phase::Idle, ..s },
            (if next < head {
                syncs((next + 1) as u64, head)
            } else {
                Seq::empty()
            }) + seq![Action::Synced(head)],
        ),
    decreases head - next,
{
    let n = (head - next + 1) as nat;
    let evs = stored_events(n);
    assert(evs =~= seq![Event::Stored] + stored_events((n - 1) as nat));
    lemma_run_cons(s, Event::Stored, stored_events((n - 1) as nat));
    if next < head {
        let s1 = Syncer { phase: Phase::Backfill { start, next: (next + 1) as u64, head }, ..s };
        lemma_backfill_rest(s1, start, (next + 1) as u64, head);
        let tail = if next + 1 < head {
            syncs((next + 2) as u64, head)
        } else {
            Seq::empty()
        };
        assert(seq![Action::Sync((next + 1) as u64)] + (tail + seq![Action::Synced(head)])
            =~= syncs((next + 1) as u64, head) + seq![Action::Synced(head)]);
    } else {
        let s1 = Syncer { phase: Phase::Idle, ..s };
        assert(run(s1, Seq::<Event>::empty()) == (s1, Seq::<Action>::empty()));
        assert(stored_events(0) =~= Seq::<Event>::empty());
        assert(seq![Action::Synced(head)] + Seq::<Action>::empty() =~= Seq::<Action>::empty()
            + seq![Action::Synced(head)]);
    }
}

/// Range completeness: a pass that starts at `s` below the observed head `h`,
/// and whose writes all succeed, asks for the write of every height of
/// `s ..= h`, once each and in increasing order, before it reports `h`.
pub proof fn lemma_range_complete(s: Syncer, start: u64, h: u64)
    requires
        s.wf(),
        s.phase == (Phase::AwaitHead { first: Some(start) }),
        start < h,
    ensures
        run(s, seq![Event::Head(h)] + stored_events((h - start + 1) as nat)) == (
            Syncer { phase: Phase::Idle, ..s },
            syncs(start, h) + seq![Action::Synced(h)],
        ),
{
    lemma_run_cons(s, Event::Head(h), stored_events((h - start + 1) as nat));
    let s1 = Syncer { phase: Phase::Backfill { start, next: start, head: h }, ..s };
    lemma_backfill_rest(s1, start, start, h);
    assert(seq![Action::Sync(start)] + (syncs((start + 1) as u64, h) + seq![Action::Synced(h)])
        =~= syncs(start, h) + seq![Action::Synced(h)]);
}

/// A whole first pass with an explicit start `s` below the head `h`: it asks
/// the node for its head, then writes every height of `s ..= h` in order.
pub proof fn lemma_first_pass_complete(s: u64, h: u64, interval_millis: u64)
    requires
        s < h,
        interval_millis > 0,
    ensures
        ({
            let m = Syncer { from: Some(s), interval_millis, phase: Phase::Idle };
            run(m, seq![Event::Tick, Event::Head(h)] + stored_events((h - s + 1) as nat)) == (
                Syncer { from: None, interval_millis, phase: Phase::Idle },
                seq![Action::ReadHead] + syncs(s, h) + seq![Action::Synced(h)],
            )
        }),
{
    let m = Syncer { from: Some(s), interval_millis, phase: Phase::Idle };
    let rest = seq![Event::Head(h)] + stored_events((h - s + 1) as nat);
    assert(seq![Event::Tick, Event::Head(h)] + stored_events((h - s + 1) as nat)
        =~= seq![Event::Tick] + rest);
    lemma_run_cons(m, Event::Tick, rest);
    let m1 = Syncer { from: None, interval_millis, phase: Phase::AwaitHead { first: Some(s) } };
    lemma_range_complete(m1, s, h);
    assert(seq![Action::ReadHead] + (syncs(s, h) + seq![Action::Synced(h)])
        =~= seq![Action::ReadHead] + syncs(s, h) + seq![Action::Synced(h)]);
}

/// The actions before index `i` are all writes: no earlier report ended
/// the pass.
pub open spec fn only_syncs_before(acts: Seq<Action>, i: int) -> bool {
    forall|j: int| 0 <= j < i ==> (#[trigger] acts[j]) is Sync
}

/// Whatever the events, if a backfill ends in a success report, the writes
/// asked for before it are exactly the remaining heights up to the head.
proof fn lemma_backfill_any(s: Syncer, start: u64, next: u64, head: u64, evs: Seq<Event>, i: int)
    requires
        s.wf(),
        s.phase == (Phase::Backfill { start, next, head }),
        0 <= i < run(s, evs).1.len(),
        run(s, evs).1[i] is Synced,
        only_syncs_before(run(s, evs).1, i),
    ensures
        run(s, evs).1.subrange(0, i + 1) == (if next < head {
            syncs((next + 1) as u64, head)
        } else {
            Seq::empty()
        }) + seq![Action::Synced(head)],
    decreases evs.len(),
{
    let e = evs[0];
    assert(evs =~= seq![e] + evs.subrange(1, evs.len() as int));
    let tail = evs.subrange(1, evs.len() as int);
    lemma_run_cons(s, e, tail);
    let (s1, a) = s.transition(e);
    let rest = run(s1, tail).1;
    let acts = run(s, evs).1;
    assert(acts == seq![a] + rest);
    assert(acts[0] == a);
    if i == 0 {
        assert(a is Synced);
        assert(e is Stored);
        assert(!(next < head));
        assert(acts.subrange(0, 1) =~= Seq::<Action>::empty() + seq![Action::Synced(head)]);
    } else {
        assert(acts[0] is Sync);
        assert(e is Stored);
        assert(next < head);
        assert(only_syncs_before(rest, i - 1)) by {
            assert forall|j: int| 0 <= j < i - 1 implies (#[trigger] rest[j]) is Sync by {
                assert(rest[j] == acts[j + 1]);
            }
        }
        assert(rest[i - 1] == acts[i]);
        lemma_backfill_any(s1, start, (next + 1) as u64, head, tail, i - 1);
        let before = if next + 1 < head {
            syncs((next + 2) as u64, head)
        } else {
            Seq::empty()
        };
        assert(rest.subrange(0, i) == before + seq![Action::Synced(head)]);
        assert(acts.subrange(0, i + 1) =~= seq![a] + rest.subrange(0, i));
        assert(seq![Action::Sync((next + 1) as u64)] + (before + seq![Action::Synced(head)])
            =~= syncs((next + 1) as u64, head) + seq![Action::Synced(head)]);
    }
}

/// Range completeness, for every course of events: when a pass that starts
/// at `start` ends in a success report of a head above `start`, the actions
/// before that report ask for the write of every height of `start ..= head`,
/// once each and in increasing order, and each of those writes was
/// confirmed, since any other outcome ends the pass with a failure report.
pub proof fn lemma_successful_pass_complete(s: Syncer, start: u64, evs: Seq<Event>, i: int)
    requires
        s.wf(),
        s.phase == (Phase::AwaitHead { first: Some(start) }),
        0 <= i < run(s, evs).1.len(),
        (run(s, evs).1[i] matches Action::Synced(head) && start < head),
        only_syncs_before(run(s, evs).1, i),
    ensures
        ({
            let head = run(s, evs).1[i]->Synced_0;
            run(s, evs).1.subrange(0, i + 1) == syncs(start, head) + seq![Action::Synced(head)]
        }),
{
    let e = evs[0];
    assert(evs =~= seq![e] + evs.subrange(1, evs.len() as int));
    let tail = evs.subrange(1, evs.len() as int);
    lemma_run_cons(s, e, tail);
    let (s1, a) = s.transition(e);
    let rest = run(s1, tail).1;
    let acts = run(s, evs).1;
    let head = acts[i]->Synced_0;
    assert(acts == seq![a] + rest);
    assert(acts[0] == a);
    if i == 0 {
        assert(false);
    } else {
        assert(a is Sync);
        let h = e->Head_0;
        assert(only_syncs_before(rest, i - 1)) by {
            assert forall|j: int| 0 <= j < i - 1 implies (#[trigger] rest[j]) is Sync by {
                assert(rest[j] == acts[j + 1]);
            }
        }
        assert(rest[i - 1] == acts[i]);
        lemma_backfill_any(s1, start, start, h, tail, i - 1);
        let pre = syncs((start + 1) as u64, h) + seq![Action::Synced(h)];
        assert(rest.subrange(0, i)[i - 1] == rest[i - 1]);
        assert(pre[pre.len() - 1] == Action::Synced(h));
        assert(head == h);
        assert(acts.subrange(0, i + 1) =~= seq![a] + rest.subrange(0, i));
        assert(seq![Action::Sync(start)] + (syncs((start + 1) as u64, h) + seq![
            Action::Synced(h),
        ]) =~= syncs(start, h) + seq![Action::Synced(h)]);
    }
}

/// No-op when caught up: when the first height of the pass is the head
/// itself, the pass asks for no fetch or write and reports that head.
pub proof fn lemma_caught_up(s: Syncer, h: u64)
    requires
        s.wf(),
        s.phase == (Phase::AwaitHead { first: Some(h) }),
    ensures
        run(s, seq![Event::Head(h)]) == (
            Syncer { phase: Phase::Idle, ..s },
            seq![Action::Synced(h)],
        ),
{
    lemma_run_cons(s, Event::Head(h), Seq::empty());
    assert(seq![Event::Head(h)] + Seq::<Event>::empty() =~= seq![Event::Head(h)]);
    assert(seq![Action::Synced(h)] + Seq::<Action>::empty() =~= seq![Action::Synced(h)]);
}

/// Partial-failure resumability: when a pass fails in the middle of a
/// backfill, the next pass asks the store for its cursor `k` and starts at
/// `k + 1`, whatever the failed pass had reached in memory.
pub proof fn lemma_resume_from_store(s: Syncer, err: PassError, k: u64)
    requires
        s.wf(),
        s.phase is Backfill,
        k < u64::MAX,
    ensures
        run(s, seq![Event::Failed(err), Event::Tick, Event::Cursor(Some(k))]) == (
            Syncer { phase: Phase::AwaitHead { first: Some((k + 1) as u64) }, ..s },
            seq![Action::Failed(err), Action::ReadCursor, Action::ReadHead],
        ),
{
    let s1 = Syncer { phase: Phase::Idle, ..s };
    let s2 = Syncer { phase: Phase::AwaitCursor, ..s };
    assert(start_height(None, Some(k)) == k + 1);
    lemma_run_cons(s2, Event::Cursor(Some(k)), Seq::empty());
    lemma_run_cons(s1, Event::Tick, seq![Event::Cursor(Some(k))]);
    lemma_run_cons(s, Event::Failed(err), seq![Event::Tick, Event::Cursor(Some(k))]);
    assert(seq![Event::Failed(err), Event::Tick, Event::Cursor(Some(k))] =~= seq![
        Event::Failed(err),
    ] + seq![Event::Tick, Event::Cursor(Some(k))]);
    assert(seq![Event::Tick, Event::Cursor(Some(k))] =~= seq![Event::Tick] + seq![
        Event::Cursor(Some(k)),
    ]);
    assert(seq![Event::Cursor(Some(k))] =~= seq![Event::Cursor(Some(k))] + Seq::<Event>::empty());
    assert(seq![Action::Failed(err)] + (seq![Action::ReadCursor] + (seq![Action::ReadHead]
        + Seq::<Action>::empty())) =~= seq![
        Action::Failed(err),
        Action::ReadCursor,
        Action::ReadHead,
    ]);
}

/// Pending and missing heights: when the fetch of the height being
/// backfilled reports it pending or absent, the pass ends at once with that
/// error, asks for no further write, and the height is left unwritten.
pub proof fn lemma_source_not_ready(s: Syncer, err: SyncError)
    requires
        s.wf(),
        (s.phase matches Phase::Backfill { next, .. } && next == err.height_spec()),
    ensures
        s.transition(Event::Failed(PassError::Source(err))) == (
            Syncer { phase: Phase::Idle, ..s },
            Action::Failed(PassError::Source(err)),
        ),
        s.accepts_spec(Event::Failed(PassError::Source(err))),
        !(Syncer { phase: Phase::Idle, ..s }).accepts_spec(Event::Stored),
{
}

/// Non-overlap: a tick is taken only between passes, so a pass that overruns
/// the period delays the next one instead of running beside it; and a pass
/// ends (the machine is back between passes) exactly when it reports.
pub proof fn lemma_no_overlap(s: Syncer, e: Event)
    requires
        s.wf(),
        s.accepts_spec(e),
    ensures
        !(s.phase is Idle) ==> !s.accepts_spec(Event::Tick),
        (s.transition(e).0.phase is Idle) <==> (s.transition(e).1 is Synced
            || s.transition(e).1 is Failed),
{
}

} // verus!
