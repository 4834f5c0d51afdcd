use vstd::prelude::*;
use crate::progress::{
    Progress, progress_spec, rounded_percent, lemma_percent_monotone, lemma_percent_full,
    lemma_percent_at_most_full,
};
use crate::session::{
    Action, DownloadState, Event, Failure, Stage, initial_state, is_finished, next, run,
    stage_rank,
};

verus! {

/// `a` may come before `b` in a stream of notifications: both are
/// percentages and `a` is not larger, or both are byte counts and `a` is
/// smaller.
pub open spec fn may_precede(a: Progress, b: Progress) -> bool {
    match (a, b) {
        (Progress::Percent(p), Progress::Percent(q)) => p <= q,
        (Progress::Bytes(x), Progress::Bytes(y)) => x < y,
        _ => false,
    }
}

/// The state knows a positive size for the body.
pub open spec fn has_positive_size(s: DownloadState) -> bool {
    s.total matches Some(t) && t > 0
}

/// An action that touches the destination or reports success of a transfer.
pub open spec fn transfers(a: Action) -> bool {
    a is CreateFile || a is StoreChunk || a is Complete
}

/// The bytes stored by a run: the lengths of the chunks that the session
/// told the caller to store.
pub open spec fn stored_total(events: Seq<Event>, acts: Seq<Action>) -> nat
    decreases events.len(),
{
    if events.len() == 0 || acts.len() == 0 {
        0
    } else {
        stored_total(events.drop_last(), acts.drop_last()) + match (events.last(), acts.last()) {
            (Event::Chunk { len }, Action::StoreChunk(_)) => len as nat,
            _ => 0,
        }
    }
}

/// A notification already emitted is consistent with the present state: of
/// the kind the state calls for, and no further than its byte count.
pub open spec fn emitted_within(s: DownloadState, p: Progress) -> bool {
    match p {
        Progress::Percent(q) => {
            &&& s.total matches Some(t)
            &&& t > 0
            &&& q <= rounded_percent(s.written as nat, t as nat)
        },
        Progress::Bytes(b) => !has_positive_size(s) && b <= s.written,
    }
}

/// What holds after any prefix of a session's events.
pub open spec fn trace_inv(s: DownloadState, events: Seq<Event>, acts: Seq<Action>) -> bool {
    &&& s.wf()
    &&& acts.len() == events.len()
    &&& s.written == stored_total(events, acts)
    &&& (s.stage == Stage::Completed ==> (s.total matches Some(t) ==> s.written == t))
    &&& forall|i: int|
        0 <= i < acts.len() && #[trigger] acts[i] is StoreChunk ==> emitted_within(s, acts[i]->StoreChunk_0)
    &&& forall|i: int, j: int|
        0 <= i < j < acts.len() && #[trigger] acts[i] is StoreChunk && #[trigger] acts[j] is StoreChunk
            ==> may_precede(acts[i]->StoreChunk_0, acts[j]->StoreChunk_0)
    &&& forall|i: int|
        0 <= i < acts.len() && (#[trigger] acts[i] is Complete || acts[i] is AlreadyPresent)
            ==> s.stage == Stage::Completed
    &&& forall|i: int| 0 <= i < acts.len() && #[trigger] acts[i] is Fail ==> s.stage == Stage::Failed
    &&& forall|i: int, j: int|
        0 <= i < j < acts.len() && (#[trigger] acts[i] is Complete || acts[i] is AlreadyPresent
            || acts[i] is Fail) ==> #[trigger] acts[j] is Nothing
    &&& (s.written > 0 ==> exists|i: int|
        0 <= i < acts.len() && #[trigger] acts[i] == Action::StoreChunk(
            progress_spec(s.written, s.total),
        ) && forall|j: int| i < j < acts.len() ==> !(#[trigger] acts[j] is StoreChunk))
    &&& (stage_rank(s.stage) <= 1 ==> forall|k: int| 0 <= k < acts.len() ==> !transfers(#[trigger] acts[k]))
    &&& forall|i: int|
        0 <= i < acts.len() && (#[trigger] acts[i] matches Action::Fail(Failure::Status(_)))
            ==> forall|k: int| 0 <= k < acts.len() ==> !transfers(#[trigger] acts[k])
}

proof fn lemma_step_inv(s: DownloadState, events: Seq<Event>, acts: Seq<Action>, e: Event)
    requires
        trace_inv(s, events, acts),
    ensures
        trace_inv(next(s, e).0, events.push(e), acts.push(next(s, e).1)),
{
    let (s2, a) = next(s, e);
    let events2 = events.push(e);
    let acts2 = acts.push(a);
    assert(events2.drop_last() == events);
    assert(acts2.drop_last() == acts);
    assert forall|i: int| 0 <= i < acts.len() implies acts2[i] == acts[i] by {}
    if s.written <= s2.written && s.total == s2.total && a is StoreChunk {
        if let Some(t) = s.total {
            if t > 0 {
                lemma_percent_monotone(s.written as nat, s2.written as nat, t as nat);
            }
        }
    }
    if s.written > 0 && s2.written == s.written && !(a is StoreChunk) {
        let i = choose|i: int|
            0 <= i < acts.len() && #[trigger] acts[i] == Action::StoreChunk(
                progress_spec(s.written, s.total),
            ) && forall|j: int| i < j < acts.len() ==> !(#[trigger] acts[j] is StoreChunk);
        assert(acts2[i] == Action::StoreChunk(progress_spec(s2.written, s2.total)));
    }
    if a is StoreChunk {
        let last = acts.len() as int;
        assert(acts2[last] == a);
        assert(s2.total == s.total && s.written <= s2.written);
        if let Some(t) = s.total {
            if t > 0 {
                lemma_percent_monotone(s.written as nat, s2.written as nat, t as nat);
                lemma_percent_at_most_full(s2.written as nat, t as nat);
            }
        }
        assert forall|i: int| 0 <= i < last && #[trigger] acts2[i] is StoreChunk implies may_precede(
            acts2[i]->StoreChunk_0,
            a->StoreChunk_0,
        ) by {
            assert(emitted_within(s, acts[i]->StoreChunk_0));
        }
    }
}

/// The run invariant, from the start of a session.
proof fn lemma_run_inv(events: Seq<Event>)
    ensures
        trace_inv(run(initial_state(), events).0, events, run(initial_state(), events).1),
    decreases events.len(),
{
    if events.len() == 0 {
        assert(stored_total(events, Seq::<Action>::empty()) == 0);
    } else {
        let prev = events.drop_last();
        lemma_run_inv(prev);
        let (mid, acts) = run(initial_state(), prev);
        lemma_step_inv(mid, prev, acts, events.last());
        assert(prev.push(events.last()) == events);
    }
}

proof fn lemma_run_first(s: DownloadState, events: Seq<Event>)
    requires
        events.len() > 0,
    ensures
        run(s, events).1.len() == events.len(),
        run(s, events).1[0] == next(s, events[0]).1,
    decreases events.len(),
{
    let prev = events.drop_last();
    lemma_run_len(s, prev);
    if events.len() > 1 {
        lemma_run_first(s, prev);
        assert(prev[0] == events[0]);
    } else {
        assert(run(s, prev).1 == Seq::<Action>::empty());
    }
}

proof fn lemma_run_len(s: DownloadState, events: Seq<Event>)
    ensures
        run(s, events).1.len() == events.len(),
    decreases events.len(),
{
    if events.len() > 0 {
        lemma_run_len(s, events.drop_last());
    }
}

/// Every transition moves a session forward: its stage never goes back, a
/// finished session stays as it is and asks for nothing, stored bytes never
/// decrease, and a well-formed state stays well formed.
pub proof fn lemma_step_moves_forward(s: DownloadState, e: Event)
    requires
        s.wf(),
    ensures
        stage_rank(s.stage) <= stage_rank(next(s, e).0.stage),
        is_finished(s.stage) ==> next(s, e).0 == s && next(s, e).1 is Nothing,
        s.written <= next(s, e).0.written,
        next(s, e).0.wf(),
{
}

/// A session that completes with an advertised length has stored exactly
/// that many bytes; in any case the bytes stored are the sum of the chunks
/// that the session told the caller to store.
pub proof fn lemma_completed_download_has_advertised_length(events: Seq<Event>)
    ensures
        run(initial_state(), events).0.written == stored_total(events, run(initial_state(), events).1),
        run(initial_state(), events).0.stage == Stage::Completed ==> (run(initial_state(), events).0.total matches Some(t)
            ==> run(initial_state(), events).0.written == t),
{
    lemma_run_inv(events);
}

/// Notifications of a session are all of one kind; percentages never go
/// down and byte counts always go up; once
/// it completes, nothing else is emitted; and a session that completes with
/// a positive advertised length emitted one hundred percent last.
pub proof fn lemma_progress_is_ordered(events: Seq<Event>)
    ensures
        forall|i: int, j: int|
            0 <= i < j < run(initial_state(), events).1.len()
                && #[trigger] run(initial_state(), events).1[i] is StoreChunk
                && #[trigger] run(initial_state(), events).1[j] is StoreChunk ==> may_precede(
                run(initial_state(), events).1[i]->StoreChunk_0,
                run(initial_state(), events).1[j]->StoreChunk_0,
            ),
        forall|i: int, j: int|
            0 <= i < j < run(initial_state(), events).1.len()
                && #[trigger] run(initial_state(), events).1[i] is Complete
                ==> #[trigger] run(initial_state(), events).1[j] is Nothing,
        ({
            let (s, acts) = run(initial_state(), events);
            s.stage == Stage::Completed && has_positive_size(s) ==> exists|i: int|
                0 <= i < acts.len() && #[trigger] acts[i] == Action::StoreChunk(Progress::Percent(100))
                    && forall|j: int| i < j < acts.len() ==> !(#[trigger] acts[j] is StoreChunk)
        }),
{
    lemma_run_inv(events);
    let (s, acts) = run(initial_state(), events);
    if s.stage == Stage::Completed && s.total is Some {
        let t = s.total->0;
        if t > 0 {
            lemma_percent_full(t as nat);
            assert(progress_spec(s.written, s.total) == Progress::Percent(100));
        }
    }
}

/// A session whose destination is already there succeeds at once: it sends
/// no request and asks for nothing more, whatever comes after.
pub proof fn lemma_existing_destination_short_circuits(events: Seq<Event>)
    requires
        events.len() > 0,
        events[0] == (Event::Begin { destination_exists: true }),
    ensures
        run(initial_state(), events).1[0] == Action::AlreadyPresent,
        forall|j: int| 0 < j < events.len() ==> #[trigger] run(initial_state(), events).1[j] is Nothing,
        run(initial_state(), events).0.stage == Stage::Completed,
        run(initial_state(), events).0.written == 0,
{
    lemma_run_inv(events);
    lemma_run_first(initial_state(), events);
    let (s, acts) = run(initial_state(), events);
    if s.written > 0 {
        let i = choose|i: int|
            0 <= i < acts.len() && #[trigger] acts[i] == Action::StoreChunk(
                progress_spec(s.written, s.total),
            ) && forall|j: int| i < j < acts.len() ==> !(#[trigger] acts[j] is StoreChunk);
        if i > 0 {
            assert(acts[i] is Nothing);
        }
    }
}

/// A session whose response status is not a success fails without creating
/// the destination, storing a chunk or completing, and stays failed.
pub proof fn lemma_failed_status_transfers_nothing(events: Seq<Event>)
    ensures
        forall|i: int|
            0 <= i < run(initial_state(), events).1.len()
                && (#[trigger] run(initial_state(), events).1[i] matches Action::Fail(Failure::Status(_)))
                ==> run(initial_state(), events).0.stage == Stage::Failed && forall|k: int|
                0 <= k < run(initial_state(), events).1.len() ==> !transfers(
                    #[trigger] run(initial_state(), events).1[k],
                ),
{
    lemma_run_inv(events);
}

/// Where the size is unknown (or zero), every notification is a byte count,
/// and the latest one is the number of bytes stored.
pub proof fn lemma_unknown_size_reports_bytes(events: Seq<Event>)
    ensures
        ({
            let (s, acts) = run(initial_state(), events);
            !has_positive_size(s) ==> {
                &&& forall|i: int|
                    0 <= i < acts.len() && #[trigger] acts[i] is StoreChunk
                        ==> acts[i]->StoreChunk_0 is Bytes
                &&& s.written > 0 ==> exists|i: int|
                    0 <= i < acts.len() && #[trigger] acts[i] == Action::StoreChunk(
                        Progress::Bytes(s.written),
                    ) && forall|j: int| i < j < acts.len() ==> !(#[trigger] acts[j] is StoreChunk)
            }
        }),
{
    lemma_run_inv(events);
    let (s, acts) = run(initial_state(), events);
    if !has_positive_size(s) {
        assert forall|i: int| 0 <= i < acts.len() && #[trigger] acts[i] is StoreChunk implies acts[i]->StoreChunk_0 is Bytes by {
            assert(emitted_within(s, acts[i]->StoreChunk_0));
        }
    }
}

} // verus!
