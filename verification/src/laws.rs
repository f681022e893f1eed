//! Laws of the reconciliation machine, stated over the spec-level
//! mirrors that the exec functions are proved to realize.

use vstd::prelude::*;

use crate::desired::DesiredSet;
use crate::desired::PackageInstance;
use crate::frame::FrameData;
use crate::frame::lemma_first_corr_found;
use crate::frame::spec_first_corr_from;
use crate::frame::spec_process_frame;
use crate::reconcile::SpecSync;
use crate::reconcile::spec_distinct_ids;
use crate::reconcile::spec_audit;
use crate::reconcile::spec_contains_id;
use crate::reconcile::spec_mark_evict;
use crate::reconcile::spec_mark_upto;
use crate::reconcile::spec_new_tracker;
use crate::reconcile::spec_sync;
use crate::reconcile::spec_sync_upto;
use crate::reconcile::spec_tick_one;
use crate::reconcile::spec_tick_upto;
use crate::requests::spec_subscribe_request;
use crate::tracker::SubscriptionTracking;
use crate::tracker::TrackingState;

verus! {

/// Reconciliation is deterministic in the pair of the current trackers
/// and the desired set (together with the session counter and the
/// clock): equal inputs give equal results. The exec pass is pinned to
/// `spec_audit` of its inputs, so two runs over equal state agree.
pub proof fn lemma_reconcile_deterministic(
    ts1: Seq<SubscriptionTracking>,
    ts2: Seq<SubscriptionTracking>,
    d1: DesiredSet,
    d2: DesiredSet,
    seq1: u64,
    seq2: u64,
    now1: u64,
    now2: u64,
)
    requires
        ts1 == ts2,
        d1 == d2,
        seq1 == seq2,
        now1 == now2,
    ensures
        spec_audit(ts1, d1, seq1, now1) == spec_audit(ts2, d2, seq2, now2),
{
}

/// A step that reports no lifecycle change and sends nothing has left
/// the record and the session counter untouched.
pub proof fn lemma_tick_one_quiet(t: SubscriptionTracking, seq: u64, now_ms: u64)
    requires
        !spec_tick_one(t, seq, now_ms).changed,
        !spec_tick_one(t, seq, now_ms).has_req,
    ensures
        spec_tick_one(t, seq, now_ms).t == t,
        spec_tick_one(t, seq, now_ms).seq == seq,
{
}

/// A stepping pass that reports nothing to do has done nothing: the
/// records and the counter come out exactly as they went in.
pub proof fn lemma_tick_quiet_is_identity(
    ts: Seq<SubscriptionTracking>,
    seq0: u64,
    now_ms: u64,
    n: int,
)
    requires
        0 <= n <= ts.len(),
        !spec_tick_upto(ts, seq0, now_ms, n).state_change,
        spec_tick_upto(ts, seq0, now_ms, n).reqs.len() == 0,
    ensures
        spec_tick_upto(ts, seq0, now_ms, n).trackers =~= ts.take(n),
        spec_tick_upto(ts, seq0, now_ms, n).seq == seq0,
    decreases n,
{
    if n > 0 {
        let prev = spec_tick_upto(ts, seq0, now_ms, n - 1);
        let st = spec_tick_one(ts[n - 1], prev.seq, now_ms);
        assert(!st.has_req && prev.reqs.len() == 0);
        lemma_tick_quiet_is_identity(ts, seq0, now_ms, n - 1);
        lemma_tick_one_quiet(ts[n - 1], prev.seq, now_ms);
        assert(prev.trackers.push(ts[n - 1]) =~= ts.take(n));
    } else {
        assert(ts.take(0) =~= Seq::<SubscriptionTracking>::empty());
    }
}

/// The insertion pass leaves what was tracked untouched, appends only
/// fresh records of desired instances, and ends with every desired
/// package id tracked.
pub proof fn lemma_sync_structure(
    ts: Seq<SubscriptionTracking>,
    desired: Seq<PackageInstance>,
    n: int,
)
    requires
        0 <= n <= desired.len(),
    ensures
        spec_sync_upto(ts, desired, n).trackers.len() >= ts.len(),
        spec_sync_upto(ts, desired, n).trackers.take(ts.len() as int) =~= ts,
        forall|k: int|
            0 <= k < n ==> spec_contains_id(
                spec_sync_upto(ts, desired, n).trackers,
                desired[k].package_id@,
            ),
        forall|i: int|
            ts.len() <= i < spec_sync_upto(ts, desired, n).trackers.len() ==> exists|j: int|
                0 <= j < n && #[trigger] spec_sync_upto(ts, desired, n).trackers[i]
                    == spec_new_tracker(#[trigger] desired[j]),
    decreases n,
{
    if n > 0 {
        lemma_sync_structure(ts, desired, n - 1);
        let prev = spec_sync_upto(ts, desired, n - 1).trackers;
        let cur = spec_sync_upto(ts, desired, n).trackers;
        if !spec_contains_id(prev, desired[n - 1].package_id@) {
            assert(cur =~= prev.push(spec_new_tracker(desired[n - 1])));
            assert(cur[cur.len() - 1] == spec_new_tracker(desired[n - 1]));
            assert(spec_contains_id(cur, desired[n - 1].package_id@));
        }
        assert forall|k: int| 0 <= k < n implies spec_contains_id(
            cur,
            desired[k].package_id@,
        ) by {
            if k < n - 1 {
                let w = choose|w: int|
                    0 <= w < prev.len() && prev[w].package_id@ == desired[k].package_id@;
                assert(cur[w].package_id@ == desired[k].package_id@);
            }
        }
    }
}

/// Every record that the marking pass keeps is either still desired, or
/// marked for removal and not yet terminal.
pub proof fn lemma_mark_output_shape(ts: Seq<SubscriptionTracking>, d: DesiredSet, n: int)
    requires
        0 <= n <= ts.len(),
    ensures
        forall|i: int|
            0 <= i < spec_mark_upto(ts, d, n).len() ==> (d.spec_is_most_recent(
                #[trigger] spec_mark_upto(ts, d, n)[i].package_uuid@,
                spec_mark_upto(ts, d, n)[i].package_timestamp@,
            ) || (spec_mark_upto(ts, d, n)[i].remove_requested && !(spec_mark_upto(ts, d, n)[i].state
                is ReadyToDelete))),
    decreases n,
{
    if n > 0 {
        lemma_mark_output_shape(ts, d, n - 1);
    }
}

/// A record that the marking pass does not evict stays reachable under
/// its package id.
pub proof fn lemma_mark_contains_survivor(
    ts: Seq<SubscriptionTracking>,
    d: DesiredSet,
    i: int,
    n: int,
)
    requires
        0 <= i < n <= ts.len(),
        d.spec_is_most_recent(ts[i].package_uuid@, ts[i].package_timestamp@) || !(ts[i].state
            is ReadyToDelete),
    ensures
        spec_contains_id(spec_mark_upto(ts, d, n), ts[i].package_id@),
    decreases n,
{
    let cur = spec_mark_upto(ts, d, n);
    if n - 1 == i {
        let prev = spec_mark_upto(ts, d, n - 1);
        assert(cur[cur.len() - 1].package_id@ == ts[i].package_id@);
    } else {
        lemma_mark_contains_survivor(ts, d, i, n - 1);
        let prev = spec_mark_upto(ts, d, n - 1);
        let w = choose|w: int| 0 <= w < prev.len() && prev[w].package_id@ == ts[i].package_id@;
        assert(cur[w].package_id@ == ts[i].package_id@);
    }
}

/// Marking records already in the kept shape changes nothing.
pub proof fn lemma_mark_noop(ts: Seq<SubscriptionTracking>, d: DesiredSet, n: int)
    requires
        0 <= n <= ts.len(),
        forall|i: int|
            0 <= i < ts.len() ==> (d.spec_is_most_recent(
                #[trigger] ts[i].package_uuid@,
                ts[i].package_timestamp@,
            ) || (ts[i].remove_requested && !(ts[i].state is ReadyToDelete))),
    ensures
        spec_mark_upto(ts, d, n) =~= ts.take(n),
    decreases n,
{
    if n > 0 {
        lemma_mark_noop(ts, d, n - 1);
        let u = ts[n - 1];
        if !d.spec_is_most_recent(u.package_uuid@, u.package_timestamp@) {
            assert(u.remove_requested);
            assert(SubscriptionTracking { remove_requested: true, ..u } == u);
        }
        assert(spec_mark_upto(ts, d, n) =~= ts.take(n));
    } else {
        assert(ts.take(0) =~= Seq::<SubscriptionTracking>::empty());
    }
}

/// An insertion pass that finds every desired package id already tracked
/// inserts nothing.
pub proof fn lemma_sync_noop(ts: Seq<SubscriptionTracking>, desired: Seq<PackageInstance>, n: int)
    requires
        0 <= n <= desired.len(),
        forall|k: int| 0 <= k < n ==> spec_contains_id(ts, #[trigger] desired[k].package_id@),
    ensures
        spec_sync_upto(ts, desired, n) == (SpecSync { trackers: ts, inserted: false }),
    decreases n,
{
    if n > 0 {
        lemma_sync_noop(ts, desired, n - 1);
    }
}

/// Processing two consecutive AUDITs with an unchanged desired set is
/// equivalent to processing one: a pass that reported no state change
/// and sent no requests is reproduced exactly by the next pass, which
/// again reports nothing, sends nothing and leaves the trackers alone.
///
/// The one family of inputs left out: a terminal record whose stale
/// identity still shares its package id with a desired instance. The
/// first pass evicts it, and the pass after that deliberately creates a
/// fresh tracker for the desired instance, which is not a no-op.
pub proof fn lemma_audit_idempotent_when_quiet(
    ts: Seq<SubscriptionTracking>,
    d: DesiredSet,
    seq0: u64,
    now_ms: u64,
)
    requires
        !spec_audit(ts, d, seq0, now_ms).state_change,
        spec_audit(ts, d, seq0, now_ms).reqs.len() == 0,
        forall|i: int|
            0 <= i < ts.len() && (#[trigger] ts[i].state is ReadyToDelete)
                && !d.spec_is_most_recent(ts[i].package_uuid@, ts[i].package_timestamp@)
                ==> !d.spec_has_package_id(ts[i].package_id@),
    ensures
        spec_audit(ts, d, seq0, now_ms).seq == seq0,
        spec_audit(
            spec_audit(ts, d, seq0, now_ms).trackers,
            d,
            spec_audit(ts, d, seq0, now_ms).seq,
            now_ms,
        ) == spec_audit(ts, d, seq0, now_ms),
{
    let s1 = spec_sync(ts, d.items@).trackers;
    let m1 = spec_mark_evict(s1, d);
    let a1 = spec_audit(ts, d, seq0, now_ms);

    // The quiet stepping pass is the identity on the marked records.
    lemma_tick_quiet_is_identity(m1, seq0, now_ms, m1.len() as int);
    assert(m1.take(m1.len() as int) =~= m1);
    assert(a1.trackers == m1);
    assert(a1.seq == seq0);

    // Every desired package id is tracked in m1: its witness in s1 is
    // either an original record that the hypothesis keeps alive, or a
    // freshly inserted one, and either survives the marking pass.
    lemma_sync_structure(ts, d.items@, d.items@.len() as int);
    assert forall|k: int| 0 <= k < d.items@.len() implies spec_contains_id(
        m1,
        #[trigger] d.items@[k].package_id@,
    ) by {
        let w = choose|w: int|
            0 <= w < s1.len() && s1[w].package_id@ == d.items@[k].package_id@;
        if w < ts.len() {
            assert(s1.take(ts.len() as int)[w] == s1[w]);
            assert(s1[w] == ts[w]);
            assert(d.spec_has_package_id(ts[w].package_id@));
            assert(d.spec_is_most_recent(ts[w].package_uuid@, ts[w].package_timestamp@)
                || !(ts[w].state is ReadyToDelete));
        } else {
            let j = choose|j: int|
                0 <= j < d.items@.len() && s1[w] == spec_new_tracker(d.items@[j]);
            assert(!(s1[w].state is ReadyToDelete));
        }
        lemma_mark_contains_survivor(s1, d, w, s1.len() as int);
    }

    // So the second pass inserts nothing...
    lemma_sync_noop(m1, d.items@, d.items@.len() as int);
    assert(spec_sync(m1, d.items@).trackers == m1);

    // ...and its marking pass keeps every record as it is.
    lemma_mark_output_shape(s1, d, s1.len() as int);
    lemma_mark_noop(m1, d, m1.len() as int);
    assert(spec_mark_evict(m1, d) =~= m1.take(m1.len() as int));
    assert(spec_mark_evict(m1, d) =~= m1);

    // The stepping pass then runs on the same records and counter as in
    // the first audit, and does the same: nothing.
    assert(spec_audit(a1.trackers, d, a1.seq, now_ms) == spec_tick_upto(
        m1,
        seq0,
        now_ms,
        m1.len() as int,
    ));
}

/// How far a record marked for removal still is from `ReadyToDelete`:
/// an upper bound on the number of effective audit ticks (those not
/// suppressed by the resend rate limit) it can take before the record
/// becomes evictable.
pub open spec fn spec_removal_rank(t: SubscriptionTracking) -> int {
    match t.state {
        TrackingState::ReadyToDelete => 0,
        TrackingState::Disconnected => 1,
        TrackingState::Unsubscribing => if t.unsubscribed_id is None || t.request_retry
            > crate::tracker::MAX_UNSUBSCRIBE_RETRIES {
            1
        } else {
            12 - t.request_retry
        },
        TrackingState::Subscribed => 12,
        TrackingState::Subscribing => 13,
    }
}

/// Once a package is marked for removal, every effective audit tick
/// brings its record strictly closer to `ReadyToDelete`: the rank is
/// positive until the record is terminal, never exceeds 13, and strictly
/// decreases at each tick outside the rate-limit window. The following
/// AUDIT then evicts the terminal record.
pub proof fn lemma_removal_progress(t: SubscriptionTracking, seq: u64, now_ms: u64)
    requires
        t.remove_requested,
        !t.spec_recently_sent(now_ms),
        !(t.state is ReadyToDelete),
    ensures
        0 <= spec_removal_rank(spec_tick_one(t, seq, now_ms).t) < spec_removal_rank(t) <= 13,
        spec_tick_one(t, seq, now_ms).t.remove_requested,
{
}

/// A terminal record whose identity has left the desired set is evicted
/// by the marking pass of the next reconciliation.
pub proof fn lemma_terminal_record_evicted(
    out: Seq<SubscriptionTracking>,
    t: SubscriptionTracking,
    d: DesiredSet,
)
    requires
        t.state is ReadyToDelete,
        !d.spec_is_most_recent(t.package_uuid@, t.package_timestamp@),
    ensures
        crate::reconcile::spec_mark_one(out, t, d) == out,
{
}

/// Iterated removal: stepping a marked record at each of the given
/// times, every time at least the rate-limit window after the previous
/// request, lands in `ReadyToDelete` once the times outnumber the rank.
pub open spec fn spec_tick_at_times(
    t: SubscriptionTracking,
    seq: u64,
    times: Seq<u64>,
) -> SubscriptionTracking
    decreases times.len(),
{
    if times.len() == 0 {
        t
    } else {
        let st = spec_tick_one(t, seq, times[0]);
        spec_tick_at_times(st.t, st.seq, times.skip(1))
    }
}

/// After a package is removed from the desired set, a bounded number of
/// audit ticks suffices: at most `spec_removal_rank` many effective
/// ticks — at most 13, and at most 12 from `Subscribed`, the bound the
/// removal scenario expects — take the record to `ReadyToDelete`.
pub proof fn lemma_removal_bounded(t: SubscriptionTracking, seq: u64, times: Seq<u64>)
    requires
        t.remove_requested,
        times.len() >= spec_removal_rank(t),
        forall|i: int|
            0 <= i && i + 1 < times.len() ==> #[trigger] times[i] + 2000 <= times[i + 1],
        times.len() > 0 ==> t.last_request_time_ms + 2000 <= times[0],
    ensures
        spec_tick_at_times(t, seq, times).state is ReadyToDelete,
    decreases times.len(),
{
    if times.len() == 0 {
        // Nothing to do: the rank is at most 0, so the record is terminal.
    } else {
        let rest = times.skip(1);
        assert forall|i: int| 0 <= i && i + 1 < rest.len() implies #[trigger] rest[i] + 2000
            <= rest[i + 1] by {
            assert(rest[i] == times[i + 1]);
            assert(rest[i + 1] == times[i + 2]);
        }
        if t.state is ReadyToDelete {
            let st = spec_tick_one(t, seq, times[0]);
            assert(st.t == t && st.seq == seq);
            assert(rest.len() > 0 ==> rest[0] == times[1]);
            lemma_removal_bounded(t, st.seq, rest);
        } else {
            assert(t.last_request_time_ms + 2000 <= times[0]);
            assert(!t.spec_recently_sent(times[0])) by {
                vstd::arithmetic::div_mod::lemma_div_is_ordered(
                    2000,
                    times[0] - t.last_request_time_ms,
                    1000,
                );
            }
            lemma_removal_progress(t, seq, times[0]);
            let st = spec_tick_one(t, seq, times[0]);
            assert(st.t.last_request_time_ms <= times[0]);
            assert(rest.len() > 0 ==> rest[0] == times[1]);
            lemma_removal_bounded(st.t, st.seq, rest);
        }
    }
}

/// One step of a tracker never changes which package it tracks.
pub proof fn lemma_tick_one_keeps_identity(t: SubscriptionTracking, seq: u64, now_ms: u64)
    ensures
        spec_tick_one(t, seq, now_ms).t.package_id == t.package_id,
{
}

/// The stepping pass is index-preserving: record `i` of the result
/// tracks the same package as record `i` of the input.
pub proof fn lemma_tick_keeps_ids(ts: Seq<SubscriptionTracking>, seq0: u64, now_ms: u64, n: int)
    requires
        0 <= n <= ts.len(),
    ensures
        spec_tick_upto(ts, seq0, now_ms, n).trackers.len() == n,
        forall|i: int|
            0 <= i < n ==> #[trigger] spec_tick_upto(ts, seq0, now_ms, n).trackers[i].package_id
                == ts[i].package_id,
    decreases n,
{
    if n > 0 {
        lemma_tick_keeps_ids(ts, seq0, now_ms, n - 1);
        let prev = spec_tick_upto(ts, seq0, now_ms, n - 1);
        lemma_tick_one_keeps_identity(ts[n - 1], prev.seq, now_ms);
    }
}

/// Insertion keeps the records' ids distinct: a fresh tracker is added
/// only when its package id is not yet tracked.
pub proof fn lemma_sync_distinct(ts: Seq<SubscriptionTracking>, desired: Seq<PackageInstance>, n: int)
    requires
        0 <= n <= desired.len(),
        spec_distinct_ids(ts),
    ensures
        spec_distinct_ids(spec_sync_upto(ts, desired, n).trackers),
    decreases n,
{
    if n > 0 {
        lemma_sync_distinct(ts, desired, n - 1);
        let prev = spec_sync_upto(ts, desired, n - 1).trackers;
        let cur = spec_sync_upto(ts, desired, n).trackers;
        if !spec_contains_id(prev, desired[n - 1].package_id@) {
            assert forall|i: int, j: int| 0 <= i < j < cur.len() implies cur[i].package_id@
                != cur[j].package_id@ by {
                if j == cur.len() - 1 {
                    assert(cur[i] == prev[i]);
                }
            }
        }
    }
}

/// Marking keeps distinct ids: records are only dropped or flagged, and
/// every kept record carries the id of the input record it came from.
pub proof fn lemma_mark_distinct(ts: Seq<SubscriptionTracking>, d: DesiredSet, n: int)
    requires
        0 <= n <= ts.len(),
        spec_distinct_ids(ts),
    ensures
        spec_distinct_ids(spec_mark_upto(ts, d, n)),
        forall|j: int|
            0 <= j < spec_mark_upto(ts, d, n).len() ==> exists|k: int|
                0 <= k < n && #[trigger] spec_mark_upto(ts, d, n)[j].package_id@
                    == ts[k].package_id@,
    decreases n,
{
    if n > 0 {
        lemma_mark_distinct(ts, d, n - 1);
        let prev = spec_mark_upto(ts, d, n - 1);
        let cur = spec_mark_upto(ts, d, n);
        if cur.len() == prev.len() + 1 {
            assert(cur[cur.len() - 1].package_id@ == ts[n - 1].package_id@);
            assert forall|i: int, j: int| 0 <= i < j < cur.len() implies cur[i].package_id@
                != cur[j].package_id@ by {
                if j == cur.len() - 1 {
                    let k = choose|k: int|
                        0 <= k < n - 1 && prev[i].package_id@ == ts[k].package_id@;
                    assert(ts[k].package_id@ != ts[n - 1].package_id@);
                }
            }
        }
    }
}

/// At most one tracking record per package id, across a whole AUDIT
/// pass: reconciliation never duplicates a tracker.
pub proof fn lemma_audit_preserves_distinct_ids(
    ts: Seq<SubscriptionTracking>,
    d: DesiredSet,
    seq0: u64,
    now_ms: u64,
)
    requires
        spec_distinct_ids(ts),
    ensures
        spec_distinct_ids(spec_audit(ts, d, seq0, now_ms).trackers),
{
    let s1 = spec_sync(ts, d.items@).trackers;
    let m1 = spec_mark_evict(s1, d);
    lemma_sync_distinct(ts, d.items@, d.items@.len() as int);
    lemma_mark_distinct(s1, d, s1.len() as int);
    lemma_tick_keeps_ids(m1, seq0, now_ms, m1.len() as int);
    let out = spec_audit(ts, d, seq0, now_ms).trackers;
    assert forall|i: int, j: int| 0 <= i < j < out.len() implies out[i].package_id@
        != out[j].package_id@ by {
        assert(out[i].package_id == m1[i].package_id);
        assert(out[j].package_id == m1[j].package_id);
    }
}

/// Frame processing touches at most one record and never its package
/// id, so the one-record-per-package invariant survives it too.
pub proof fn lemma_frame_preserves_distinct_ids(ts: Seq<SubscriptionTracking>, f: FrameData)
    requires
        spec_distinct_ids(ts),
    ensures
        spec_distinct_ids(spec_process_frame(ts, f).trackers),
{
    let out = spec_process_frame(ts, f).trackers;
    if f.id != 0 && spec_first_corr_from(ts, f.id, 0) is Some {
        lemma_first_corr_found(ts, f.id, 0);
    }
    assert forall|i: int, j: int| 0 <= i < j < out.len() implies out[i].package_id@
        != out[j].package_id@ by {
        assert(out[i].package_id == ts[i].package_id);
        assert(out[j].package_id == ts[j].package_id);
    }
}

/// A subscribed record stays subscribed until reconciliation marks it
/// for removal: an audit tick leaves it untouched.
pub proof fn lemma_subscribed_is_stable(t: SubscriptionTracking, seq: u64, now_ms: u64)
    requires
        t.state is Subscribed,
        !t.remove_requested,
    ensures
        spec_tick_one(t, seq, now_ms).t == t,
        !spec_tick_one(t, seq, now_ms).changed,
        !spec_tick_one(t, seq, now_ms).has_req,
{
}

/// `ReadyToDelete` is terminal within a transport session: no further
/// tick moves the record anywhere else or sends anything for it.
pub proof fn lemma_terminal_is_stable(t: SubscriptionTracking, seq: u64, now_ms: u64)
    requires
        t.state is ReadyToDelete,
    ensures
        spec_tick_one(t, seq, now_ms).t == t,
        !spec_tick_one(t, seq, now_ms).changed,
        !spec_tick_one(t, seq, now_ms).has_req,
{
}

/// Within one audit, the stepping pass advances each record by exactly
/// one `spec_tick_one` step, at the counter threaded up to it: the
/// per-record removal bound of `lemma_removal_bounded` therefore counts
/// audit passes whose rate-limit window was open.
pub proof fn lemma_tick_upto_index(
    ts: Seq<SubscriptionTracking>,
    seq0: u64,
    now_ms: u64,
    n: int,
    i: int,
)
    requires
        0 <= i < n <= ts.len(),
    ensures
        spec_tick_upto(ts, seq0, now_ms, n).trackers[i] == spec_tick_one(
            ts[i],
            spec_tick_upto(ts, seq0, now_ms, i).seq,
            now_ms,
        ).t,
    decreases n,
{
    lemma_tick_keeps_ids(ts, seq0, now_ms, n - 1);
    if i < n - 1 {
        lemma_tick_upto_index(ts, seq0, now_ms, n - 1, i);
    }
}

/// The record that one fresh audit makes of a desired instance: tracked,
/// `Subscribing`, waiting on the request with id `id` sent at `now_ms`.
pub open spec fn spec_fresh_subscribing(
    d: PackageInstance,
    id: u64,
    now_ms: u64,
) -> SubscriptionTracking {
    SubscriptionTracking {
        state: TrackingState::Subscribing,
        last_request_seq: id,
        last_request_time_ms: now_ms,
        request_retry: 1,
        waiting_response: true,
        ..crate::reconcile::spec_new_tracker(d)
    }
}

/// The insertion pass from an empty tracker set creates exactly one
/// fresh record per desired instance, in order.
pub proof fn lemma_sync_from_empty(desired: Seq<PackageInstance>, n: int)
    requires
        0 <= n <= desired.len(),
        forall|i: int, j: int|
            0 <= i < j < desired.len() ==> desired[i].package_id@ != desired[j].package_id@,
    ensures
        spec_sync_upto(Seq::empty(), desired, n).trackers.len() == n,
        forall|i: int|
            0 <= i < n ==> #[trigger] spec_sync_upto(Seq::empty(), desired, n).trackers[i]
                == spec_new_tracker(desired[i]),
    decreases n,
{
    if n > 0 {
        lemma_sync_from_empty(desired, n - 1);
        let prev = spec_sync_upto(Seq::empty(), desired, n - 1).trackers;
        assert(!spec_contains_id(prev, desired[n - 1].package_id@)) by {
            if spec_contains_id(prev, desired[n - 1].package_id@) {
                let w = choose|w: int|
                    0 <= w < prev.len() && prev[w].package_id@ == desired[n - 1].package_id@;
                assert(prev[w] == spec_new_tracker(desired[w]));
            }
        }
    }
}

/// Stepping freshly created records subscribes each in turn: one state
/// change, one request with the next counter value, exact wire bytes.
pub proof fn lemma_tick_fresh(
    ts: Seq<SubscriptionTracking>,
    desired: Seq<PackageInstance>,
    seq0: u64,
    now_ms: u64,
    n: int,
)
    requires
        ts.len() == desired.len(),
        forall|i: int| 0 <= i < ts.len() ==> #[trigger] ts[i] == spec_new_tracker(desired[i]),
        seq0 as int + ts.len() <= u64::MAX as int,
        0 <= n <= ts.len(),
    ensures
        ({
            let a = spec_tick_upto(ts, seq0, now_ms, n);
            &&& a.trackers.len() == n
            &&& a.reqs.len() == n
            &&& a.seq == seq0 + n
            &&& a.state_change == (n > 0)
            &&& forall|i: int|
                0 <= i < n ==> #[trigger] a.trackers[i] == spec_fresh_subscribing(
                    desired[i],
                    (seq0 + 1 + i) as u64,
                    now_ms,
                )
            &&& forall|i: int|
                0 <= i < n ==> #[trigger] a.reqs[i] == spec_subscribe_request(
                    (seq0 + 1 + i) as u64,
                    desired[i].package_id@,
                )
        }),
    decreases n,
{
    if n > 0 {
        lemma_tick_fresh(ts, desired, seq0, now_ms, n - 1);
        // A fresh record has no send time, so nothing suppresses its
        // first subscribe.
        assert(!ts[n - 1].spec_recently_sent(now_ms));
    }
}

/// One AUDIT on a fresh transport session re-subscribes the whole
/// desired set: a record is inserted for each desired package, moved
/// from `Disconnected` to `Subscribing`, and one subscribe request per
/// package goes on the wire, with fresh consecutive session ids and the
/// exact frame bytes.
pub proof fn lemma_fresh_session_resubscribes(d: DesiredSet, seq0: u64, now_ms: u64)
    requires
        d.wf(),
        seq0 as int + d.items@.len() <= u64::MAX as int,
    ensures
        ({
            let a = spec_audit(Seq::empty(), d, seq0, now_ms);
            &&& a.trackers.len() == d.items@.len()
            &&& a.reqs.len() == d.items@.len()
            &&& a.seq == seq0 + d.items@.len()
            &&& a.state_change == (d.items@.len() > 0)
            &&& forall|i: int|
                0 <= i < d.items@.len() ==> #[trigger] a.trackers[i] == spec_fresh_subscribing(
                    d.items@[i],
                    (seq0 + 1 + i) as u64,
                    now_ms,
                )
            &&& forall|i: int|
                0 <= i < d.items@.len() ==> #[trigger] a.reqs[i] == spec_subscribe_request(
                    (seq0 + 1 + i) as u64,
                    d.items@[i].package_id@,
                )
        }),
{
    let n = d.items@.len() as int;
    lemma_sync_from_empty(d.items@, n);
    let s1 = spec_sync(Seq::empty(), d.items@).trackers;
    assert forall|i: int| 0 <= i < s1.len() implies (d.spec_is_most_recent(
        #[trigger] s1[i].package_uuid@,
        s1[i].package_timestamp@,
    ) || (s1[i].remove_requested && !(s1[i].state is ReadyToDelete))) by {
        assert(s1[i] == spec_new_tracker(d.items@[i]));
        assert(d.items@[i].package_uuid@ == s1[i].package_uuid@ && d.items@[i].package_timestamp@
            == s1[i].package_timestamp@);
    }
    lemma_mark_noop(s1, d, s1.len() as int);
    let m1 = spec_mark_evict(s1, d);
    assert(m1 =~= s1.take(s1.len() as int));
    assert(m1 =~= s1);
    lemma_tick_fresh(m1, d.items@, seq0, now_ms, n);
}

} // verus!
