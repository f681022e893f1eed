//! Reconciliation of the tracked subscriptions against the desired set.
//!
//! An AUDIT pass is read-only on the desired set: it inserts a fresh
//! tracker for every desired package not yet tracked, marks trackers of
//! departed packages for removal (evicting those already terminal), and
//! then steps every tracker's state machine, collecting the requests to
//! put on the wire. An UPDATE pass only performs the insertion step and
//! reports whether anything was inserted.
//!
//! Every exec function returns exactly what its spec-level mirror says,
//! so the reconciliation laws (idempotence, determinism, bounded removal)
//! are provable statements about one function.

use vstd::prelude::*;

use crate::desired::DesiredSet;
use crate::desired::PackageInstance;
use crate::session::WebSocketManagement;
use crate::tick::SpecTick;
use crate::tick::spec_try_to_subscribe;
use crate::tick::spec_try_to_unsubscribe;
use crate::tick::try_to_subscribe;
use crate::tick::try_to_unsubscribe;
use crate::tracker::SubscriptionTracking;
use crate::tracker::TrackingState;

verus! {

/// The tracker that reconciliation creates for a desired instance.
pub open spec fn spec_new_tracker(d: PackageInstance) -> SubscriptionTracking {
    SubscriptionTracking {
        package_id: d.package_id,
        package_uuid: d.package_uuid,
        package_name: d.package_name,
        package_timestamp: d.package_timestamp,
        state: TrackingState::Disconnected,
        subscription_number: 0,
        unsubscribed_id: None,
        last_request_seq: 0,
        last_request_time_ms: 0,
        request_retry: 0,
        remove_requested: false,
        waiting_response: false,
    }
}

/// Some tracked record carries this package id.
pub open spec fn spec_contains_id(ts: Seq<SubscriptionTracking>, package_id: Seq<char>) -> bool {
    exists|i: int| 0 <= i < ts.len() && ts[i].package_id@ == package_id
}

/// At most one tracking record per package id.
pub open spec fn spec_distinct_ids(ts: Seq<SubscriptionTracking>) -> bool {
    forall|i: int, j: int| 0 <= i < j < ts.len() ==> ts[i].package_id@ != ts[j].package_id@
}

/// Every record is well formed.
pub open spec fn spec_all_wf(ts: Seq<SubscriptionTracking>) -> bool {
    forall|i: int| 0 <= i < ts.len() ==> ts[i].wf()
}

/// Every record has room for one more retry count.
pub open spec fn spec_retry_headroom(ts: Seq<SubscriptionTracking>) -> bool {
    forall|i: int| 0 <= i < ts.len() ==> ts[i].request_retry < u64::MAX
}

/// Result of the insertion pass: the trackers, and whether any were added.
pub ghost struct SpecSync {
    pub trackers: Seq<SubscriptionTracking>,
    pub inserted: bool,
}

/// Insertion pass over the first `n` desired instances: a fresh
/// `Disconnected` tracker for every desired package not already tracked.
pub open spec fn spec_sync_upto(
    ts: Seq<SubscriptionTracking>,
    desired: Seq<PackageInstance>,
    n: int,
) -> SpecSync
    decreases n,
{
    if n <= 0 {
        SpecSync { trackers: ts, inserted: false }
    } else {
        let prev = spec_sync_upto(ts, desired, n - 1);
        let d = desired[n - 1];
        if spec_contains_id(prev.trackers, d.package_id@) {
            prev
        } else {
            SpecSync { trackers: prev.trackers.push(spec_new_tracker(d)), inserted: true }
        }
    }
}

pub open spec fn spec_sync(ts: Seq<SubscriptionTracking>, desired: Seq<PackageInstance>) -> SpecSync {
    spec_sync_upto(ts, desired, desired.len() as int)
}

/// What the marking pass does with one record: keep it while its identity
/// is still desired; otherwise evict it once terminal, else mark it.
pub open spec fn spec_mark_one(
    out: Seq<SubscriptionTracking>,
    t: SubscriptionTracking,
    desired: DesiredSet,
) -> Seq<SubscriptionTracking> {
    if desired.spec_is_most_recent(t.package_uuid@, t.package_timestamp@) {
        out.push(t)
    } else if t.state is ReadyToDelete {
        out
    } else {
        out.push(SubscriptionTracking { remove_requested: true, ..t })
    }
}

/// Marking pass over the first `n` records.
pub open spec fn spec_mark_upto(
    ts: Seq<SubscriptionTracking>,
    desired: DesiredSet,
    n: int,
) -> Seq<SubscriptionTracking>
    decreases n,
{
    if n <= 0 {
        Seq::empty()
    } else {
        spec_mark_one(spec_mark_upto(ts, desired, n - 1), ts[n - 1], desired)
    }
}

pub open spec fn spec_mark_evict(
    ts: Seq<SubscriptionTracking>,
    desired: DesiredSet,
) -> Seq<SubscriptionTracking> {
    spec_mark_upto(ts, desired, ts.len() as int)
}

/// One state-machine step of one record during an audit.
pub open spec fn spec_tick_one(t: SubscriptionTracking, seq: u64, now_ms: u64) -> SpecTick {
    if t.remove_requested {
        spec_try_to_unsubscribe(t, seq, now_ms)
    } else {
        match t.state {
            TrackingState::Disconnected => spec_try_to_subscribe(t, seq, now_ms),
            TrackingState::Subscribing => spec_try_to_subscribe(t, seq, now_ms),
            TrackingState::Unsubscribing => spec_try_to_unsubscribe(t, seq, now_ms),
            _ => SpecTick { t, seq, has_req: false, req_text: Seq::empty(), changed: false },
        }
    }
}

/// Result of the stepping pass: the trackers, the sequence counter, the
/// requests to send in order, and whether any lifecycle state changed.
pub ghost struct SpecAudit {
    pub trackers: Seq<SubscriptionTracking>,
    pub seq: u64,
    pub reqs: Seq<Seq<char>>,
    pub state_change: bool,
}

/// Stepping pass over the first `n` records, threading the counter.
pub open spec fn spec_tick_upto(
    ts: Seq<SubscriptionTracking>,
    seq0: u64,
    now_ms: u64,
    n: int,
) -> SpecAudit
    decreases n,
{
    if n <= 0 {
        SpecAudit { trackers: Seq::empty(), seq: seq0, reqs: Seq::empty(), state_change: false }
    } else {
        let prev = spec_tick_upto(ts, seq0, now_ms, n - 1);
        let st = spec_tick_one(ts[n - 1], prev.seq, now_ms);
        SpecAudit {
            trackers: prev.trackers.push(st.t),
            seq: st.seq,
            reqs: if st.has_req {
                prev.reqs.push(st.req_text)
            } else {
                prev.reqs
            },
            state_change: prev.state_change || st.changed,
        }
    }
}

pub open spec fn spec_tick_all(
    ts: Seq<SubscriptionTracking>,
    seq0: u64,
    now_ms: u64,
) -> SpecAudit {
    spec_tick_upto(ts, seq0, now_ms, ts.len() as int)
}

/// The whole AUDIT pass as a function of the trackers, the desired set,
/// the session counter and the clock.
pub open spec fn spec_audit(
    ts: Seq<SubscriptionTracking>,
    desired: DesiredSet,
    seq0: u64,
    now_ms: u64,
) -> SpecAudit {
    spec_tick_all(spec_mark_evict(spec_sync(ts, desired.items@).trackers, desired), seq0, now_ms)
}

fn vec_contains_package(items: &Vec<SubscriptionTracking>, package_id: &String) -> (r: bool)
    ensures
        r == spec_contains_id(items@, package_id@),
{
    let mut i: usize = 0;
    while i < items.len()
        invariant
            i <= items@.len(),
            forall|k: int| 0 <= k < i ==> items@[k].package_id@ != package_id@,
        decreases items@.len() - i,
    {
        if items[i].package_id == *package_id {
            return true;
        }
        i = i + 1;
    }
    false
}

/// Insertion pass: one fresh tracker per desired package not yet tracked.
/// Returns the trackers and whether anything was inserted.
pub fn sync_trackers_with_desired(
    trackers: Vec<SubscriptionTracking>,
    desired: &DesiredSet,
) -> (r: (Vec<SubscriptionTracking>, bool))
    ensures
        ({
            let ss = spec_sync(trackers@, desired.items@);
            r.0@ == ss.trackers && r.1 == ss.inserted
        }),
{
    let ghost ts0 = trackers@;
    let mut items = trackers;
    let mut inserted: bool = false;
    let mut di: usize = 0;
    while di < desired.items.len()
        invariant
            di <= desired.items@.len(),
            items@ =~= spec_sync_upto(ts0, desired.items@, di as int).trackers,
            inserted == spec_sync_upto(ts0, desired.items@, di as int).inserted,
        decreases desired.items@.len() - di,
    {
        let d = &desired.items[di];
        if !vec_contains_package(&items, &d.package_id) {
            let t = SubscriptionTracking::new_for_managed_package(
                d.package_name.clone(),
                d.package_uuid.clone(),
                d.package_timestamp.clone(),
                d.package_id.clone(),
            );
            proof {
                assert(t == spec_new_tracker(desired.items@[di as int]));
            }
            items.push(t);
            inserted = true;
        }
        di = di + 1;
    }
    (items, inserted)
}

/// Marking pass: trackers whose identity left the desired set are marked
/// for removal, and terminal ones among them are evicted.
pub fn mark_and_evict(trackers: Vec<SubscriptionTracking>, desired: &DesiredSet) -> (r: Vec<
    SubscriptionTracking,
>)
    ensures
        r@ == spec_mark_evict(trackers@, *desired),
{
    let ghost ts0 = trackers@;
    let mut kept: Vec<SubscriptionTracking> = Vec::new();
    let mut src = trackers;
    while src.len() > 0
        invariant
            src@.len() <= ts0.len(),
            src@ =~= ts0.skip(ts0.len() - src@.len()),
            kept@ =~= spec_mark_upto(ts0, *desired, ts0.len() - src@.len()),
        decreases src@.len(),
    {
        let ghost done = ts0.len() - src@.len();
        let mut t = src.remove(0);
        proof {
            assert(t == ts0[done as int]);
            assert(src@ =~= ts0.skip(done + 1));
        }
        if desired.is_most_recent(&t.package_uuid, &t.package_timestamp) {
            kept.push(t);
        } else if t.can_be_deleted() {
            // Terminal and no longer desired: evicted.
        } else {
            t.report_remove_request();
            kept.push(t);
        }
    }
    kept
}

/// Stepping pass: advance every tracker's state machine once, collecting
/// the requests to put on the wire and whether any state changed.
pub fn tick_all_trackers(
    trackers: Vec<SubscriptionTracking>,
    ws: &mut WebSocketManagement,
    now_ms: u64,
) -> (r: (Vec<SubscriptionTracking>, bool, Vec<String>))
    requires
        old(ws).wf(),
        spec_all_wf(trackers@),
        spec_retry_headroom(trackers@),
        old(ws).seq_number as int + trackers@.len() < u64::MAX as int,
    ensures
        ({
            let sa = spec_tick_all(trackers@, old(ws).seq_number, now_ms);
            &&& r.0@ == sa.trackers
            &&& r.1 == sa.state_change
            &&& r.2.deep_view() == sa.reqs
            &&& final(ws).seq_number == sa.seq
            &&& final(ws).connected == old(ws).connected
            &&& final(ws).wf()
            &&& final(ws).issued@.len() == old(ws).issued@.len() + sa.reqs.len()
            &&& spec_all_wf(r.0@)
        }),
{
    let ghost ts0 = trackers@;
    let ghost seq0 = ws.seq_number;
    let ghost issued0 = ws.issued@;
    let mut out: Vec<SubscriptionTracking> = Vec::new();
    let mut reqs: Vec<String> = Vec::new();
    let mut state_change: bool = false;
    let mut src = trackers;
    while src.len() > 0
        invariant
            src@.len() <= ts0.len(),
            src@ =~= ts0.skip(ts0.len() - src@.len()),
            forall|i: int|
                0 <= i < src@.len() ==> src@[i].wf() && src@[i].request_retry < u64::MAX,
            seq0 as int + ts0.len() < u64::MAX as int,
            ws.seq_number as int <= seq0 + (ts0.len() - src@.len()),
            ws.wf(),
            ws.connected == old(ws).connected,
            ({
                let sa = spec_tick_upto(ts0, seq0, now_ms, ts0.len() - src@.len());
                &&& out@ =~= sa.trackers
                &&& state_change == sa.state_change
                &&& reqs.deep_view() =~= sa.reqs
                &&& ws.seq_number == sa.seq
                &&& ws.issued@.len() == issued0.len() + sa.reqs.len()
            }),
            spec_all_wf(out@),
        decreases src@.len(),
    {
        let ghost done = ts0.len() - src@.len();
        let ghost reqs_prev = reqs.deep_view();
        let mut t = src.remove(0);
        proof {
            assert(t == ts0[done as int]);
            assert(src@ =~= ts0.skip(done + 1));
        }
        let step: (bool, Option<String>) = if t.is_remove_requested() {
            try_to_unsubscribe(&mut t, ws, now_ms)
        } else {
            match t.state {
                TrackingState::Disconnected => try_to_subscribe(&mut t, ws, now_ms),
                TrackingState::Subscribing => try_to_subscribe(&mut t, ws, now_ms),
                TrackingState::Unsubscribing => try_to_unsubscribe(&mut t, ws, now_ms),
                _ => (false, None),
            }
        };
        if step.0 {
            state_change = true;
        }
        match step.1 {
            Some(s) => {
                reqs.push(s);
                proof {
                    assert(reqs.deep_view() =~= reqs_prev.push(
                        spec_tick_one(ts0[done as int], spec_tick_upto(ts0, seq0, now_ms, done).seq, now_ms).req_text,
                    ));
                }
            },
            None => {},
        }
        out.push(t);
    }
    (out, state_change, reqs)
}

/// The AUDIT pass. Returns the reconciled trackers, whether any lifecycle
/// state changed (the caller then schedules an UPDATE), and the request
/// frames to send, in order.
pub fn process_audit(
    trackers: Vec<SubscriptionTracking>,
    ws: &mut WebSocketManagement,
    desired: &DesiredSet,
    now_ms: u64,
) -> (r: (Vec<SubscriptionTracking>, bool, Vec<String>))
    requires
        old(ws).wf(),
        spec_all_wf(trackers@),
        spec_retry_headroom(trackers@),
        old(ws).seq_number as int + trackers@.len() + desired.items@.len() < u64::MAX as int,
    ensures
        ({
            let sa = spec_audit(trackers@, *desired, old(ws).seq_number, now_ms);
            &&& r.0@ == sa.trackers
            &&& r.1 == sa.state_change
            &&& r.2.deep_view() == sa.reqs
            &&& final(ws).seq_number == sa.seq
            &&& final(ws).connected == old(ws).connected
            &&& final(ws).wf()
            &&& final(ws).issued@.len() == old(ws).issued@.len() + sa.reqs.len()
            &&& spec_all_wf(r.0@)
        }),
{
    let ghost ts0 = trackers@;
    let (synced, _) = sync_trackers_with_desired(trackers, desired);
    proof {
        lemma_sync_upto_props(ts0, desired.items@, desired.items@.len() as int);
    }
    let ghost ts1 = synced@;
    let marked = mark_and_evict(synced, desired);
    proof {
        lemma_mark_upto_props(ts1, *desired, ts1.len() as int);
    }
    tick_all_trackers(marked, ws, now_ms)
}

/// The UPDATE pass: insert trackers for newly desired packages. Returns
/// the trackers and whether an AUDIT should be scheduled.
pub fn process_update(trackers: Vec<SubscriptionTracking>, desired: &DesiredSet) -> (r: (
    Vec<SubscriptionTracking>,
    bool,
))
    ensures
        ({
            let ss = spec_sync(trackers@, desired.items@);
            r.0@ == ss.trackers && r.1 == ss.inserted
        }),
        spec_all_wf(trackers@) ==> spec_all_wf(r.0@),
        spec_retry_headroom(trackers@) ==> spec_retry_headroom(r.0@),
{
    proof {
        lemma_sync_upto_props(trackers@, desired.items@, desired.items@.len() as int);
    }
    sync_trackers_with_desired(trackers, desired)
}

/// The insertion pass only appends fresh well-formed records: length is
/// bounded, and well-formedness and retry headroom carry over.
pub proof fn lemma_sync_upto_props(ts: Seq<SubscriptionTracking>, desired: Seq<PackageInstance>, n: int)
    requires
        n <= desired.len(),
    ensures
        spec_sync_upto(ts, desired, n).trackers.len() <= ts.len() + if n >= 0 {
            n
        } else {
            0
        },
        spec_all_wf(ts) ==> spec_all_wf(spec_sync_upto(ts, desired, n).trackers),
        spec_retry_headroom(ts) ==> spec_retry_headroom(spec_sync_upto(ts, desired, n).trackers),
    decreases n,
{
    if n > 0 {
        lemma_sync_upto_props(ts, desired, n - 1);
    }
}

/// The marking pass never grows the tracker list and keeps every record
/// well formed, with its retry count untouched.
pub proof fn lemma_mark_upto_props(ts: Seq<SubscriptionTracking>, desired: DesiredSet, n: int)
    requires
        n <= ts.len(),
    ensures
        spec_mark_upto(ts, desired, n).len() <= if n >= 0 {
            n
        } else {
            0
        },
        spec_all_wf(ts) ==> spec_all_wf(spec_mark_upto(ts, desired, n)),
        spec_retry_headroom(ts) ==> spec_retry_headroom(spec_mark_upto(ts, desired, n)),
    decreases n,
{
    if n > 0 {
        lemma_mark_upto_props(ts, desired, n - 1);
    }
}

} // verus!
