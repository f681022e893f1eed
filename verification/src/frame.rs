//! Processing of one inbound protocol frame: response correlation by
//! JSON-RPC id, then notification validation and routing by subscription
//! number.
//!
//! The frame arrives already reduced to the plain fields the logic reads
//! (`FrameData`); pulling those out of the JSON text is the business of
//! the decoding layer. Field access is fault-tolerant by construction:
//! every missing or mistyped field lands in an `Ignored` outcome, never
//! in a panic.

use vstd::prelude::*;
use vstd::string::StrSliceExecFns;
use vstd::string::StringExecFns;

use crate::reconcile::spec_all_wf;
use crate::tracker::SubscriptionTracking;
use crate::tracker::TrackingState;

verus! {

/// The fields of one inbound text frame that the routing logic reads.
pub struct FrameData {
    /// The `id` field as u64, with 0 standing for absent or non-numeric;
    /// a nonzero id marks a response to one of our requests.
    pub id: u64,
    /// The top-level `result` field as u64, carried by subscribe responses.
    pub result_num: Option<u64>,
    /// The `method` field.
    pub method: Option<String>,
    /// `params.subscription` as u64.
    pub subscription: Option<u64>,
    /// Whether `params` is present as an object.
    pub params_present: bool,
    /// Whether `params.result` is present as an object.
    pub result_present: bool,
    /// `params.result.packageId` as a string, expected `0x`-prefixed.
    pub package_id_field: Option<String>,
}

/// Why a frame was dropped. Every drop is logged by the caller; none
/// aborts anything.
#[derive(Clone, Copy, Debug, PartialEq, Eq, Structural)]
pub enum DropReason {
    /// Correlated subscribe response without a numeric `result`.
    MissingResult,
    MissingMethod,
    UnexpectedMethod,
    MissingParams,
    MissingSubscription,
    MissingResultObject,
    /// Notification whose subscription matches no `Subscribed` tracker.
    UnknownSubscription,
    MissingPackageId,
    /// `packageId` not `0x`-prefixed.
    InvalidPackageId,
    /// `packageId` differs from the tracker's package id.
    PackageIdMismatch,
}

/// What one frame amounts to.
#[derive(Debug)]
pub enum FrameOutcome {
    /// A subscribe response was correlated; an AUDIT should be scheduled.
    SubscribeConfirmed { package_id: String },
    /// An unsubscribe response was correlated; an AUDIT should be scheduled.
    UnsubscribeConfirmed { package_id: String },
    /// A validated notification: emit `add_sui_event` upstream with these
    /// parameters and the original payload.
    Event { package_uuid: String, package_name: String },
    /// Frame dropped.
    Ignored { reason: DropReason },
}

impl FrameOutcome {
    /// Whether the caller must schedule a self-addressed AUDIT.
    pub fn triggers_audit(&self) -> (r: bool)
        ensures
            r == (self is SubscribeConfirmed || self is UnsubscribeConfirmed),
    {
        match self {
            FrameOutcome::SubscribeConfirmed { .. } => true,
            FrameOutcome::UnsubscribeConfirmed { .. } => true,
            _ => false,
        }
    }
}

/// A tracker awaiting the response whose JSON-RPC id is `id`.
pub open spec fn spec_corr_match(t: SubscriptionTracking, id: u64) -> bool {
    t.waiting_response && t.last_request_seq == id && (t.state is Subscribing
        || t.state is Unsubscribing)
}

/// Index of the first tracker from `i` on that awaits response `id`.
pub open spec fn spec_first_corr_from(
    ts: Seq<SubscriptionTracking>,
    id: u64,
    i: int,
) -> Option<int>
    decreases ts.len() - i,
{
    if i < 0 || i >= ts.len() {
        None
    } else if spec_corr_match(ts[i], id) {
        Some(i)
    } else {
        spec_first_corr_from(ts, id, i + 1)
    }
}

/// A `Subscribed` tracker routing notifications numbered `sub`.
pub open spec fn spec_sub_match(t: SubscriptionTracking, sub: u64) -> bool {
    t.state is Subscribed && t.subscription_number == sub
}

/// Index of the first tracker from `i` on that is subscribed as `sub`.
pub open spec fn spec_first_sub_from(
    ts: Seq<SubscriptionTracking>,
    sub: u64,
    i: int,
) -> Option<int>
    decreases ts.len() - i,
{
    if i < 0 || i >= ts.len() {
        None
    } else if spec_sub_match(ts[i], sub) {
        Some(i)
    } else {
        spec_first_sub_from(ts, sub, i + 1)
    }
}

/// `packageId` values on the wire are `0x`-prefixed.
pub open spec fn spec_has_0x_prefix(p: Seq<char>) -> bool {
    p.len() >= 2 && p[0] == '0' && p[1] == 'x'
}

/// Result of processing one frame.
pub ghost struct SpecFrameStep {
    pub trackers: Seq<SubscriptionTracking>,
    pub outcome: FrameOutcome,
}

/// What processing a frame does, as a function of the tracked records and
/// the frame's fields.
pub open spec fn spec_process_frame(ts: Seq<SubscriptionTracking>, f: FrameData) -> SpecFrameStep {
    if f.id != 0 && spec_first_corr_from(ts, f.id, 0) is Some {
        let i = spec_first_corr_from(ts, f.id, 0)->0;
        let t = ts[i];
        if t.state is Subscribing {
            match f.result_num {
                None => SpecFrameStep {
                    trackers: ts,
                    outcome: FrameOutcome::Ignored { reason: DropReason::MissingResult },
                },
                Some(v) => SpecFrameStep {
                    trackers: ts.update(
                        i,
                        SubscriptionTracking {
                            subscription_number: v,
                            unsubscribed_id: Some(v),
                            waiting_response: false,
                            ..t
                        },
                    ),
                    outcome: FrameOutcome::SubscribeConfirmed { package_id: t.package_id },
                },
            }
        } else {
            SpecFrameStep {
                trackers: ts.update(
                    i,
                    SubscriptionTracking {
                        unsubscribed_id: None,
                        waiting_response: false,
                        ..t
                    },
                ),
                outcome: FrameOutcome::UnsubscribeConfirmed { package_id: t.package_id },
            }
        }
    } else {
        SpecFrameStep { trackers: ts, outcome: spec_route_notification(ts, f) }
    }
}

/// Validation and routing of a notification frame (or of a response that
/// correlates with nothing, which fails the method check like any other
/// non-notification).
pub open spec fn spec_route_notification(
    ts: Seq<SubscriptionTracking>,
    f: FrameData,
) -> FrameOutcome {
    match f.method {
        None => FrameOutcome::Ignored { reason: DropReason::MissingMethod },
        Some(m) => if m@ != "suix_subscribeEvent"@ {
            FrameOutcome::Ignored { reason: DropReason::UnexpectedMethod }
        } else if !f.params_present {
            FrameOutcome::Ignored { reason: DropReason::MissingParams }
        } else {
            match f.subscription {
                None => FrameOutcome::Ignored { reason: DropReason::MissingSubscription },
                Some(sub) => if !f.result_present {
                    FrameOutcome::Ignored { reason: DropReason::MissingResultObject }
                } else {
                    match spec_first_sub_from(ts, sub, 0) {
                        None => FrameOutcome::Ignored {
                            reason: DropReason::UnknownSubscription,
                        },
                        Some(i) => spec_check_package_id(ts[i], f.package_id_field),
                    }
                },
            }
        },
    }
}

/// The sanity check on `packageId` against the routed-to tracker.
pub open spec fn spec_check_package_id(
    t: SubscriptionTracking,
    package_id_field: Option<String>,
) -> FrameOutcome {
    match package_id_field {
        None => FrameOutcome::Ignored { reason: DropReason::MissingPackageId },
        Some(p) => if !spec_has_0x_prefix(p@) {
            FrameOutcome::Ignored { reason: DropReason::InvalidPackageId }
        } else if p@.skip(2) != t.package_id@ {
            FrameOutcome::Ignored { reason: DropReason::PackageIdMismatch }
        } else {
            FrameOutcome::Event {
                package_uuid: t.package_uuid,
                package_name: t.package_name,
            }
        },
    }
}

proof fn lemma_first_corr_prefix(ts: Seq<SubscriptionTracking>, id: u64, i: int)
    requires
        0 <= i <= ts.len(),
        forall|k: int| 0 <= k < i ==> !spec_corr_match(ts[k], id),
    ensures
        spec_first_corr_from(ts, id, 0) == spec_first_corr_from(ts, id, i),
    decreases i,
{
    if i > 0 {
        lemma_first_corr_prefix(ts, id, i - 1);
    }
}

proof fn lemma_first_sub_prefix(ts: Seq<SubscriptionTracking>, sub: u64, i: int)
    requires
        0 <= i <= ts.len(),
        forall|k: int| 0 <= k < i ==> !spec_sub_match(ts[k], sub),
    ensures
        spec_first_sub_from(ts, sub, 0) == spec_first_sub_from(ts, sub, i),
    decreases i,
{
    if i > 0 {
        lemma_first_sub_prefix(ts, sub, i - 1);
    }
}

pub proof fn lemma_first_corr_found(ts: Seq<SubscriptionTracking>, id: u64, k: int)
    requires
        spec_first_corr_from(ts, id, k) is Some,
    ensures
        ({
            let i = spec_first_corr_from(ts, id, k)->0;
            k <= i < ts.len() && spec_corr_match(ts[i], id)
        }),
    decreases ts.len() - k,
{
    if 0 <= k < ts.len() && !spec_corr_match(ts[k], id) {
        lemma_first_corr_found(ts, id, k + 1);
    }
}

pub proof fn lemma_first_sub_found(ts: Seq<SubscriptionTracking>, sub: u64, k: int)
    requires
        spec_first_sub_from(ts, sub, k) is Some,
    ensures
        ({
            let i = spec_first_sub_from(ts, sub, k)->0;
            k <= i < ts.len() && spec_sub_match(ts[i], sub)
        }),
    decreases ts.len() - k,
{
    if 0 <= k < ts.len() && !spec_sub_match(ts[k], sub) {
        lemma_first_sub_found(ts, sub, k + 1);
    }
}

/// An upstream event is emitted only for a notification that routed to
/// a currently `Subscribed` tracker — its `subscription` names that
/// tracker's number, its `packageId` is exactly `0x` followed by that
/// tracker's package id, and the emitted parameters are that tracker's
/// uuid and name. A notification matching no subscribed tracker, or one
/// whose `packageId` disagrees, emits nothing.
pub proof fn lemma_event_needs_subscribed_tracker(ts: Seq<SubscriptionTracking>, f: FrameData)
    requires
        spec_process_frame(ts, f).outcome is Event,
    ensures
        exists|i: int|
            0 <= i < ts.len() && (#[trigger] ts[i].state is Subscribed) && f.subscription
                == Some(ts[i].subscription_number) && (match f.package_id_field {
                Some(p) => spec_has_0x_prefix(p@) && p@.skip(2) == ts[i].package_id@,
                None => false,
            }) && spec_process_frame(ts, f).outcome == (FrameOutcome::Event {
                package_uuid: ts[i].package_uuid,
                package_name: ts[i].package_name,
            }),
{
    if f.id != 0 && spec_first_corr_from(ts, f.id, 0) is Some {
    } else {
        match f.subscription {
            Some(sub) => {
                if spec_first_sub_from(ts, sub, 0) is Some {
                    lemma_first_sub_found(ts, sub, 0);
                    let i = spec_first_sub_from(ts, sub, 0)->0;
                    assert(ts[i].state is Subscribed && f.subscription == Some(
                        ts[i].subscription_number,
                    ) && (match f.package_id_field {
                        Some(p) => spec_has_0x_prefix(p@) && p@.skip(2) == ts[i].package_id@,
                        None => false,
                    }) && spec_process_frame(ts, f).outcome == (FrameOutcome::Event {
                        package_uuid: ts[i].package_uuid,
                        package_name: ts[i].package_name,
                    }));
                }
            },
            None => {},
        }
    }
}

/// A record acquires the unsubscribe handle — and with it the only way
/// into `Subscribed` — through a correlated subscribe response alone: if
/// a frame step hands a record a handle it did not hold, then the frame
/// was a response whose id matched that record's pending subscribe
/// request, and the handle is the numeric `result` it carried.
pub proof fn lemma_handle_needs_correlated_response(
    ts: Seq<SubscriptionTracking>,
    f: FrameData,
    i: int,
)
    requires
        0 <= i < ts.len(),
        ts[i].unsubscribed_id is None,
        spec_process_frame(ts, f).trackers[i].unsubscribed_id is Some,
    ensures
        f.id != 0,
        ts[i].state is Subscribing,
        ts[i].waiting_response,
        ts[i].last_request_seq == f.id,
        f.result_num is Some,
        spec_process_frame(ts, f).trackers[i].subscription_number == f.result_num->0,
        spec_process_frame(ts, f).outcome is SubscribeConfirmed,
{
    if f.id != 0 && spec_first_corr_from(ts, f.id, 0) is Some {
        lemma_first_corr_found(ts, f.id, 0);
    }
}

/// Processes one decoded frame against the tracked records. Correlated
/// responses update the matching tracker; validated notifications name
/// the package to emit upstream; everything else is ignored with its
/// reason.
#[verifier::loop_isolation(false)]
pub fn process_frame(trackers: Vec<SubscriptionTracking>, frame: &FrameData) -> (r: (
    Vec<SubscriptionTracking>,
    FrameOutcome,
))
    requires
        spec_all_wf(trackers@),
    ensures
        ({
            let sf = spec_process_frame(trackers@, *frame);
            &&& r.0@ == sf.trackers
            &&& r.1 == sf.outcome
            &&& spec_all_wf(r.0@)
        }),
{
    let ghost ts0 = trackers@;
    let mut items = trackers;
    if frame.id != 0 {
        let mut i: usize = 0;
        while i < items.len()
            invariant
                spec_all_wf(items@),
                items@ == ts0,
                i <= items@.len(),
                forall|k: int| 0 <= k < i ==> !spec_corr_match(ts0[k], frame.id),
            decreases items@.len() - i,
        {
            let hit = items[i].did_sent_subscribe_request(frame.id)
                || items[i].did_sent_unsubscribe_request(frame.id);
            if hit {
                proof {
                    assert(spec_corr_match(ts0[i as int], frame.id));
                    lemma_first_corr_prefix(ts0, frame.id, i as int);
                    assert(spec_first_corr_from(ts0, frame.id, 0) == Some(i as int));
                }
                let mut t = items.remove(i);
                let subscribing = match t.state {
                    TrackingState::Subscribing => true,
                    _ => false,
                };
                if subscribing {
                    match frame.result_num {
                        None => {
                            let ghost tg = t;
                            items.insert(i, t);
                            proof {
                                ts0.remove_ensures(i as int);
                                ts0.remove(i as int).insert_ensures(i as int, tg);
                                assert(items@ =~= ts0);
                            }
                            return (items, FrameOutcome::Ignored {
                                reason: DropReason::MissingResult,
                            });
                        },
                        Some(v) => {
                            let package_id = t.package_id.clone();
                            t.report_subscribing_response(v);
                            let ghost tg = t;
                            items.insert(i, t);
                            proof {
                                ts0.remove_ensures(i as int);
                                ts0.remove(i as int).insert_ensures(i as int, tg);
                                assert(items@ =~= ts0.update(i as int, tg));
                            }
                            return (items, FrameOutcome::SubscribeConfirmed { package_id });
                        },
                    }
                } else {
                    let package_id = t.package_id.clone();
                    t.report_unsubscribing_response();
                    let ghost tg = t;
                    items.insert(i, t);
                    proof {
                        ts0.remove_ensures(i as int);
                        ts0.remove(i as int).insert_ensures(i as int, tg);
                        assert(items@ =~= ts0.update(i as int, tg));
                    }
                    return (items, FrameOutcome::UnsubscribeConfirmed { package_id });
                }
            }
            i = i + 1;
        }
        proof {
            lemma_first_corr_prefix(ts0, frame.id, ts0.len() as int);
        }
    }
    // Not a correlated response: treat as a notification.
    let outcome = route_notification(&items, frame);
    (items, outcome)
}

#[verifier::loop_isolation(false)]
fn route_notification(items: &Vec<SubscriptionTracking>, frame: &FrameData) -> (r: FrameOutcome)
    ensures
        r == spec_route_notification(items@, *frame),
{
    let m = match &frame.method {
        None => {
            return FrameOutcome::Ignored { reason: DropReason::MissingMethod };
        },
        Some(m) => m,
    };
    let expected = String::from_str("suix_subscribeEvent");
    if *m != expected {
        return FrameOutcome::Ignored { reason: DropReason::UnexpectedMethod };
    }
    if !frame.params_present {
        return FrameOutcome::Ignored { reason: DropReason::MissingParams };
    }
    let sub = match frame.subscription {
        None => {
            return FrameOutcome::Ignored { reason: DropReason::MissingSubscription };
        },
        Some(s) => s,
    };
    if !frame.result_present {
        return FrameOutcome::Ignored { reason: DropReason::MissingResultObject };
    }
    let mut i: usize = 0;
    while i < items.len()
        invariant
            i <= items@.len(),
            forall|k: int| 0 <= k < i ==> !spec_sub_match(items@[k], sub),
        decreases items@.len() - i,
    {
        let is_subscribed = match items[i].state {
            TrackingState::Subscribed => true,
            _ => false,
        };
        if is_subscribed && items[i].subscription_number == sub {
            proof {
                lemma_first_sub_prefix(items@, sub, i as int);
            }
            return check_package_id(&items[i], &frame.package_id_field);
        }
        i = i + 1;
    }
    proof {
        lemma_first_sub_prefix(items@, sub, items@.len() as int);
    }
    FrameOutcome::Ignored { reason: DropReason::UnknownSubscription }
}

fn check_package_id(t: &SubscriptionTracking, package_id_field: &Option<String>) -> (r:
    FrameOutcome)
    ensures
        r == spec_check_package_id(*t, *package_id_field),
{
    let p = match package_id_field {
        None => {
            return FrameOutcome::Ignored { reason: DropReason::MissingPackageId };
        },
        Some(p) => p,
    };
    let len = p.as_str().unicode_len();
    if len < 2 || p.as_str().get_char(0) != '0' || p.as_str().get_char(1) != 'x' {
        return FrameOutcome::Ignored { reason: DropReason::InvalidPackageId };
    }
    let stripped = p.as_str().substring_char(2, len).to_owned();
    if stripped != t.package_id {
        proof {
            assert(p@.subrange(2, p@.len() as int) =~= p@.skip(2));
        }
        return FrameOutcome::Ignored { reason: DropReason::PackageIdMismatch };
    }
    proof {
        assert(p@.subrange(2, p@.len() as int) =~= p@.skip(2));
    }
    FrameOutcome::Event {
        package_uuid: t.package_uuid.clone(),
        package_name: t.package_name.clone(),
    }
}

} // verus!
