//! Per-tracker state-machine step: drive one record toward `Subscribed`
//! or toward `ReadyToDelete`, minting and formatting the request to send
//! on the wire, if any.
//!
//! Each exec function returns exactly what its spec-level mirror
//! (`spec_try_to_subscribe`, `spec_try_to_unsubscribe`) says, so the
//! reconciliation pass over all trackers has a functional description
//! that laws can be proved about.

use vstd::prelude::*;

use crate::requests::spec_subscribe_request;
use crate::requests::spec_unsubscribe_request;
use crate::requests::subscribe_request_format;
use crate::requests::unsubscribe_request_format;
use crate::session::WebSocketManagement;
use crate::tracker::MAX_UNSUBSCRIBE_RETRIES;
use crate::tracker::SubscriptionTracking;
use crate::tracker::TrackingState;

verus! {

/// Result of stepping one tracker: the new record, the sequence counter
/// after the step, the request put on the wire (if any), and whether the
/// lifecycle state changed.
pub ghost struct SpecTick {
    pub t: SubscriptionTracking,
    pub seq: u64,
    pub has_req: bool,
    pub req_text: Seq<char>,
    pub changed: bool,
}

/// What one subscribe-side step does, as a function of the record, the
/// session counter and the clock.
pub open spec fn spec_try_to_subscribe(
    t: SubscriptionTracking,
    seq: u64,
    now_ms: u64,
) -> SpecTick {
    if t.state is Subscribing && t.unsubscribed_id is Some {
        // The correlated response already arrived: the subscription is up.
        SpecTick {
            t: SubscriptionTracking { state: TrackingState::Subscribed, request_retry: 0, ..t },
            seq,
            has_req: false,
            req_text: Seq::empty(),
            changed: true,
        }
    } else if t.state is Disconnected || t.state is Subscribing {
        let t1 = if t.state is Disconnected {
            SubscriptionTracking { state: TrackingState::Subscribing, request_retry: 0, ..t }
        } else {
            t
        };
        let changed1 = t.state is Disconnected;
        if t1.spec_recently_sent(now_ms) {
            SpecTick { t: t1, seq, has_req: false, req_text: Seq::empty(), changed: changed1 }
        } else {
            let id = (seq + 1) as u64;
            SpecTick {
                t: SubscriptionTracking {
                    last_request_seq: id,
                    last_request_time_ms: now_ms,
                    request_retry: (t1.request_retry + 1) as u64,
                    waiting_response: true,
                    ..t1
                },
                seq: id,
                has_req: true,
                req_text: spec_subscribe_request(id, t.package_id@),
                changed: changed1,
            }
        }
    } else {
        SpecTick { t, seq, has_req: false, req_text: Seq::empty(), changed: false }
    }
}

/// What one unsubscribe-side step does.
pub open spec fn spec_try_to_unsubscribe(
    t: SubscriptionTracking,
    seq: u64,
    now_ms: u64,
) -> SpecTick {
    match t.state {
        TrackingState::Disconnected => SpecTick {
            t: SubscriptionTracking { state: TrackingState::ReadyToDelete, request_retry: 0, ..t },
            seq,
            has_req: false,
            req_text: Seq::empty(),
            changed: true,
        },
        TrackingState::Subscribing => if t.spec_awaiting_response(now_ms) {
            // The record leaves Subscribing only when not awaiting a
            // response; within the response window the subscribe gets
            // its chance, so the later unsubscribe carries a real handle.
            SpecTick { t, seq, has_req: false, req_text: Seq::empty(), changed: false }
        } else {
            SpecTick {
                t: SubscriptionTracking {
                    state: TrackingState::Unsubscribing,
                    request_retry: 0,
                    ..t
                },
                seq,
                has_req: false,
                req_text: Seq::empty(),
                changed: true,
            }
        },
        TrackingState::Subscribed => {
            // The unsubscribe goes out on this very transition, unless
            // the rate limit defers it to the next tick.
            let t1 = SubscriptionTracking {
                state: TrackingState::Unsubscribing,
                request_retry: 0,
                ..t
            };
            if t.unsubscribed_id is None {
                SpecTick { t: t1, seq, has_req: false, req_text: Seq::empty(), changed: true }
            } else if t1.spec_recently_sent(now_ms) {
                SpecTick { t: t1, seq, has_req: false, req_text: Seq::empty(), changed: true }
            } else {
                let id = (seq + 1) as u64;
                SpecTick {
                    t: SubscriptionTracking {
                        last_request_seq: id,
                        last_request_time_ms: now_ms,
                        request_retry: 1,
                        waiting_response: true,
                        ..t1
                    },
                    seq: id,
                    has_req: true,
                    req_text: spec_unsubscribe_request(id, t.unsubscribed_id->0),
                    changed: true,
                }
            }
        },
        TrackingState::Unsubscribing => if t.unsubscribed_id is None || t.request_retry > MAX_UNSUBSCRIBE_RETRIES {
            SpecTick {
                t: SubscriptionTracking {
                    state: TrackingState::ReadyToDelete,
                    request_retry: 0,
                    ..t
                },
                seq,
                has_req: false,
                req_text: Seq::empty(),
                changed: true,
            }
        } else if t.spec_recently_sent(now_ms) {
            SpecTick { t, seq, has_req: false, req_text: Seq::empty(), changed: false }
        } else {
            let id = (seq + 1) as u64;
            SpecTick {
                t: SubscriptionTracking {
                    last_request_seq: id,
                    last_request_time_ms: now_ms,
                    request_retry: (t.request_retry + 1) as u64,
                    waiting_response: true,
                    ..t
                },
                seq: id,
                has_req: true,
                req_text: spec_unsubscribe_request(id, t.unsubscribed_id->0),
                changed: false,
            }
        },
        TrackingState::ReadyToDelete => SpecTick {
            t,
            seq,
            has_req: false,
            req_text: Seq::empty(),
            changed: false,
        },
    }
}

/// Sends a subscribe request for a record that wants one, or promotes it
/// to `Subscribed` once the correlated response has arrived. Returns
/// whether the lifecycle state changed, and the frame to put on the wire.
pub fn try_to_subscribe(
    t: &mut SubscriptionTracking,
    ws: &mut WebSocketManagement,
    now_ms: u64,
) -> (r: (bool, Option<String>))
    requires
        old(t).wf(),
        old(ws).wf(),
        old(ws).seq_number < u64::MAX,
        old(t).request_retry < u64::MAX,
    ensures
        ({
            let st = spec_try_to_subscribe(*old(t), old(ws).seq_number, now_ms);
            &&& *final(t) == st.t
            &&& final(ws).seq_number == st.seq
            &&& final(ws).connected == old(ws).connected
            &&& r.0 == st.changed
            &&& (r.1 is Some <==> st.has_req)
            &&& (r.1 matches Some(s) ==> s@ == st.req_text)
            &&& (st.has_req ==> final(ws).issued@ =~= old(ws).issued@.push(st.seq))
            &&& (!st.has_req ==> final(ws).issued@ =~= old(ws).issued@)
            &&& final(t).wf()
            &&& final(ws).wf()
        }),
{
    let mut changed: bool = false;
    match t.state {
        TrackingState::Disconnected => {
            if t.change_state_to(TrackingState::Subscribing) {
                changed = true;
            }
        },
        TrackingState::Subscribing => {
            if t.unsubscribed_id().is_some() {
                let c = t.change_state_to(TrackingState::Subscribed);
                return (c, None);
            }
        },
        _ => {
            return (false, None);
        },
    }
    if t.is_recently_sent(now_ms) {
        return (changed, None);
    }
    let id = ws.mint_request_id();
    t.report_subscribing_request(id, now_ms);
    let text = subscribe_request_format(id, t.package_id.as_str());
    (changed, Some(text))
}

/// Drives a record marked for removal toward `ReadyToDelete`: the
/// unsubscribe request goes out on the `Subscribed` to `Unsubscribing`
/// transition itself, and is resent while the handle is known and
/// retries remain, under the rate limit.
pub fn try_to_unsubscribe(
    t: &mut SubscriptionTracking,
    ws: &mut WebSocketManagement,
    now_ms: u64,
) -> (r: (bool, Option<String>))
    requires
        old(t).wf(),
        old(ws).wf(),
        old(ws).seq_number < u64::MAX,
        old(t).request_retry < u64::MAX,
    ensures
        ({
            let st = spec_try_to_unsubscribe(*old(t), old(ws).seq_number, now_ms);
            &&& *final(t) == st.t
            &&& final(ws).seq_number == st.seq
            &&& final(ws).connected == old(ws).connected
            &&& r.0 == st.changed
            &&& (r.1 is Some <==> st.has_req)
            &&& (r.1 matches Some(s) ==> s@ == st.req_text)
            &&& (st.has_req ==> final(ws).issued@ =~= old(ws).issued@.push(st.seq))
            &&& (!st.has_req ==> final(ws).issued@ =~= old(ws).issued@)
            &&& final(t).wf()
            &&& final(ws).wf()
        }),
{
    match t.state {
        TrackingState::Disconnected => {
            let c = t.change_state_to(TrackingState::ReadyToDelete);
            (c, None)
        },
        TrackingState::Subscribing => {
            if t.is_awaiting_response(now_ms) {
                return (false, None);
            }
            let c = t.change_state_to(TrackingState::Unsubscribing);
            (c, None)
        },
        TrackingState::Subscribed => {
            let c = t.change_state_to(TrackingState::Unsubscribing);
            match t.unsubscribed_id() {
                None => (c, None),
                Some(unsub) => {
                    if t.is_recently_sent(now_ms) {
                        return (c, None);
                    }
                    let id = ws.mint_request_id();
                    t.report_unsubscribing_request(id, now_ms);
                    let text = unsubscribe_request_format(id, unsub);
                    (c, Some(text))
                },
            }
        },
        TrackingState::Unsubscribing => {
            match t.unsubscribed_id() {
                None => {
                    let c = t.change_state_to(TrackingState::ReadyToDelete);
                    (c, None)
                },
                Some(unsub) => {
                    if t.request_retry > MAX_UNSUBSCRIBE_RETRIES {
                        let c = t.change_state_to(TrackingState::ReadyToDelete);
                        return (c, None);
                    }
                    if t.is_recently_sent(now_ms) {
                        return (false, None);
                    }
                    let id = ws.mint_request_id();
                    t.report_unsubscribing_request(id, now_ms);
                    let text = unsubscribe_request_format(id, unsub);
                    (false, Some(text))
                },
            }
        },
        TrackingState::ReadyToDelete => (false, None),
    }
}

/// A record never enters `Subscribed` out of nowhere: a step lands in
/// `Subscribed` only when the record was already `Subscribed`, or was in
/// `Subscribing` and the correlated subscribe response had been recorded
/// (the unsubscribe handle is set).
pub proof fn lemma_subscribed_needs_response(t: SubscriptionTracking, seq: u64, now_ms: u64)
    ensures
        spec_try_to_subscribe(t, seq, now_ms).t.state is Subscribed ==> ((t.state is Subscribing
            && t.unsubscribed_id is Some) || t.state is Subscribed),
        spec_try_to_unsubscribe(t, seq, now_ms).t.state is Subscribed ==> t.state is Subscribed,
{
}

} // verus!
