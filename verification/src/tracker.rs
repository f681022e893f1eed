//! Per-package subscription tracking record and its lifecycle.
//!
//! One record tracks the subscribe/unsubscribe lifecycle of one managed
//! package over one transport session. The record is owned by a single
//! connection worker; every method is a plain function of the record and
//! the caller-supplied monotonic clock value.

use vstd::prelude::*;

verus! {

/// Lifecycle state of one tracked package subscription.
#[derive(Clone, Copy, Debug, PartialEq, Eq, Structural)]
pub enum TrackingState {
    Disconnected,
    Subscribing,
    Subscribed,
    Unsubscribing,
    ReadyToDelete,
}

/// Whole seconds below which a subscribe/unsubscribe request is not
/// resent.
pub const RESEND_SUPPRESSION_SECS: u64 = 2;

/// Retry count in `Unsubscribing` above which the record is abandoned.
pub const MAX_UNSUBSCRIBE_RETRIES: u64 = 10;

/// Tracking record for one managed package.
pub struct SubscriptionTracking {
    /// Hex object id, without the `0x` prefix; the wire filter key.
    pub package_id: String,
    /// Opaque identity of the logical package instance in the desired set.
    pub package_uuid: String,
    pub package_name: String,
    pub package_timestamp: String,
    pub state: TrackingState,
    /// Server-assigned number routing notifications back to this package.
    pub subscription_number: u64,
    /// Handle handed back to the server to cancel the subscription; set on
    /// subscribe confirmation, cleared on unsubscribe confirmation.
    pub unsubscribed_id: Option<u64>,
    /// JSON-RPC id of the most recent request sent for this record.
    pub last_request_seq: u64,
    /// Monotonic clock value (ms) at which that request was sent.
    pub last_request_time_ms: u64,
    /// Requests sent since the state was last entered.
    pub request_retry: u64,
    /// Sticky flag: reconciliation decided the package must go away.
    pub remove_requested: bool,
    /// A request was sent and its response has not arrived yet.
    pub waiting_response: bool,
}

impl SubscriptionTracking {
    /// A record in `Subscribed` always holds the unsubscribe handle.
    pub open spec fn wf(self) -> bool {
        self.state is Subscribed ==> self.unsubscribed_id is Some
    }

    /// Fresh record for a package of the desired set.
    pub fn new_for_managed_package(
        package_name: String,
        package_uuid: String,
        package_timestamp: String,
        package_id: String,
    ) -> (r: SubscriptionTracking)
        ensures
            r.package_id == package_id,
            r.package_uuid == package_uuid,
            r.package_name == package_name,
            r.package_timestamp == package_timestamp,
            r.state is Disconnected,
            r.subscription_number == 0,
            r.unsubscribed_id is None,
            r.last_request_seq == 0,
            r.last_request_time_ms == 0,
            r.request_retry == 0,
            !r.remove_requested,
            !r.waiting_response,
            r.wf(),
    {
        SubscriptionTracking {
            package_id,
            package_uuid,
            package_name,
            package_timestamp,
            state: TrackingState::Disconnected,
            subscription_number: 0,
            unsubscribed_id: None,
            last_request_seq: 0,
            last_request_time_ms: 0,
            request_retry: 0,
            remove_requested: false,
            waiting_response: false,
        }
    }

    pub fn state(&self) -> (r: TrackingState)
        ensures
            r == self.state,
    {
        self.state
    }

    /// True iff the record may be evicted at the next reconciliation pass.
    pub fn can_be_deleted(&self) -> (r: bool)
        ensures
            r == (self.state is ReadyToDelete),
    {
        match self.state {
            TrackingState::ReadyToDelete => true,
            _ => false,
        }
    }

    pub fn is_remove_requested(&self) -> (r: bool)
        ensures
            r == self.remove_requested,
    {
        self.remove_requested
    }

    /// Marks the record for removal; the flag is sticky.
    pub fn report_remove_request(&mut self)
        ensures
            *final(self) == (SubscriptionTracking { remove_requested: true, ..*old(self) }),
    {
        self.remove_requested = true;
    }

    /// Whole seconds elapsed since the last request, by the caller's clock.
    /// A clock that moved backwards counts as no time elapsed.
    pub fn secs_since_last_request(&self, now_ms: u64) -> (r: u64)
        ensures
            r == Self::spec_secs_since(self.last_request_time_ms, now_ms),
    {
        if now_ms < self.last_request_time_ms {
            0
        } else {
            (now_ms - self.last_request_time_ms) / 1000
        }
    }

    pub open spec fn spec_secs_since(last_ms: u64, now_ms: u64) -> u64 {
        if now_ms < last_ms {
            0
        } else {
            (((now_ms - last_ms) as u64) / 1000) as u64
        }
    }

    /// The rate limit: a request really went out (a fresh record has no
    /// send time) less than the suppression window ago. It rate-limits
    /// resends only: a record that has never sent is never suppressed.
    pub open spec fn spec_recently_sent(self, now_ms: u64) -> bool {
        self.last_request_time_ms > 0 && Self::spec_secs_since(self.last_request_time_ms, now_ms)
            < RESEND_SUPPRESSION_SECS
    }

    pub fn is_recently_sent(&self, now_ms: u64) -> (r: bool)
        ensures
            r == self.spec_recently_sent(now_ms),
    {
        self.last_request_time_ms > 0 && self.secs_since_last_request(now_ms)
            < RESEND_SUPPRESSION_SECS
    }

    /// Whether the record counts as awaiting a response: a request is
    /// pending and still within the response window. Past the window an
    /// unanswered request no longer holds the record back — otherwise a
    /// lost response could stall removal forever, against the bounded
    /// removal guarantee.
    pub open spec fn spec_awaiting_response(self, now_ms: u64) -> bool {
        self.waiting_response && self.spec_recently_sent(now_ms)
    }

    pub fn is_awaiting_response(&self, now_ms: u64) -> (r: bool)
        ensures
            r == self.spec_awaiting_response(now_ms),
    {
        self.waiting_response && self.is_recently_sent(now_ms)
    }

    /// True iff a subscribe request with JSON-RPC id `seq` is pending.
    pub fn did_sent_subscribe_request(&self, seq: u64) -> (r: bool)
        ensures
            r == (self.state is Subscribing && self.waiting_response && self.last_request_seq
                == seq),
    {
        match self.state {
            TrackingState::Subscribing => self.waiting_response && self.last_request_seq == seq,
            _ => false,
        }
    }

    /// True iff an unsubscribe request with JSON-RPC id `seq` is pending.
    pub fn did_sent_unsubscribe_request(&self, seq: u64) -> (r: bool)
        ensures
            r == (self.state is Unsubscribing && self.waiting_response && self.last_request_seq
                == seq),
    {
        match self.state {
            TrackingState::Unsubscribing => self.waiting_response && self.last_request_seq == seq,
            _ => false,
        }
    }

    pub fn is_subscribe_request_pending_response(&self) -> (r: bool)
        ensures
            r == self.waiting_response,
    {
        self.waiting_response
    }

    pub fn unsubscribed_id(&self) -> (r: Option<u64>)
        ensures
            r == self.unsubscribed_id,
    {
        self.unsubscribed_id
    }

    pub fn subscription_number(&self) -> (r: u64)
        ensures
            r == self.subscription_number,
    {
        self.subscription_number
    }

    /// Remembers that a subscribe request was sent: correlation id, send
    /// time, retry count, and the pending-response flag.
    pub fn report_subscribing_request(&mut self, seq: u64, now_ms: u64)
        requires
            old(self).request_retry < u64::MAX,
        ensures
            *final(self) == (SubscriptionTracking {
                last_request_seq: seq,
                last_request_time_ms: now_ms,
                request_retry: (old(self).request_retry + 1) as u64,
                waiting_response: true,
                ..*old(self)
            }),
    {
        self.last_request_seq = seq;
        self.last_request_time_ms = now_ms;
        self.request_retry = self.request_retry + 1;
        self.waiting_response = true;
    }

    /// Records a correlated subscribe response carrying the server-assigned
    /// subscription number, which doubles as the unsubscribe handle.
    pub fn report_subscribing_response(&mut self, subscription_number: u64)
        ensures
            *final(self) == (SubscriptionTracking {
                subscription_number,
                unsubscribed_id: Some(subscription_number),
                waiting_response: false,
                ..*old(self)
            }),
    {
        self.subscription_number = subscription_number;
        self.unsubscribed_id = Some(subscription_number);
        self.waiting_response = false;
    }

    /// Remembers that an unsubscribe request was sent.
    pub fn report_unsubscribing_request(&mut self, seq: u64, now_ms: u64)
        requires
            old(self).request_retry < u64::MAX,
        ensures
            *final(self) == (SubscriptionTracking {
                last_request_seq: seq,
                last_request_time_ms: now_ms,
                request_retry: (old(self).request_retry + 1) as u64,
                waiting_response: true,
                ..*old(self)
            }),
    {
        self.last_request_seq = seq;
        self.last_request_time_ms = now_ms;
        self.request_retry = self.request_retry + 1;
        self.waiting_response = true;
    }

    /// Records a correlated unsubscribe response: the handle is spent.
    pub fn report_unsubscribing_response(&mut self)
        requires
            !(old(self).state is Subscribed),
        ensures
            *final(self) == (SubscriptionTracking {
                unsubscribed_id: None,
                waiting_response: false,
                ..*old(self)
            }),
            final(self).wf(),
    {
        self.unsubscribed_id = None;
        self.waiting_response = false;
    }

    /// Moves the record to `new_state`, resetting the retry count on a real
    /// change. Returns whether the state differed.
    pub fn change_state_to(&mut self, new_state: TrackingState) -> (changed: bool)
        requires
            new_state is Subscribed ==> (old(self).unsubscribed_id is Some),
        ensures
            changed == (old(self).state != new_state),
            changed ==> *final(self) == (SubscriptionTracking {
                state: new_state,
                request_retry: 0,
                ..*old(self)
            }),
            !changed ==> *final(self) == *old(self),
            old(self).wf() ==> final(self).wf(),
    {
        if self.state == new_state {
            false
        } else {
            self.state = new_state;
            self.request_retry = 0;
            true
        }
    }
}

/// The first retry after a send and then every third one are reported;
/// in between, retries stay quiet.
pub fn retry_should_report(retry: u64) -> (r: bool)
    ensures
        r == (retry % 3 == 1),
{
    retry % 3 == 1
}

} // verus!
