//! Per-session bookkeeping of the transport connection: the monotonic
//! sequence number minting JSON-RPC request ids.
//!
//! The socket halves themselves live outside the library; the record here
//! carries what the logic reads of them (whether a connection is up) and
//! the id counter, plus the ghost history of every id handed out.

use vstd::prelude::*;

verus! {

/// Connection-session record: presence of an open transport and the
/// sequence number used to mint JSON-RPC request ids. `issued` records,
/// in order, every id handed out during this session.
pub struct WebSocketManagement {
    /// Both socket halves are present (the transport is up).
    pub connected: bool,
    /// Must be incremented prior to use as the id of a new request.
    pub seq_number: u64,
    /// History of all ids minted in this session, oldest first.
    pub issued: Ghost<Seq<u64>>,
}

impl WebSocketManagement {
    /// Ids are minted from a counter that only grows: the history is
    /// strictly increasing and bounded by the counter.
    pub open spec fn wf(self) -> bool {
        &&& (forall|i: int, j: int|
            0 <= i < j < self.issued@.len() ==> self.issued@[i] < self.issued@[j])
        &&& (forall|i: int| 0 <= i < self.issued@.len() ==> self.issued@[i] <= self.seq_number)
    }

    pub fn new() -> (r: WebSocketManagement)
        ensures
            !r.connected,
            r.seq_number == 0,
            r.issued@ =~= Seq::<u64>::empty(),
            r.wf(),
    {
        WebSocketManagement { connected: false, seq_number: 0, issued: Ghost(Seq::empty()) }
    }

    /// Mints the id of the next request: one more than every id handed out
    /// before, so ids of one session never repeat.
    pub fn mint_request_id(&mut self) -> (id: u64)
        requires
            old(self).wf(),
            old(self).seq_number < u64::MAX,
        ensures
            id == old(self).seq_number + 1,
            final(self).seq_number == id,
            final(self).connected == old(self).connected,
            final(self).issued@ =~= old(self).issued@.push(id),
            final(self).wf(),
            forall|i: int| 0 <= i < old(self).issued@.len() ==> old(self).issued@[i] < id,
    {
        self.seq_number = self.seq_number + 1;
        let ghost new_issued = self.issued@.push(self.seq_number);
        proof {
            self.issued@ = new_issued;
        }
        self.seq_number
    }
}

/// Any two requests sent on one transport session have distinct ids; in
/// fact the history of minted ids is strictly increasing, so an earlier
/// request always carries the smaller id.
pub proof fn lemma_request_ids_distinct(s: WebSocketManagement, i: int, j: int)
    requires
        s.wf(),
        0 <= i < j < s.issued@.len(),
    ensures
        s.issued@[i] < s.issued@[j],
        s.issued@[i] != s.issued@[j],
{
}

} // verus!
