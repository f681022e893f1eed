//! The events writer: dedup fan-in from the connection workers and
//! fan-out to the persistence worker, plus the queue hygiene applied by
//! every worker on its inbound queue.

use vstd::prelude::*;
use vstd::string::StringExecFns;

verus! {

/// Kind of an internal control or data message.
#[derive(Clone, Copy, Debug, PartialEq, Eq, Structural)]
pub enum MsgKind {
    /// Read-only reconciliation trigger.
    Audit,
    /// Mutating reconciliation trigger.
    Update,
    /// Data-plane command, named by `command`.
    Exec,
    /// Anything else; consumed and logged.
    Other,
}

/// An internal channel message, as the verified logic sees it. The JSON
/// payload and the response channel are carried outside the library; here
/// only their presence matters.
pub struct ChannelMsg {
    pub kind: MsgKind,
    pub command: Option<String>,
    pub params: Vec<String>,
    pub has_data_json: bool,
    pub workdir_idx: Option<u8>,
    pub has_resp_channel: bool,
}

/// What the events writer does with one inbound message.
#[derive(Clone, Copy, Debug, PartialEq, Eq, Structural)]
pub enum WriterAction {
    /// Forward a copy to every connection worker and to the persistence
    /// worker.
    ForwardAll,
    /// Forward to the persistence worker only.
    ForwardDbOnly,
    /// Log and drop.
    Drop,
}

/// The routing rule of the events writer: control-plane triggers fan out
/// to all children, a validated `add_sui_event` goes to persistence only,
/// everything else is dropped.
pub open spec fn spec_route_writer_msg(kind: MsgKind, command: Option<String>) -> WriterAction {
    match kind {
        MsgKind::Audit => WriterAction::ForwardAll,
        MsgKind::Update => WriterAction::ForwardAll,
        MsgKind::Exec => match command {
            Some(c) => if c@ == "add_sui_event"@ {
                WriterAction::ForwardDbOnly
            } else {
                WriterAction::Drop
            },
            None => WriterAction::Drop,
        },
        MsgKind::Other => WriterAction::Drop,
    }
}

/// Decides the writer's action for one message.
pub fn route_writer_msg(msg: &ChannelMsg) -> (r: WriterAction)
    ensures
        r == spec_route_writer_msg(msg.kind, msg.command),
{
    match msg.kind {
        MsgKind::Audit => WriterAction::ForwardAll,
        MsgKind::Update => WriterAction::ForwardAll,
        MsgKind::Exec => {
            match &msg.command {
                Some(c) => {
                    if *c == String::from_str("add_sui_event") {
                        WriterAction::ForwardDbOnly
                    } else {
                        WriterAction::Drop
                    }
                },
                None => WriterAction::Drop,
            }
        },
        MsgKind::Other => WriterAction::Drop,
    }
}

fn clone_string_vec(v: &Vec<String>) -> (r: Vec<String>)
    ensures
        r@ =~= v@,
{
    let mut out: Vec<String> = Vec::new();
    let mut i: usize = 0;
    while i < v.len()
        invariant
            i <= v@.len(),
            out@ =~= v@.take(i as int),
        decreases v@.len() - i,
    {
        out.push(v[i].clone());
        proof {
            assert(out@ =~= v@.take(i + 1));
        }
        i = i + 1;
    }
    proof {
        assert(v@.take(v@.len() as int) =~= v@);
    }
    out
}

/// The copy of a message that is forwarded to a child worker: identical,
/// except that any response channel stays with the original.
pub fn forward_copy(msg: &ChannelMsg) -> (r: ChannelMsg)
    ensures
        r.kind == msg.kind,
        r.command == msg.command,
        r.params@ == msg.params@,
        r.has_data_json == msg.has_data_json,
        r.workdir_idx == msg.workdir_idx,
        !r.has_resp_channel,
{
    ChannelMsg {
        kind: msg.kind,
        command: match &msg.command {
            Some(c) => Some(c.clone()),
            None => None,
        },
        params: clone_string_vec(&msg.params),
        has_data_json: msg.has_data_json,
        workdir_idx: msg.workdir_idx,
        has_resp_channel: false,
    }
}

/// Admission rule for an inbound control message: the kind must be the
/// one the handler serves, and the message's workdir index must name
/// this worker. Anything else is logged and dropped by the caller.
pub fn accepts_control_msg(
    kind: MsgKind,
    expected: MsgKind,
    msg_workdir_idx: Option<u8>,
    own_workdir_idx: u8,
) -> (r: bool)
    ensures
        r == (kind == expected && msg_workdir_idx == Some(own_workdir_idx)),
{
    kind == expected && (match msg_workdir_idx {
        Some(i) => i == own_workdir_idx,
        None => false,
    })
}

/// Whether a message kind is an idempotent reconciliation trigger.
pub open spec fn spec_kind_is_trigger(k: MsgKind) -> bool {
    k is Audit || k is Update
}

/// Whether a message is an idempotent reconciliation trigger.
pub open spec fn spec_is_trigger(m: ChannelMsg) -> bool {
    spec_kind_is_trigger(m.kind)
}

/// One step of the queue hygiene: a trigger is redundant exactly when
/// the message kept just before it is the same trigger.
pub fn trigger_is_redundant(prev_kept: Option<MsgKind>, kind: MsgKind) -> (r: bool)
    ensures
        r == (spec_kind_is_trigger(kind) && prev_kept == Some(kind)),
{
    let is_trigger = match kind {
        MsgKind::Audit => true,
        MsgKind::Update => true,
        _ => false,
    };
    is_trigger && match prev_kept {
        Some(k) => k == kind,
        None => false,
    }
}

/// Queue hygiene over the first `n` queued messages: a trigger equal in
/// kind to the previously kept message is redundant and dropped.
pub open spec fn spec_collapse_upto(ms: Seq<ChannelMsg>, n: int) -> Seq<ChannelMsg>
    decreases n,
{
    if n <= 0 {
        Seq::empty()
    } else {
        let prev = spec_collapse_upto(ms, n - 1);
        let m = ms[n - 1];
        if spec_is_trigger(m) && prev.len() > 0 && prev.last().kind == m.kind {
            prev
        } else {
            prev.push(m)
        }
    }
}

pub open spec fn spec_collapse(ms: Seq<ChannelMsg>) -> Seq<ChannelMsg> {
    spec_collapse_upto(ms, ms.len() as int)
}

/// Collapses consecutive duplicate AUDIT and UPDATE triggers in a queue
/// snapshot: they are idempotent, and redundant copies only amplify the
/// reconciliation ping-pong.
pub fn collapse_redundant_triggers(msgs: Vec<ChannelMsg>) -> (r: Vec<ChannelMsg>)
    ensures
        r@ == spec_collapse(msgs@),
{
    let ghost ms0 = msgs@;
    let mut out: Vec<ChannelMsg> = Vec::new();
    let mut src = msgs;
    while src.len() > 0
        invariant
            src@.len() <= ms0.len(),
            src@ =~= ms0.skip(ms0.len() - src@.len()),
            out@ =~= spec_collapse_upto(ms0, ms0.len() - src@.len()),
        decreases src@.len(),
    {
        let ghost done = ms0.len() - src@.len();
        let m = src.remove(0);
        proof {
            assert(m == ms0[done as int]);
            assert(src@ =~= ms0.skip(done + 1));
        }
        let is_trigger = match m.kind {
            MsgKind::Audit => true,
            MsgKind::Update => true,
            _ => false,
        };
        let redundant = is_trigger && out.len() > 0 && {
            let last = &out[out.len() - 1];
            last.kind == m.kind
        };
        if !redundant {
            out.push(m);
        }
    }
    out
}

/// After queue hygiene, no two neighbouring messages are the same
/// reconciliation trigger.
pub proof fn lemma_collapse_no_adjacent_triggers(ms: Seq<ChannelMsg>, n: int)
    ensures
        forall|i: int|
            0 <= i && i + 1 < spec_collapse_upto(ms, n).len() ==> !(spec_is_trigger(
                #[trigger] spec_collapse_upto(ms, n)[i + 1],
            ) && spec_collapse_upto(ms, n)[i + 1].kind == spec_collapse_upto(ms, n)[i].kind),
    decreases n,
{
    if n > 0 {
        lemma_collapse_no_adjacent_triggers(ms, n - 1);
    }
}

} // verus!
