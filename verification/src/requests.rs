//! Exact byte patterns of the two JSON-RPC requests sent to the node.

use vstd::prelude::*;
use vstd::string::StringExecFns;

use crate::digits::spec_dec;
use crate::digits::u64_to_dec;

verus! {

/// The subscribe request for filter key `pkg` (hex id without `0x`),
/// character for character.
pub open spec fn spec_subscribe_request(id: u64, pkg: Seq<char>) -> Seq<char> {
    "{\"jsonrpc\":\"2.0\",\"method\":\"suix_subscribeEvent\",\"id\":"@ + spec_dec(id as nat)
        + ",\"params\":[{\"Package\":\""@ + pkg + "\"}]}"@
}

/// The unsubscribe request for the server-assigned handle `unsubscribe_id`,
/// character for character.
pub open spec fn spec_unsubscribe_request(id: u64, unsubscribe_id: u64) -> Seq<char> {
    "{\"jsonrpc\":\"2.0\",\"method\":\"suix_unsubscribeEvent\",\"id\":"@ + spec_dec(id as nat)
        + ",\"params\":["@ + spec_dec(unsubscribe_id as nat) + "]}"@
}

/// Builds the subscribe request frame. `package_id` is the hex object id
/// without the `0x` prefix.
pub fn subscribe_request_format(id: u64, package_id: &str) -> (r: String)
    ensures
        r@ == spec_subscribe_request(id, package_id@),
{
    let mut s = String::from_str("{\"jsonrpc\":\"2.0\",\"method\":\"suix_subscribeEvent\",\"id\":");
    let id_str = u64_to_dec(id);
    s.append(id_str.as_str());
    s.append(",\"params\":[{\"Package\":\"");
    s.append(package_id);
    s.append("\"}]}");
    proof {
        assert(s@ =~= spec_subscribe_request(id, package_id@));
    }
    s
}

/// Builds the unsubscribe request frame for a previously returned handle.
pub fn unsubscribe_request_format(id: u64, unsubscribe_id: u64) -> (r: String)
    ensures
        r@ == spec_unsubscribe_request(id, unsubscribe_id),
{
    let mut s = String::from_str(
        "{\"jsonrpc\":\"2.0\",\"method\":\"suix_unsubscribeEvent\",\"id\":",
    );
    let id_str = u64_to_dec(id);
    s.append(id_str.as_str());
    s.append(",\"params\":[");
    let unsub_str = u64_to_dec(unsubscribe_id);
    s.append(unsub_str.as_str());
    s.append("]}");
    proof {
        assert(s@ =~= spec_unsubscribe_request(id, unsubscribe_id));
    }
    s
}

} // verus!
