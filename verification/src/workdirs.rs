//! The built-in workdirs: each isolated deployment target has a
//! well-known name and a default node endpoint.

use vstd::prelude::*;

verus! {

pub const WORKDIR_IDX_LOCALNET: u8 = 0;

pub const WORKDIR_IDX_DEVNET: u8 = 1;

pub const WORKDIR_IDX_TESTNET: u8 = 2;

pub const WORKDIR_IDX_MAINNET: u8 = 3;

/// The well-known name of a built-in workdir.
pub open spec fn spec_workdir_name(idx: u8) -> Option<Seq<char>> {
    if idx == WORKDIR_IDX_LOCALNET {
        Some("localnet"@)
    } else if idx == WORKDIR_IDX_DEVNET {
        Some("devnet"@)
    } else if idx == WORKDIR_IDX_TESTNET {
        Some("testnet"@)
    } else if idx == WORKDIR_IDX_MAINNET {
        Some("mainnet"@)
    } else {
        None
    }
}

/// The default node endpoint of a built-in workdir.
pub open spec fn spec_workdir_socket_url(idx: u8) -> Option<Seq<char>> {
    if idx == WORKDIR_IDX_LOCALNET {
        Some("ws://localhost:9000"@)
    } else if idx == WORKDIR_IDX_DEVNET {
        Some("wss://fullnode.devnet.sui.io:443"@)
    } else if idx == WORKDIR_IDX_TESTNET {
        Some("wss://fullnode.testnet.sui.io:443"@)
    } else if idx == WORKDIR_IDX_MAINNET {
        Some("wss://fullnode.mainnet.sui.io:443"@)
    } else {
        None
    }
}

/// Name of a built-in workdir; `None` for an index outside the built-in
/// set, which callers treat as a configuration error.
pub fn workdir_name(idx: u8) -> (r: Option<&'static str>)
    ensures
        r is Some <==> (spec_workdir_name(idx) is Some),
        r matches Some(s) ==> Some(s@) == spec_workdir_name(idx),
{
    if idx == WORKDIR_IDX_LOCALNET {
        Some("localnet")
    } else if idx == WORKDIR_IDX_DEVNET {
        Some("devnet")
    } else if idx == WORKDIR_IDX_TESTNET {
        Some("testnet")
    } else if idx == WORKDIR_IDX_MAINNET {
        Some("mainnet")
    } else {
        None
    }
}

/// Default transport endpoint for a built-in workdir.
pub fn workdir_socket_url(idx: u8) -> (r: Option<&'static str>)
    ensures
        r is Some <==> (spec_workdir_socket_url(idx) is Some),
        r matches Some(s) ==> Some(s@) == spec_workdir_socket_url(idx),
{
    if idx == WORKDIR_IDX_LOCALNET {
        Some("ws://localhost:9000")
    } else if idx == WORKDIR_IDX_DEVNET {
        Some("wss://fullnode.devnet.sui.io:443")
    } else if idx == WORKDIR_IDX_TESTNET {
        Some("wss://fullnode.testnet.sui.io:443")
    } else if idx == WORKDIR_IDX_MAINNET {
        Some("wss://fullnode.mainnet.sui.io:443")
    } else {
        None
    }
}

} // verus!
