//! Core of a per-workdir blockchain-event ingestion subsystem.
//!
//! The library holds the verified logic: the per-package subscription
//! tracking state machine (`tracker`, `tick`), JSON-RPC request
//! formatting (`digits`, `requests`) and response correlation (`frame`),
//! reconciliation of tracked subscriptions against an externally owned
//! desired set (`desired`, `reconcile`), request-id minting (`session`),
//! the routing and queue-hygiene rules of the events writer (`writer`),
//! and the built-in workdir tables (`workdirs`). The laws the machine
//! obeys — idempotent and deterministic reconciliation, bounded removal,
//! distinct request ids, one record per package — are proved in `laws`
//! and beside the functions they speak of.
//!
//! Transport, channels, locks and the supervision fabric live outside
//! the library and call into it with plain values; the JSON boundary
//! (`json`) reduces inbound frames to those values.

pub mod desired;
pub mod digits;
pub mod frame;
pub mod json;
pub mod laws;
pub mod reconcile;
pub mod requests;
pub mod session;
pub mod tick;
pub mod tracker;
pub mod workdirs;
pub mod writer;
