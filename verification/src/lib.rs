//! Shared infrastructure for driving dln-node end-to-end scenarios.
//!
//! Bitcoin Core and Bitcoin Knots backends, a Nostr relay, clients that speak
//! the nodes' control planes, and the scenarios that run over them: two chains
//! and four nodes, an atomic swap between the chains, and a node against lnrod.
//!
//! The library decides and does no input or output. What takes time or a
//! network is a state machine: it asks for one thing, is handed what came of it,
//! and goes on. What it asks for at each state, how it goes on from each answer,
//! and what holds of every run is stated in contracts and proved.
//!
//! - [`text`], [`json`], [`codec`], [`events`]: texts, JSON values, keys, hashes
//!   and encodings, and Nostr events.
//! - [`outcome`], [`util`], [`process`]: failures, waiting, builds and child
//!   processes.
//! - [`bitcoind`], [`header`], [`relay`]: the chains and the relay.
//! - [`control`], [`wallet`], [`grants`], [`dln_node_client`]: a dln-node.
//! - [`lnrod_client`]: an lnrod node.
//! - [`legs`], [`exchange`], [`run`], [`guarantees`], [`provenance`]: the
//!   exchange's scenarios.
//! - [`system_test`]: the scenario of a dln-node and an lnrod.

pub mod bitcoind;
pub mod codec;
pub mod control;
pub mod dln_node_client;
pub mod events;
pub mod exchange;
pub mod grants;
pub mod guarantees;
pub mod header;
pub mod json;
pub mod legs;
pub mod lnrod_client;
pub mod outcome;
pub mod process;
pub mod provenance;
pub mod relay;
pub mod run;
pub mod system_test;
pub mod text;
pub mod util;
pub mod wallet;
