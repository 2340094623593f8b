//! A social-commerce ledger that spans many independent chains.
//!
//! Each chain keeps its own indexed store of profiles, donations, products,
//! purchases, paid content subscriptions, and posts (with optional polls and
//! giveaways).  Chains stay consistent with one another through one-way
//! messages and append-only event streams that subscribers replay.  This
//! crate holds the whole protocol as verified code over plain values: the
//! store, the lifecycle rules for each entity, the operation executor with
//! its message fan-out decisions, the message handlers, and the event-replay
//! engine.  The host runtime (clock, chain identity, token transfers,
//! transport) stays outside and hands the library plain values.

//! The pieces, leaves first: [`types`] and [`ids`] hold the data model with
//! its spec-level models, [`protocol`] the operations, messages, events and
//! outcomes, [`table`] the verified key-value table behind every index, and
//! [`store`] the per-chain indexed store with its invariant.  [`market`],
//! [`content`] and [`posts`] carry the lifecycle rules per entity,
//! [`executor`] the operation executor, the message handlers and the
//! event-replay engine, [`queries`] the read-only projections, and [`laws`]
//! the proved cross-cutting guarantees.

pub mod content;
pub mod executor;
pub mod ids;
pub mod laws;
pub mod market;
pub mod posts;
pub mod protocol;
pub mod queries;
pub mod seqs;
pub mod store;
pub mod table;
pub mod types;
