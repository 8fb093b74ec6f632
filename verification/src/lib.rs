//! A client-side request/reply messaging layer for AMQP-style brokers.
//!
//! The crate models the orchestration logic of a producer/consumer fan-out:
//! message envelopes on the wire, producer-side request/reply correlation,
//! consumer-side dispatch and acknowledgement discipline, configuration
//! builders, and the partitioning of many instances over a small number of
//! shared connections.  Everything that touches the network is driven from
//! the outside through explicit actions and events, so the decision logic
//! here is verified for every interleaving the broker can produce.

pub mod config;
pub mod consume;
pub mod envelope;
pub mod error;
pub mod fanout;
pub mod produce;
pub mod stream;
pub mod uri;
