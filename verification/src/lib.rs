//! A producer client for a message-broker cluster, layered over a native
//! broker engine.
//!
//! The crate verifies the control core of the producer pipeline: option
//! accumulation and commit-time validation, client and topic lifecycle,
//! the correlation of each in-flight send with exactly one delivery
//! future, and the cooperative-stop protocol of the dispatch loop. Every
//! answer of the native engine enters this core as a plain value, so the
//! decisions taken on those answers are proved for every answer the
//! engine could give.

pub mod channel;
pub mod client;
pub mod config;
pub mod dispatch;
pub mod error;
pub mod pending;
pub mod producer;
pub mod util;
