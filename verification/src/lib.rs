//! Verified core of a community-support service: a per-guild ticket
//! sequencer with multi-channel thread fan-out, and a per-user star
//! ledger with paid and free transfers.
//!
//! Both subsystems are modelled over an in-memory image of the rows the
//! relational store would hold; every mutation is a single atomic step
//! on that state, mirroring the single-statement updates the store
//! serializes. Callers that perform outside work (thread creation,
//! message delivery) receive a plan of plain values and hand back the
//! per-channel outcomes.

mod clock;
pub mod config;
pub mod error;
pub mod fanout;
pub mod ledger;
pub mod tickets;

pub use error::Error;
