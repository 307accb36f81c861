//! Scouting-assignment notification logic.
//!
//! The library holds the verified core of a bot that watches schedule
//! blocks of volunteer scouting assignments and decides when a reminder
//! must go out: the data model of blocks and users, the join that
//! resolves slot references to users, the per-cycle reconciliation
//! decision, the match-feed progress rule, and the exact text of every
//! message the bot sends. All I/O (database, HTTP, chat delivery) lives
//! outside, in an unverified shell that only performs what is decided
//! here.

pub mod models;
pub mod notify;
pub mod recon;
pub mod tba;
pub mod text;
