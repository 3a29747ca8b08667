//! Agents that were not spawned here: their sessions are discovered, tailed and
//! journaled.
pub mod codes;
pub mod discovery;
pub mod drive;
pub mod effects;
pub mod events;
pub mod journal;
pub mod names;
pub mod outbox;
pub mod pass;
pub mod relay;
pub mod session;
pub mod session_rows;
pub mod steps;
pub mod streaks;
pub mod tracking;
