//! Agent fleet bookkeeping: a durable task queue, transcript tailing, ambient
//! session discovery, and the request rules of the browser and audit tools.
pub mod ambient;
pub mod browser;
pub mod checks;
pub mod digest;
pub mod facades;
pub mod guarded;
pub mod json;
pub mod replays;
pub mod requests;
pub mod roots;
pub mod tasks;
pub mod text;
pub mod transcripts;
