//! The durable agent task queue: task rows, their state machine, dispatch
//! order, and the guarded commits that keep the queue coherent.
pub mod commits;
pub mod create;
pub mod dispatch;
pub mod effects;
pub mod errors;
pub mod image;
pub mod laws;
pub mod model;
pub mod promises;
pub mod prune;
pub mod records;
pub mod repair;
pub mod repairs;
pub mod run;
pub mod service;
pub mod store;
pub mod transitions;
pub mod validate;
