//! The rules of the browser tools: what a request may ask for, and what follows
//! from what the page says.
pub mod codes;
pub mod dnd;
pub mod files;
pub mod names;
pub mod requests;
pub mod run;
