//! Convenient file and directory operations with verified decision logic.
//!
//! Every operation is a state machine that asks for filesystem work one request at a time
//! (see [`requests`]); the decisions it takes between two requests are verified.
pub mod directory;
pub mod error;
pub mod file;
pub mod path;
pub mod requests;
pub mod harness;
pub mod laws;
pub mod plan_order;
