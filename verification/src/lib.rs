//! Query/response modeling and interactive state machine for a terminal
//! blockchain explorer.
//!
//! The crate classifies free-text queries into account addresses and
//! transaction signatures, normalizes the JSON-RPC response shapes into a
//! closed display model, drives the keyboard-driven UI state machine, and
//! renders the display model into a table of labeled rows.  All network and
//! terminal I/O lives outside this crate; callers hand in plain values
//! (parsed JSON, key events) and get plain values back.

pub mod base58;
pub mod classify;
pub mod cli;
pub mod json;
pub mod model;
pub mod normalize;
pub mod orchestrate;
pub mod render;
pub mod state;
pub mod textfmt;
pub mod timefmt;

pub use state::{App, InputMode, RpcNetwork};
