//! Verified core of an MCP (Model Context Protocol) probe: JSON-RPC message
//! types, protocol enums, transport configuration and validation, message
//! interceptors (validation, rate limiting, transformation), search indexing
//! and terminal-UI navigation state.
use vstd::prelude::*;

pub mod error;
pub mod text;
pub mod json;
pub mod ids;
pub mod time;
pub mod strmap;
pub mod messages;
pub mod weburl;
pub mod validation;
pub mod transport;
pub mod client;
pub mod interceptor;
pub mod interceptors;
pub mod tui;
pub mod common;
pub mod llm;
pub mod context;
pub mod proxy;
pub mod search;

verus! {
}
