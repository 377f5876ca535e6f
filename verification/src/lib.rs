//! A bridge between a line-delimited JSON-RPC protocol and the `angreal`
//! automation tool: the requests it understands, the commands it lets
//! through, and the responses it gives.
//!
//! The crate decides and computes; it starts no process and touches no file.
//! A request is taken through its steps by `dispatch`: each step is either
//! the response or the one thing that has to be found out next, and whoever
//! runs the server finds it out and hands it back.
//!
//! - `text`: the operations on strings that the rest is built on.
//! - `json`: JSON values, read and written by `serde_json`.
//! - `angreal`: the commands that may reach the tool, and what a run of the
//!   tool amounts to.
//! - `listing`: the listing of the tool, read for its commands.
//! - `mcp`: requests, responses and the registry of tools.
//! - `dispatch`: the steps from a request to its response.

pub mod angreal;
pub mod dispatch;
pub mod json;
pub mod listing;
pub mod mcp;
pub mod text;
