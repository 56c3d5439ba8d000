//! The local core of a consent-gated, auditable assistant.
//!
//! A chat turn goes to a provider, which answers with text or proposes tool
//! calls. Every proposed call is judged by the capability policy: read-only
//! tools may run at once, everything else waits for the user's consent. A
//! consent is bound to the exact request it was issued for, can be resolved
//! once, and expires. Every response leaves an audit entry.
//!
//! The library decides; it does not read a clock, a file, a socket or the
//! environment. A host hands in what it observed and carries out what the
//! library asks for.
//!
//! * [`policy`], [`tool_registry`], [`orchestrator`]: judging and running
//!   tool calls in a bounded loop.
//! * [`agent`], [`storage`], [`listing`], [`laws`]: the service as
//!   transitions on the persisted state, and what holds of them together.
//! * [`providers`], [`actions`]: the two capabilities the loop consumes and
//!   their built-in implementations.
//! * [`ipc`], [`jsonrpc`], [`wire`], [`mcp`], [`plugins`]: the JSON-RPC
//!   surface and its transports.
//! * [`cli`], [`bridge`]: what the command line, the terminal interface and
//!   the desktop bridge decide.
//! * [`json`], [`text`], [`model`]: documents, character-level text, and the
//!   vocabulary of views that contracts are stated in.

pub mod actions;
pub mod agent;
pub mod bridge;
pub mod cli;
pub mod ipc;
pub mod json;
pub mod jsonrpc;
pub mod laws;
pub mod listing;
pub mod mcp;
pub mod model;
pub mod orchestrator;
pub mod plugins;
pub mod policy;
pub mod providers;
pub mod storage;
pub mod text;
pub mod tool_registry;
pub mod wire;
