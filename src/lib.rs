//! An agent daemon's core: the peer registry and its event log, the request
//! handling of the agent, a cache of per-peer clients, and the command bridge
//! that turns external commands into operations and answers into JSON lines.
pub mod json;
pub mod protocol;
pub mod agent;
pub mod cache;
pub mod command;
pub mod transfer;
pub mod identity;
