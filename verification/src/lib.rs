//! Screen-context capture and multimodal prompt assembly.
//!
//! The library holds the rules of the pipeline: how a window listing is read,
//! how a capture pass reacts to the outcome of each external tool, how
//! evidence is turned into a chat message, and how a reply is interpreted.
//! Running the tools and talking to the network is left to the caller.

pub mod text;
pub mod listing;
pub mod encoding;
pub mod evidence;
pub mod capture;
pub mod outcome;
pub mod tools;
pub mod prompt;
pub mod chat;
pub mod command;
pub mod workspace;
