//! Runtime resolution and execution engine of a launcher that runs scripts
//! through sandboxed WebAssembly language runtimes.
//!
//! The library decides; its caller performs. Every filesystem, network,
//! console and sandbox operation is described by an [`protocol::Action`] that
//! the caller carries out and answers with an [`protocol::Event`].

pub mod engine;
pub mod flow;
pub mod install;
pub mod inventory;
pub mod outcome;
pub mod paths;
pub mod prompt;
pub mod protocol;
pub mod registry;
pub mod trace;
