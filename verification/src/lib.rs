//! A tool server core: a registry of named tools, a router that answers the
//! discovery and invocation surface, the decision logic of the broker that
//! brings up remote tool sources, and the table of calls in flight that
//! matches replies to requests and times requests out.
//!
//! The library never touches the operating system itself. Every tool call is
//! a small state machine: it names the next primitive operation to perform,
//! the embedding program performs it, and the machine turns the outcome into
//! the call's result.

pub mod action;
pub mod broker;
pub mod content;
pub mod env;
pub mod json;
pub mod pending;
pub mod run;
pub mod system;
pub mod text;
pub mod toolset;
