//! Verified core of a tool-using chat agent.
//!
//! The crate covers the parts of the agent that carry real logic: the
//! decoder that turns raw stream lines into typed protocol events, the
//! aggregator that folds those events into a structured response, the
//! registry of executable tools, and the decision logic of the
//! tool-driven conversation loop.  Transport (HTTP, stdin/stdout) is
//! left to the thin program around the library.

pub mod aggregator;
pub mod events;
pub mod get_time;
pub mod json;
pub mod messages;
pub mod orchestrator;
pub mod registry;
pub mod strings;
