//! Supervision core for externally spawned worker processes ("bots").
//!
//! The crate holds the decisions of a process supervisor as verified state
//! machines: the lifecycle of a bot, the capture of its output streams into
//! messages, the queue that carries those messages, and the hub that relays
//! them to subscribers. The operating system work itself (spawning, killing,
//! reading pipes, serving streams) is left to the caller, who performs the
//! action each step asks for and reports back what happened.

pub mod bot;
pub mod broadcast;
pub mod capture;
pub mod engine;
pub mod failure;
pub mod hub;
pub mod identity;
pub mod ledger;
pub mod manager;
pub mod status;
pub mod sync;
pub mod text;
