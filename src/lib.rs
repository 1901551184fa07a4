//! A controller that drives a browser toward a natural-language goal by
//! alternating calls to a remote reasoning service with device actions.
//!
//! The decisions of the run loop and of the reasoning protocol are verified
//! state machines; the asynchronous collaborators that perform the I/O are
//! driven from outside this crate.

pub mod adapters;
pub mod browser;
pub mod controller;
pub mod cua;
pub mod json;
pub mod model;
pub mod reasoner;
pub mod text;

pub use browser::BrowserConfig;
pub use cua::CuaConfig;
pub use model::AgentConfig;
