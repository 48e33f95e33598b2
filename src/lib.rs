//! A host agent core: a registry that routes named commands to typed handlers,
//! a process guard driven by a replaceable restriction policy, and a script
//! store with execution bookkeeping.
use vstd::prelude::*;

pub mod json;
pub mod commands_executor;
pub mod processes_watcher;
pub mod paths;
pub mod scripts;
pub mod script;
pub mod config;
pub mod server_api;
pub mod client;

verus! {

} // verus!
