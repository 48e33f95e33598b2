//! What the transport delivers to the core.
use vstd::prelude::*;
use crate::json::Json;

verus! {

/// One command from the controller: its name and its payload.
pub struct Command {
    pub command: String,
    pub data: Json,
}

impl Command {
    /// The command that stands for the connection's end: `connection-close`,
    /// with an empty payload.
    pub fn connection_close() -> (r: Command)
        ensures
            r.command@ == "connection-close"@,
            r.data matches Json::Null,
    {
        Command { command: String::from_str("connection-close"), data: Json::Null }
    }
}

} // verus!
