//! The agent's settings.
use vstd::prelude::*;

verus! {

/// The agent's settings.
pub struct Config {
    /// Where the controller is reached (`host:port`).
    pub address: String,
    /// The pause between two polls of the process table, in milliseconds.
    pub poll_interval_ms: u64,
    /// Run scripts as child processes of the host instead of in the
    /// embedded interpreter.
    pub external_scripts: bool,
}

impl Config {
    /// The controller's socket address: `ws://<address>/client/socket`.
    pub fn socket_url(&self) -> (r: String)
        ensures
            r@ == "ws://"@ + self.address@ + "/client/socket"@,
    {
        let mut r = String::from_str("ws://");
        r.append(self.address.as_str());
        r.append("/client/socket");
        r
    }
}

} // verus!
