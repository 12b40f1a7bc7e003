use vstd::prelude::*;

verus! {

/// Configuration for a server built on top of the transport.
///
/// The transport core itself is configuration-free; this type exists so
/// that the entry-point layer has a single value to construct and thread
/// through, and so that future settings have a place to live.
#[derive(Debug, Clone)]
pub struct ServerConfig {}

impl ServerConfig {
    pub fn new() -> (c: Self)
        ensures
            c == (ServerConfig {}),
    {
        ServerConfig {}
    }
}

impl Default for ServerConfig {
    fn default() -> (c: Self)
        ensures
            c == (ServerConfig {}),
    {
        ServerConfig::new()
    }
}

} // verus!
