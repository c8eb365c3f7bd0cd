use vstd::prelude::*;

verus! {

/// Connection settings for the chat transport that drives the engine. The
/// engine itself never reads these; the surrounding program fills them from
/// its configuration file and hands them to its transport.
pub struct CoupIrcConfig {
    pub nick: String,
    pub server: String,
    pub channels: Vec<String>,
    pub tls: bool,
}

} // verus!
