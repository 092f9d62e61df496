use vstd::prelude::*;

pub mod broadcaster;
pub mod command;
pub mod frame;
pub mod session;

use crate::command::Spawn;

verus! {

/// The transport framing chosen once at startup and fixed for the whole run.
#[derive(Clone, Copy, Debug, PartialEq, Eq, Structural)]
pub enum HttpMode {
    Ws,
    Sse,
}

/// Startup configuration: where to bind, which path serves events, which
/// delivery mode frames them, and what command to run (stdin when none).
pub struct Args {
    pub host: String,
    pub port: u16,
    pub path: String,
    pub serve: Option<String>,
    pub mode: HttpMode,
    pub command: Option<Spawn>,
}

} // verus!
