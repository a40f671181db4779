//! Start-up choices that the relay is handed.

use vstd::prelude::*;

verus! {

/// How log lines are rendered.
#[derive(Clone, Copy, Debug, PartialEq, Eq, Structural)]
pub enum LogFormat {
    /// Human-readable lines.
    Console,
    /// One JSON object per line.
    Json,
}

/// Which front end serves the listening socket.
#[derive(Clone, Copy, Debug, PartialEq, Eq, Structural)]
pub enum Mode {
    Http,
    Socks5,
    Tcp,
}

/// The least severe level that is still logged.
#[derive(Clone, Copy, Debug, PartialEq, Eq, Structural)]
pub enum LogLevel {
    Off,
    Trace,
    Debug,
    Info,
    Warn,
    Error,
}

} // verus!
