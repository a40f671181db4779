//! A multi-protocol TCP relay, as a set of decision procedures.
//!
//! Each front end (HTTP forward/CONNECT proxy, SOCKS5 proxy, plain TCP
//! forwarder) is a state machine from events to actions. The caller owns the
//! sockets: it performs each action and reports back what happened.

pub mod config;
pub mod connection;
pub mod http;
pub mod session;
pub mod socks5;
pub mod tcp;
pub mod text;
