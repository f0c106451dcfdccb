//! Core of a line-oriented multi-client chat relay.
//!
//! The library models the server's connection-handling core: a registry of
//! display names keyed by connection identity, a bounded lossy broadcast
//! bus, the command interpreter, and the per-connection handler state
//! machine. Everything here is plain data and verified logic; the
//! surrounding program supplies sockets, tasks and the real channel.

pub mod bus;
pub mod commands;
pub mod handler;
pub mod messages;
pub mod registry;
pub mod text;

use vstd::prelude::*;

verus! {

/// A line is a command when it starts with the command prefix `/`.
pub open spec fn is_command_spec(s: Seq<char>) -> bool {
    s.len() > 0 && s[0] == '/'
}

} // verus!
