//! The messages that nodes broadcast to each other.

use vstd::prelude::*;
use crate::address::{Address, HostId};

verus! {

/// The periodic heartbeat of a node: who it is, its tie-break priority for
/// this election, and whether it claims to lead a running cluster.
#[derive(Debug)]
pub struct AppearanceMessage {
    pub priority: i32,
    pub is_master: bool,
    pub hid: HostId,
}

/// What a leader broadcasts so that followers can join its cluster.
#[derive(Debug)]
pub struct ConnectionDetails {
    pub hid: HostId,
    pub token: String,
}

/// A ballot for the peer at `addr` with host identity `hid`.
#[derive(Debug)]
pub struct CastVote {
    pub addr: Address,
    pub hid: HostId,
}

/// The outcome that a node has concluded for itself.
#[derive(Debug)]
pub struct ElectionResult {
    pub addr: Address,
    pub hid: HostId,
}

/// The closed set of messages of the protocol.
#[derive(Debug)]
pub enum Message {
    Appearance(AppearanceMessage),
    CastVote(CastVote),
    Reset,
    ElectionResult(ElectionResult),
    ConnectionDetails(ConnectionDetails),
}

} // verus!
