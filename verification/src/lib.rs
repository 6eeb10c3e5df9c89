//! Leader election for a small cluster of nodes on a broadcast network.
//!
//! Nodes announce themselves, vote for the peer with the highest priority and
//! accept a leader once a two-thirds quorum of the known peers agrees on it.
//! The election engine is pure decision logic over a table of known peers; the
//! coordinator functions decide what a node sends and which role it takes.

pub mod address;
pub mod quorum;
pub mod message;
pub mod node;
pub mod table;
pub mod system;
pub mod model;
pub mod election;
pub mod inbound;
pub mod decision;
pub mod laws;
pub mod coordinator;
pub mod service;
pub mod cli;
