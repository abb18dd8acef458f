//! The configuration of a node.
use vstd::prelude::*;

use crate::node::event::PeerId;

verus! {

/// The node's own identity, its known peers and its counters.
#[derive(Debug, PartialEq, Eq)]
pub struct Config {
    peer_id: PeerId,
    peers: Peers,
    metrics: Metrics,
}

/// The known peers.
#[derive(Debug, PartialEq, Eq)]
pub struct Peers(Vec<Peer>);

/// A known peer, by its address.
#[derive(Debug, PartialEq, Eq)]
pub struct Peer(String);

/// Counters of the node.
#[derive(Debug, PartialEq, Eq)]
pub struct Metrics {
    connected: u32,
}

} // verus!
