//! The events of the network that reach the node, as plain values.
use vstd::prelude::*;
use vstd::std_specs::convert::FromSpecImpl;

verus! {

/// The identity of a peer, by the bytes of its multihash.
#[derive(Debug, Clone, PartialEq, Eq)]
pub struct PeerId(pub Vec<u8>);

/// A public key, by its encoded bytes.
#[derive(Debug, Clone, PartialEq, Eq)]
pub struct PublicKey(pub Vec<u8>);

/// A network address, by its encoded bytes.
#[derive(Debug, Clone, PartialEq, Eq)]
pub struct Multiaddr(pub Vec<u8>);

/// Peers found or lost on the local network.
#[derive(Debug, PartialEq, Eq)]
pub enum MdnsEvent {
    Discovered(Vec<(PeerId, Multiaddr)>),
    Expired(Vec<(PeerId, Multiaddr)>),
}

/// The providers of a key.
#[derive(Debug, PartialEq, Eq)]
pub struct GetProvidersOk {
    pub key: Vec<u8>,
    pub providers: Vec<PeerId>,
}

/// A record of the distributed hash table.
#[derive(Debug, Clone, PartialEq, Eq)]
pub struct PeerRecord {
    pub key: Vec<u8>,
    pub value: Vec<u8>,
}

/// The outcome of a query of the distributed hash table; errors are kept as
/// their printed form.
#[derive(Debug, PartialEq, Eq)]
pub enum QueryResult {
    GetProviders(Result<GetProvidersOk, String>),
    GetRecord(Result<Vec<PeerRecord>, String>),
    PutRecord(Result<Vec<u8>, String>),
    StartProviding(Result<Vec<u8>, String>),
    /// Any other query.
    Other,
}

/// Events of the distributed hash table.
#[derive(Debug, PartialEq, Eq)]
pub enum KademliaEvent {
    OutboundQueryCompleted { result: QueryResult },
    /// Any other event.
    Other,
}

/// Events of the publish-subscribe protocol.
#[derive(Debug, PartialEq, Eq)]
pub enum GossipsubEvent {
    Message { propagation_source: PeerId, message_id: String, data: Vec<u8> },
    /// Any other event.
    Other,
}

/// An event of the identify protocol, by its printed form.
#[derive(Debug, PartialEq, Eq)]
pub struct IdentifyEvent {
    pub description: String,
}

/// The outcome of a ping.
#[derive(Debug, PartialEq, Eq)]
pub enum PingResult {
    Ping { rtt_millis: u128 },
    Pong,
    Timeout,
    Unsupported,
    Other { error: String },
}

/// A ping to or from a peer.
#[derive(Debug, PartialEq, Eq)]
pub struct PingEvent {
    pub peer: PeerId,
    pub result: PingResult,
}

/// The events that the node's protocols emit.
#[derive(Debug, PartialEq, Eq)]
pub enum Event {
    Kademlia(KademliaEvent),
    Mdns(MdnsEvent),
    Gossipsub(GossipsubEvent),
    Identify(IdentifyEvent),
    Ping(PingEvent),
}

impl From<KademliaEvent> for Event {
    fn from(event: KademliaEvent) -> (r: Self) {
        Event::Kademlia(event)
    }
}

impl FromSpecImpl<KademliaEvent> for Event {
    open spec fn obeys_from_spec() -> bool {
        true
    }

    open spec fn from_spec(v: KademliaEvent) -> Event {
        Event::Kademlia(v)
    }
}

impl From<MdnsEvent> for Event {
    fn from(event: MdnsEvent) -> (r: Self) {
        Event::Mdns(event)
    }
}

impl FromSpecImpl<MdnsEvent> for Event {
    open spec fn obeys_from_spec() -> bool {
        true
    }

    open spec fn from_spec(v: MdnsEvent) -> Event {
        Event::Mdns(v)
    }
}

impl From<GossipsubEvent> for Event {
    fn from(event: GossipsubEvent) -> (r: Self) {
        Event::Gossipsub(event)
    }
}

impl FromSpecImpl<GossipsubEvent> for Event {
    open spec fn obeys_from_spec() -> bool {
        true
    }

    open spec fn from_spec(v: GossipsubEvent) -> Event {
        Event::Gossipsub(v)
    }
}

impl From<IdentifyEvent> for Event {
    fn from(event: IdentifyEvent) -> (r: Self) {
        Event::Identify(event)
    }
}

impl FromSpecImpl<IdentifyEvent> for Event {
    open spec fn obeys_from_spec() -> bool {
        true
    }

    open spec fn from_spec(v: IdentifyEvent) -> Event {
        Event::Identify(v)
    }
}

impl From<PingEvent> for Event {
    fn from(event: PingEvent) -> (r: Self) {
        Event::Ping(event)
    }
}

impl FromSpecImpl<PingEvent> for Event {
    open spec fn obeys_from_spec() -> bool {
        true
    }

    open spec fn from_spec(v: PingEvent) -> Event {
        Event::Ping(v)
    }
}

} // verus!
