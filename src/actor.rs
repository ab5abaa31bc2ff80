//! The messages that a peer-to-peer network actor takes.
use vstd::prelude::*;

verus! {

/// The "space" a network is joined in: the bytes of its hash.
#[derive(Debug, Clone, PartialEq, Eq, Hash)]
pub struct KitsuneSpace(pub Vec<u8>);

/// An agent in a space: the bytes of its hash.
#[derive(Debug, Clone, PartialEq, Eq, Hash)]
pub struct KitsuneAgent(pub Vec<u8>);

/// The hash, or coordinate, at the centre of a neighbourhood of nodes.
#[derive(Debug, Clone, PartialEq, Eq, Hash)]
pub struct KitsuneBasis(pub Vec<u8>);

/// Announce a space/agent pair on this network.
#[derive(Debug, Clone)]
pub struct Join {
    /// The "space" context.
    pub space: KitsuneSpace,
    /// The "agent" context.
    pub agent: KitsuneAgent,
}

/// Withdraw this space/agent pair from this network.
#[derive(Debug, Clone)]
pub struct Leave {
    /// The "space" context.
    pub space: KitsuneSpace,
    /// The "agent" context.
    pub agent: KitsuneAgent,
}

/// Make a request of a remote agent.
#[derive(Debug, Clone)]
pub struct Request {
    /// The "space" context.
    pub space: KitsuneSpace,
    /// The "agent" context.
    pub agent: KitsuneAgent,
    /// Request data.
    pub request: Vec<u8>,
}

/// Publish data to a neighbourhood of remote nodes surrounding the basis
/// hash. Answered with an approximate number of nodes reached.
#[derive(Debug, Clone)]
pub struct Broadcast {
    /// The "space" context.
    pub space: KitsuneSpace,
    /// The "agent" context.
    pub agent: KitsuneAgent,
    /// The basis hash, or coordinate, of the destination neighbourhood.
    pub basis: KitsuneBasis,
    /// How long to await responses; zero where no count is wanted.
    pub timeout_ms: u64,
    /// Broadcast data.
    pub broadcast: Vec<u8>,
}

/// Make a request of several destination agents, awaiting and aggregating
/// the responses. The remote sides see these as request events.
#[derive(Debug, Clone)]
pub struct MultiRequest {
    /// The "space" context.
    pub space: KitsuneSpace,
    /// The "agent" context.
    pub agent: KitsuneAgent,
    /// The basis hash, or coordinate, of the destination neighbourhood.
    pub basis: KitsuneBasis,
    /// Target remote agent count: zero for "a reasonable amount",
    /// `u32::MAX` for "as many as possible".
    pub remote_agent_count: u32,
    /// How long to await responses. Not zero: that is a broadcast.
    pub timeout_ms: u64,
    /// Request data.
    pub request: Vec<u8>,
}

/// Which agent gave which response.
#[derive(Debug, Clone)]
pub struct MultiRequestResponse {
    /// The "agent" context.
    pub agent: KitsuneAgent,
    /// Response data.
    pub response: Vec<u8>,
}

} // verus!
