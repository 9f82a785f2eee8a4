//! What reaches the node, and what it has the swarm do.

use libp2p::request_response::{OutboundRequestId, ResponseChannel};
use libp2p::PeerId;
use vstd::prelude::*;

use crate::address::Address;
use crate::protocol::{Block, BlockNotifyAck, SyncNotification, SyncRequest, SyncResponse};

verus! {

/// Events pushed out of the network layer to the sync orchestrator.
#[derive(Debug)]
pub enum SyncEvent {
    /// A new peer connection was established.
    PeerConnected {
        /// The remote peer identity.
        peer_id: PeerId,
    },
    /// A sync response arrived for an outbound request.
    ResponseReceived {
        /// The peer that sent the response.
        peer_id: PeerId,
        /// The response payload.
        response: SyncResponse,
    },
    /// An outbound block-range request failed before a response arrived.
    RequestFailed {
        /// The peer the failed request targeted.
        peer_id: PeerId,
    },
}

/// Commands sent into the node from the sync orchestrator.
#[derive(Debug)]
pub enum SyncCommand {
    /// Ask a peer for its latest height.
    GetHeight {
        /// Target peer.
        peer_id: PeerId,
    },
    /// Ask a peer for a range of blocks.
    GetBlocks {
        /// Target peer.
        peer_id: PeerId,
        /// First height to request (inclusive).
        start_height: u64,
        /// End height (exclusive).
        end_height: u64,
    },
    /// Send a sync response on a previously received inbound request channel.
    SendResponse {
        /// The response channel from the inbound request.
        channel: ResponseChannel<SyncResponse>,
        /// The response payload to send.
        response: SyncResponse,
    },
}

/// An inbound sync request delivered to the node binary for processing.
#[derive(Debug)]
pub struct InboundSyncRequest {
    /// The request payload.
    pub request: SyncRequest,
    /// The response channel; send exactly one [`SyncResponse`] back.
    pub channel: ResponseChannel<SyncResponse>,
    /// The peer that sent the request.
    pub peer: PeerId,
}

/// What happened in the swarm.
#[derive(Debug)]
pub enum SwarmEvent {
    /// The node listens on an address.
    NewListenAddr {
        /// The address.
        address: Address,
    },
    /// A connection to a peer was opened.
    ConnectionEstablished {
        /// The remote peer.
        peer_id: PeerId,
    },
    /// A connection to a peer was closed.
    ConnectionClosed {
        /// The remote peer.
        peer_id: PeerId,
    },
    /// mDNS found peers on the local network.
    MdnsDiscovered {
        /// The peers, each with an address.
        peers: Vec<(PeerId, Address)>,
    },
    /// mDNS no longer sees peers on the local network.
    MdnsExpired {
        /// The peers, each with an address.
        peers: Vec<(PeerId, Address)>,
    },
    /// A peer told which software it runs.
    IdentifyReceived {
        /// The remote peer.
        peer_id: PeerId,
        /// The protocol version that it advertises.
        protocol_version: String,
        /// The agent version that it advertises.
        agent_version: String,
    },
    /// A ping was answered, or was not.
    Ping {
        /// The remote peer.
        peer: PeerId,
    },
    /// A peer sent a sync request.
    SyncRequestReceived {
        /// The remote peer.
        peer: PeerId,
        /// The request.
        request: SyncRequest,
        /// Where the response goes.
        channel: ResponseChannel<SyncResponse>,
    },
    /// A peer answered a sync request of this node.
    SyncResponseReceived {
        /// The remote peer.
        peer: PeerId,
        /// The request that is answered.
        request_id: OutboundRequestId,
        /// The response.
        response: SyncResponse,
    },
    /// A sync request of this node failed.
    SyncOutboundFailure {
        /// The peer that it was meant for.
        peer: PeerId,
        /// The request that failed.
        request_id: OutboundRequestId,
    },
    /// A sync request of a peer failed.
    SyncInboundFailure {
        /// The remote peer.
        peer: PeerId,
    },
    /// A sync response of this node was sent.
    SyncResponseSent {
        /// The remote peer.
        peer: PeerId,
    },
    /// A peer announced a block.
    BlockNotifyReceived {
        /// The remote peer.
        peer: PeerId,
        /// The announcement.
        notification: SyncNotification,
        /// Where the acknowledgement goes.
        ack_channel: ResponseChannel<BlockNotifyAck>,
    },
    /// A peer acknowledged a block that this node had announced.
    BlockNotifyAcknowledged {
        /// The remote peer.
        peer: PeerId,
        /// The announcement that is acknowledged.
        request_id: OutboundRequestId,
    },
    /// An announcement of this node failed.
    BlockNotifyOutboundFailure {
        /// The peer that it was meant for.
        peer: PeerId,
        /// The announcement that failed.
        request_id: OutboundRequestId,
    },
    /// An announcement of a peer failed.
    BlockNotifyInboundFailure {
        /// The remote peer.
        peer: PeerId,
    },
    /// An acknowledgement of this node was sent.
    BlockNotifyAckSent {
        /// The remote peer.
        peer: PeerId,
    },
    /// Anything else.
    Other,
}

/// What the event loop of the node takes in.
#[derive(Debug)]
pub enum NodeInput {
    /// The node binary wants a block announced.
    Broadcast {
        /// The block.
        block: Block,
        /// The peers that the node is connected to.
        connected: Vec<PeerId>,
    },
    /// The sync orchestrator sent a command.
    Command {
        /// The command.
        command: SyncCommand,
    },
    /// Something happened in the swarm.
    Swarm {
        /// What happened.
        event: SwarmEvent,
    },
}

/// A sync request to send.
#[derive(Debug, Clone, Copy)]
pub struct OutboundSyncRequest {
    /// Target peer.
    pub peer: PeerId,
    /// The request.
    pub request: SyncRequest,
}

/// What the swarm has to do.
#[derive(Debug)]
pub enum SwarmAction {
    /// Dial a discovered peer.
    Dial {
        /// The peer.
        peer_id: PeerId,
        /// Its address.
        address: Address,
    },
    /// Send a sync request. The identifier that it gets goes to
    /// [`P2PNode::record_sync_request`](crate::node::P2PNode::record_sync_request).
    SendSyncRequest {
        /// The request and its target.
        outbound: OutboundSyncRequest,
    },
    /// Answer a sync request.
    SendSyncResponse {
        /// Where the response goes.
        channel: ResponseChannel<SyncResponse>,
        /// The response.
        response: SyncResponse,
    },
    /// Announce a block.
    SendNotification {
        /// Target peer.
        peer: PeerId,
        /// The announcement.
        notification: SyncNotification,
    },
    /// Acknowledge an announced block.
    SendAck {
        /// The peer that announced the block.
        peer: PeerId,
        /// Where the acknowledgement goes.
        ack_channel: ResponseChannel<BlockNotifyAck>,
        /// The acknowledgement.
        ack: BlockNotifyAck,
    },
}

/// What came of one input.
#[derive(Debug)]
pub struct Outcome {
    /// What the swarm has to do, in this order.
    pub actions: Vec<SwarmAction>,
    /// Whether an inbound request or an announced block could not be delivered, because its
    /// receiver was dropped.
    pub receiver_dropped: bool,
}

} // verus!
