//! The node: what it remembers, and what it does on each input.

use libp2p::request_response::{OutboundRequestId, ResponseChannel};
use libp2p::PeerId;
use tokio::sync::mpsc::{UnboundedReceiver, UnboundedSender};
use vstd::prelude::*;

use crate::address::{listen_address, parse_address, Address, AddressError};
use crate::broadcast::{ChannelBroadcaster, QueuedBlock};
use crate::event::{
    InboundSyncRequest, NodeInput, OutboundSyncRequest, Outcome, SwarmAction, SwarmEvent,
    SyncCommand, SyncEvent,
};
use crate::link::{Link, LinkModel};
use crate::outlet::{Outlet, OutletModel};
use crate::protocol::{
    Block, BlockModel, BlockNotifyAck, SyncNotification, SyncRequest, SyncResponse,
};
use crate::requests::OutboundRequests;

verus! {

/// Protocol version string exchanged during the libp2p Identify handshake.
///
/// This is informational metadata only: peers advertise it but nothing gates on it, and it must
/// never grow fallback or admission logic. The authoritative compatibility gates are the
/// negotiations of the sync and block-notify protocols, which fail deterministically across
/// versions.
pub const IDENTIFY_PROTOCOL_VERSION: &'static str = "/mbongo/0.3.0";

/// Agent version string exchanged during the Identify handshake.
pub const AGENT_VERSION: &'static str = "mbongo-node/0.1.0";

/// For how many seconds a connection may be idle before it is closed.
pub const IDLE_CONNECTION_TIMEOUT_SECS: u64 = 60;

/// What a [`P2PNode`] stands for.
#[verifier::ext_equal]
#[verifier::reject_recursive_types(Q)]
#[verifier::reject_recursive_types(C)]
pub struct NodeModel<Q = QueuedBlock, C = SyncCommand> {
    /// The local peer identity.
    pub peer_id: PeerId,
    /// The outbound block requests that were neither answered nor reported as failed.
    pub pending: Set<OutboundRequestId>,
    /// Inbound sync requests, to the node binary.
    pub sync: OutletModel<InboundSyncRequest>,
    /// Announced blocks, to the node binary.
    pub block: OutletModel<Block>,
    /// Blocks to broadcast, from the node binary to the event loop.
    pub broadcast: LinkModel<Q>,
    /// Events, to the sync orchestrator.
    pub sync_event: OutletModel<SyncEvent>,
    /// Commands, from the sync orchestrator to the event loop.
    pub sync_cmd: LinkModel<C>,
}

impl<Q, C> NodeModel<Q, C> {
    /// Whether the node is new: nothing is pending, every link and outlet is fresh.
    pub open spec fn fresh(self) -> bool {
        &&& self.pending == Set::<OutboundRequestId>::empty()
        &&& self.sync.fresh()
        &&& self.block.fresh()
        &&& self.broadcast.fresh()
        &&& self.sync_event.fresh()
        &&& self.sync_cmd.fresh()
    }

    /// Whether every link and outlet joins two ends of one channel, and every message on record was
    /// handed to the sending end of its outlet.
    pub open spec fn sound(self) -> bool {
        &&& self.sync.joined() && self.sync.delivered()
        &&& self.block.joined() && self.block.delivered()
        &&& self.broadcast.joined()
        &&& self.sync_event.joined() && self.sync_event.delivered()
        &&& self.sync_cmd.joined()
    }

    /// The node after the sync orchestrator was handed `event`.
    pub open spec fn notify(self, event: SyncEvent) -> Self {
        NodeModel { sync_event: self.sync_event.hand(event), ..self }
    }

    /// The node after the answer to, or the failure of, the sync request `id`.
    pub open spec fn settle(self, id: OutboundRequestId) -> Self {
        NodeModel { pending: self.pending.remove(id), ..self }
    }

    /// The node after `event`.
    pub open spec fn after_event(self, event: SwarmEvent) -> Self {
        match event {
            SwarmEvent::ConnectionEstablished { peer_id } => self.notify(
                SyncEvent::PeerConnected { peer_id },
            ),
            SwarmEvent::SyncRequestReceived { peer, request, channel } => NodeModel {
                sync: self.sync.hand(InboundSyncRequest { request, channel, peer }),
                ..self
            },
            SwarmEvent::SyncResponseReceived { peer, request_id, response } => self.settle(
                request_id,
            ).notify(SyncEvent::ResponseReceived { peer_id: peer, response }),
            SwarmEvent::SyncOutboundFailure { peer, request_id } => {
                if self.pending.contains(request_id) {
                    self.settle(request_id).notify(SyncEvent::RequestFailed { peer_id: peer })
                } else {
                    self
                }
            },
            SwarmEvent::BlockNotifyReceived {
                notification: SyncNotification::NewBlock { block },
                ..
            } => NodeModel { block: self.block.hand(block), ..self },
            _ => self,
        }
    }

    /// The node after `input`.
    pub open spec fn after_input(self, input: NodeInput) -> Self {
        match input {
            NodeInput::Swarm { event } => self.after_event(event),
            _ => self,
        }
    }

    /// The node after the swarm sent `request` under the identifier `id`.
    pub open spec fn after_sent(self, request: SyncRequest, id: OutboundRequestId) -> Self {
        if request is GetBlocks {
            NodeModel { pending: self.pending.insert(id), ..self }
        } else {
            self
        }
    }
}

/// What the swarm has to do on `event`.
pub open spec fn event_actions(event: SwarmEvent) -> Seq<SwarmAction> {
    match event {
        SwarmEvent::MdnsDiscovered { peers } => peers@.map_values(
            |found: (PeerId, Address)| SwarmAction::Dial { peer_id: found.0, address: found.1 },
        ),
        SwarmEvent::BlockNotifyReceived { peer, ack_channel, .. } => seq![
            SwarmAction::SendAck { peer, ack_channel, ack: BlockNotifyAck },
        ],
        _ => Seq::empty(),
    }
}

/// Whether what `event` brings to `node` was handed to the sender of the right outlet, once it is
/// handled; and whether `receiver_dropped` tells that an inbound request or an announced block
/// was refused.
pub open spec fn delivers<Q, C>(
    node: NodeModel<Q, C>,
    event: SwarmEvent,
    receiver_dropped: bool,
) -> bool {
    match event {
        SwarmEvent::ConnectionEstablished { peer_id } => {
            &&& crate::link::was_handed_over(node.sync_event.tx, SyncEvent::PeerConnected { peer_id })
            &&& !receiver_dropped
        },
        SwarmEvent::SyncRequestReceived { peer, request, channel } => {
            exists|sent: Result<(), InboundSyncRequest>|
                {
                    &&& #[trigger] crate::link::handed_over(
                        node.sync.tx,
                        InboundSyncRequest { request, channel, peer },
                        sent,
                    )
                    &&& receiver_dropped == (sent is Err)
                }
        },
        SwarmEvent::SyncResponseReceived { peer, response, .. } => {
            &&& crate::link::was_handed_over(
                node.sync_event.tx,
                SyncEvent::ResponseReceived { peer_id: peer, response },
            )
            &&& !receiver_dropped
        },
        SwarmEvent::SyncOutboundFailure { peer, request_id } => {
            &&& node.pending.contains(request_id) ==> crate::link::was_handed_over(
                node.sync_event.tx,
                SyncEvent::RequestFailed { peer_id: peer },
            )
            &&& !receiver_dropped
        },
        SwarmEvent::BlockNotifyReceived {
            notification: SyncNotification::NewBlock { block },
            ..
        } => {
            exists|sent: Result<(), Block>|
                {
                    &&& #[trigger] crate::link::handed_over(node.block.tx, block, sent)
                    &&& receiver_dropped == (sent is Err)
                }
        },
        _ => !receiver_dropped,
    }
}

/// What the swarm has to do on `command`.
pub open spec fn command_action(command: SyncCommand) -> SwarmAction {
    match command {
        SyncCommand::GetHeight { peer_id } => SwarmAction::SendSyncRequest {
            outbound: OutboundSyncRequest { peer: peer_id, request: SyncRequest::GetHeight },
        },
        SyncCommand::GetBlocks { peer_id, start_height, end_height } => {
            SwarmAction::SendSyncRequest {
                outbound: OutboundSyncRequest {
                    peer: peer_id,
                    request: SyncRequest::GetBlocks { start_height, end_height },
                },
            }
        },
        SyncCommand::SendResponse { channel, response } => SwarmAction::SendSyncResponse {
            channel,
            response,
        },
    }
}

/// Whether `action` announces `block` to `peer`.
pub open spec fn announces(action: SwarmAction, peer: PeerId, block: BlockModel) -> bool {
    match action {
        SwarmAction::SendNotification {
            peer: target,
            notification: SyncNotification::NewBlock { block: sent },
        } => target == peer && sent@ == block,
        _ => false,
    }
}

/// Whether `actions` announce `block` to each of `peers`, in their order, and do nothing else.
pub open spec fn announces_to_all(
    actions: Seq<SwarmAction>,
    peers: Seq<PeerId>,
    block: BlockModel,
) -> bool {
    &&& actions.len() == peers.len()
    &&& forall|i: int| 0 <= i < peers.len() ==> announces(#[trigger] actions[i], peers[i], block)
}

/// Whether `actions` are what the swarm has to do on `input`.
pub open spec fn answers(actions: Seq<SwarmAction>, input: NodeInput) -> bool {
    match input {
        NodeInput::Broadcast { block, connected } => announces_to_all(
            actions,
            connected@,
            block@,
        ),
        NodeInput::Command { command } => actions == seq![command_action(command)],
        NodeInput::Swarm { event } => actions == event_actions(event),
    }
}

/// Minimal libp2p node with block-sync and block-announce support.
///
/// Holds everything but the swarm: the local peer identity, the channels to the sync
/// orchestrator and to the node binary, and the outbound block requests that wait for an answer.
/// The event loop feeds it one [`NodeInput`] after the other and performs the actions that come
/// back.
///
/// What the node does is written for any type `Q` of blocks queued for broadcast and any type `C`
/// of commands. It can make neither, so the node itself puts nothing on these two queues: what is
/// there came through a broadcaster or a commander.
#[verifier::reject_recursive_types(Q)]
#[verifier::reject_recursive_types(C)]
pub struct P2PNode<Q = QueuedBlock, C = SyncCommand> {
    /// The local peer identity.
    pub peer_id: PeerId,
    /// Inbound sync requests, to the node binary.
    sync: Outlet<InboundSyncRequest>,
    /// Inbound block announcements, to the node binary.
    block: Outlet<Block>,
    /// Blocks to broadcast, from the node binary.
    broadcast: Link<Q>,
    /// Events, to the sync orchestrator.
    sync_event: Outlet<SyncEvent>,
    /// Commands, from the sync orchestrator.
    sync_cmd: Link<C>,
    /// Outbound block requests whose failures can release orchestrator state.
    outbound_block_requests: OutboundRequests,
}

impl<Q, C> View for P2PNode<Q, C> {
    type V = NodeModel<Q, C>;

    closed spec fn view(&self) -> NodeModel<Q, C> {
        NodeModel {
            peer_id: self.peer_id,
            pending: self.outbound_block_requests@,
            sync: self.sync@,
            block: self.block@,
            broadcast: self.broadcast@,
            sync_event: self.sync_event@,
            sync_cmd: self.sync_cmd@,
        }
    }
}

impl P2PNode {
    /// Creates a new node with the identity `peer_id`.
    pub fn new(peer_id: PeerId) -> (node: Self)
        ensures
            node@.peer_id == peer_id,
            node@.fresh(),
    {
        P2PNode {
            peer_id,
            sync: Outlet::new(),
            block: Outlet::new(),
            broadcast: Link::new(),
            sync_event: Outlet::new(),
            sync_cmd: Link::new(),
            outbound_block_requests: OutboundRequests::new(),
        }
    }
}

impl<Q, C> P2PNode<Q, C> {
    /// Takes ownership of the inbound-sync receiver. Returns `None` on subsequent calls.
    pub fn take_sync_rx(&mut self) -> (rx: Option<UnboundedReceiver<InboundSyncRequest>>)
        ensures
            rx == old(self)@.sync.rx,
            rx matches Some(rx) ==> crate::link::one_channel(old(self)@.sync.tx, rx),
            final(self)@ == (NodeModel { sync: old(self)@.sync.taken(), ..old(self)@ }),
    {
        self.sync.take_receiver()
    }

    /// Takes ownership of the inbound block-announcement receiver. Returns `None` on subsequent
    /// calls.
    pub fn take_block_rx(&mut self) -> (rx: Option<UnboundedReceiver<Block>>)
        ensures
            rx == old(self)@.block.rx,
            rx matches Some(rx) ==> crate::link::one_channel(old(self)@.block.tx, rx),
            final(self)@ == (NodeModel { block: old(self)@.block.taken(), ..old(self)@ }),
    {
        self.block.take_receiver()
    }

    /// Takes ownership of the sync event receiver. Returns `None` on subsequent calls.
    ///
    /// The orchestrator task listens on this for [`SyncEvent::PeerConnected`],
    /// [`SyncEvent::ResponseReceived`], and [`SyncEvent::RequestFailed`] events.
    pub fn take_sync_event_rx(&mut self) -> (rx: Option<UnboundedReceiver<SyncEvent>>)
        ensures
            rx == old(self)@.sync_event.rx,
            rx matches Some(rx) ==> crate::link::one_channel(old(self)@.sync_event.tx, rx),
            final(self)@ == (NodeModel { sync_event: old(self)@.sync_event.taken(), ..old(self)@ }),
    {
        self.sync_event.take_receiver()
    }

    /// Takes ownership of the receiver of blocks to broadcast, for the event loop. Returns `None`
    /// on subsequent calls.
    pub fn take_broadcast_rx(&mut self) -> (rx: Option<UnboundedReceiver<Q>>)
        ensures
            rx == old(self)@.broadcast.rx,
            rx matches Some(rx) ==> crate::link::one_channel(old(self)@.broadcast.tx, rx),
            final(self)@ == (NodeModel { broadcast: old(self)@.broadcast.taken(), ..old(self)@ }),
    {
        self.broadcast.take_receiver()
    }

    /// Takes ownership of the receiver of sync commands, for the event loop. Returns `None` on
    /// subsequent calls.
    pub fn take_sync_cmd_rx(&mut self) -> (rx: Option<UnboundedReceiver<C>>)
        ensures
            rx == old(self)@.sync_cmd.rx,
            rx matches Some(rx) ==> crate::link::one_channel(old(self)@.sync_cmd.tx, rx),
            final(self)@ == (NodeModel { sync_cmd: old(self)@.sync_cmd.taken(), ..old(self)@ }),
    {
        self.sync_cmd.take_receiver()
    }

    /// Returns a cloneable sender for [`SyncCommand`] messages.
    ///
    /// The sync orchestrator uses this to send `GetHeight`, `GetBlocks`, and `SendResponse`
    /// commands into the event loop.
    pub fn sync_commander(&self) -> (tx: UnboundedSender<C>)
        ensures
            tx == self@.sync_cmd.tx,
    {
        self.sync_cmd.sender()
    }

    /// Broadcast a newly produced block to all connected peers: the announcement for each of
    /// them.
    pub fn broadcast_block(&self, block: &Block, connected: &Vec<PeerId>) -> (actions: Vec<
        SwarmAction,
    >)
        ensures
            announces_to_all(actions@, connected@, block@),
    {
        let mut actions: Vec<SwarmAction> = Vec::new();
        let mut i: usize = 0;
        while i < connected.len()
            invariant
                i <= connected@.len(),
                announces_to_all(actions@, connected@.take(i as int), block@),
            decreases connected@.len() - i,
        {
            let notification = SyncNotification::NewBlock { block: block.clone() };
            actions.push(SwarmAction::SendNotification { peer: connected[i], notification });
            i = i + 1;
        }
        assert(connected@.take(i as int) =~= connected@);
        actions
    }

    /// The address to listen on for `port` on all interfaces.
    pub fn listen(&self, port: u16) -> (address: Result<Address, AddressError>)
        ensures
            address matches Ok(address) && address@ == crate::address::listen_bytes(port),
    {
        listen_address(port)
    }

    /// The address to dial for the multiaddr `addr`. It is an error if `addr` is none.
    pub fn dial(&self, addr: &str) -> (address: Result<Address, AddressError>)
        ensures
            match address {
                Ok(address) => crate::outside::parsed_multiaddr(addr@) == Some(address@),
                Err(AddressError::Invalid(reason)) => {
                    &&& crate::outside::parsed_multiaddr(addr@) is None
                    &&& crate::address::refused(addr, reason)
                },
            },
            forall|port: u16|
                addr@ == #[trigger] crate::address::listen_text(port) ==> address is Ok
                    && address->Ok_0@ == crate::address::listen_bytes(port),
    {
        parse_address(addr)
    }

    /// Send a `GetHeight` request to a specific peer.
    ///
    /// The response will arrive as a sync event in the event loop.
    pub fn send_get_height(&self, peer: PeerId) -> (outbound: OutboundSyncRequest)
        ensures
            outbound == (OutboundSyncRequest { peer, request: SyncRequest::GetHeight }),
    {
        OutboundSyncRequest { peer, request: SyncRequest::GetHeight }
    }

    /// Send a `GetBlocks` request to a specific peer.
    pub fn send_get_blocks(
        &self,
        peer: PeerId,
        start_height: u64,
        end_height: u64,
    ) -> (outbound: OutboundSyncRequest)
        ensures
            outbound == (OutboundSyncRequest {
                peer,
                request: SyncRequest::GetBlocks { start_height, end_height },
            }),
    {
        OutboundSyncRequest {
            peer,
            request: SyncRequest::GetBlocks { start_height, end_height },
        }
    }

    /// Remembers that the swarm sent `request` under the identifier `request_id`, if a failure of
    /// the request is to be reported: if it asks for blocks.
    pub fn record_sync_request(&mut self, request: &SyncRequest, request_id: OutboundRequestId)
        ensures
            final(self)@ == old(self)@.after_sent(*request, request_id),
    {
        match request {
            SyncRequest::GetHeight => {},
            SyncRequest::GetBlocks { .. } => {
                self.outbound_block_requests.insert(request_id);
            },
        }
    }

    /// Send a response on a previously received inbound request channel.
    pub fn send_response(
        &self,
        channel: ResponseChannel<SyncResponse>,
        response: SyncResponse,
    ) -> (action: SwarmAction)
        ensures
            action == (SwarmAction::SendSyncResponse { channel, response }),
    {
        SwarmAction::SendSyncResponse { channel, response }
    }

    /// One turn of the event loop: takes in `input`, and says what the swarm has to do.
    pub fn step(&mut self, input: NodeInput) -> (outcome: Outcome)
        ensures
            final(self)@ == old(self)@.after_input(input),
            answers(outcome.actions@, input),
            match input {
                NodeInput::Swarm { event } => delivers(
                    old(self)@,
                    event,
                    outcome.receiver_dropped,
                ),
                _ => !outcome.receiver_dropped,
            },
            final(self)@.sound(),
    {
        proof {
            use_type_invariant(&self.sync);
            use_type_invariant(&self.block);
            use_type_invariant(&self.broadcast);
            use_type_invariant(&self.sync_event);
            use_type_invariant(&self.sync_cmd);
        }
        match input {
            NodeInput::Broadcast { block, connected } => {
                let actions = self.broadcast_block(&block, &connected);
                Outcome { actions, receiver_dropped: false }
            },
            NodeInput::Command { command } => {
                let mut actions: Vec<SwarmAction> = Vec::new();
                actions.push(self.handle_sync_command(command));
                Outcome { actions, receiver_dropped: false }
            },
            NodeInput::Swarm { event } => self.handle_swarm_event(event),
        }
    }

    /// Execute a sync command received from the orchestrator.
    pub fn handle_sync_command(&self, command: SyncCommand) -> (action: SwarmAction)
        ensures
            action == command_action(command),
    {
        match command {
            SyncCommand::GetHeight { peer_id } => SwarmAction::SendSyncRequest {
                outbound: self.send_get_height(peer_id),
            },
            SyncCommand::GetBlocks { peer_id, start_height, end_height } => {
                SwarmAction::SendSyncRequest {
                    outbound: self.send_get_blocks(peer_id, start_height, end_height),
                }
            },
            SyncCommand::SendResponse { channel, response } => self.send_response(
                channel,
                response,
            ),
        }
    }

    /// Handle a single swarm event.
    pub fn handle_swarm_event(&mut self, event: SwarmEvent) -> (outcome: Outcome)
        ensures
            final(self)@ == old(self)@.after_event(event),
            outcome.actions@ == event_actions(event),
            delivers(old(self)@, event, outcome.receiver_dropped),
            final(self)@.sound(),
    {
        let mut actions: Vec<SwarmAction> = Vec::new();
        let mut receiver_dropped = false;
        match event {
            SwarmEvent::ConnectionEstablished { peer_id } => {
                // The orchestrator can trigger an initial sync.
                let _ = self.sync_event.send(SyncEvent::PeerConnected { peer_id });
            },
            SwarmEvent::MdnsDiscovered { peers } => {
                actions = dial_all(peers);
            },
            SwarmEvent::SyncRequestReceived { peer, request, channel } => {
                let inbound = InboundSyncRequest { request, channel, peer };
                let sent = self.sync.send(inbound);
                receiver_dropped = sent.is_err();
            },
            SwarmEvent::SyncResponseReceived { peer, request_id, response } => {
                let _ = self.outbound_block_requests.remove(&request_id);
                let _ = self.sync_event.send(
                    SyncEvent::ResponseReceived { peer_id: peer, response },
                );
            },
            SwarmEvent::SyncOutboundFailure { peer, request_id } => {
                if self.outbound_block_requests.remove(&request_id) {
                    let _ = self.sync_event.send(SyncEvent::RequestFailed { peer_id: peer });
                }
            },
            SwarmEvent::BlockNotifyReceived { peer, notification, ack_channel } => {
                match notification {
                    SyncNotification::NewBlock { block } => {
                        let sent = self.block.send(block);
                        receiver_dropped = sent.is_err();
                    },
                }
                actions.push(SwarmAction::SendAck { peer, ack_channel, ack: BlockNotifyAck });
            },
            _ => {},
        }
        proof {
            use_type_invariant(&self.sync);
            use_type_invariant(&self.block);
            use_type_invariant(&self.broadcast);
            use_type_invariant(&self.sync_event);
            use_type_invariant(&self.sync_cmd);
        }
        Outcome { actions, receiver_dropped }
    }
}

impl<B, C> P2PNode<QueuedBlock<B>, C> {
    /// Returns a cloneable [`BlockBroadcaster`](crate::broadcast::BlockBroadcaster) handle that
    /// sends blocks to the event loop for broadcasting to peers.
    pub fn broadcaster(&self) -> (broadcaster: ChannelBroadcaster<B>)
        ensures
            broadcaster@ == self@.broadcast.tx,
    {
        ChannelBroadcaster::new(self.broadcast.sender())
    }
}

/// The identity that a node shows is the one that it stands for.
proof fn law_identity_shown<Q, C>(node: P2PNode<Q, C>)
    ensures
        node@.peer_id == node.peer_id,
{
}

/// Dials each of `peers`, in their order.
fn dial_all(peers: Vec<(PeerId, Address)>) -> (actions: Vec<SwarmAction>)
    ensures
        actions@ == event_actions(SwarmEvent::MdnsDiscovered { peers }),
{
    let ghost found = peers@;
    let mut actions: Vec<SwarmAction> = Vec::new();
    for (peer_id, address) in iter: peers.into_iter()
        invariant
            iter.seq() == found,
            actions@.len() == iter.index(),
            forall|j: int|
                0 <= j < actions@.len() ==> actions@[j] == (SwarmAction::Dial {
                    peer_id: found[j].0,
                    address: found[j].1,
                }),
    {
        actions.push(SwarmAction::Dial { peer_id, address });
    }
    actions
}

} // verus!
