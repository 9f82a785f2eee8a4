use std::future::Future;
use std::io;
use std::marker::PhantomData;
use std::pin::Pin;
use std::time::Duration;

use futures::future::Either;
use futures::{AsyncRead, AsyncReadExt, AsyncWrite, AsyncWriteExt, StreamExt};
use libp2p::identity::Keypair;
use libp2p::request_response::{
    Behaviour, Codec, Config, Event, Message, OutboundRequestId, ProtocolSupport, ResponseChannel,
};
use libp2p::swarm::SwarmEvent as Libp2pEvent;
use libp2p::{noise, yamux, Multiaddr, PeerId, StreamProtocol, Swarm, Transport};
use tokio::sync::mpsc::error::TryRecvError;

use mbongo_network::address::Address;
use mbongo_network::broadcast::BlockBroadcaster;
use mbongo_network::event::{
    InboundSyncRequest, NodeInput, OutboundSyncRequest, SwarmAction, SwarmEvent, SyncCommand,
    SyncEvent,
};
use mbongo_network::link::{hand_over, Link};
use mbongo_network::node::{
    P2PNode, AGENT_VERSION, IDENTIFY_PROTOCOL_VERSION, IDLE_CONNECTION_TIMEOUT_SECS,
};
use mbongo_network::outlet::Outlet;
use mbongo_network::protocol::{
    Block, BlockHeader, BlockNotifyAck, SyncNotification, SyncRequest, SyncResponse,
};
use mbongo_network::requests::OutboundRequests;

// A wire format that is good enough for two nodes in one process.

trait Wire: Send + 'static {
    fn encode(self) -> Vec<u8>;
    fn decode(bytes: Vec<u8>) -> Self;
}

fn number(bytes: &[u8]) -> u64 {
    u64::from_be_bytes(bytes.try_into().unwrap())
}

impl Wire for SyncRequest {
    fn encode(self) -> Vec<u8> {
        match self {
            SyncRequest::GetHeight => vec![],
            SyncRequest::GetBlocks { start_height, end_height } => {
                [start_height.to_be_bytes(), end_height.to_be_bytes()].concat()
            }
        }
    }
    fn decode(bytes: Vec<u8>) -> Self {
        if bytes.is_empty() {
            SyncRequest::GetHeight
        } else {
            SyncRequest::GetBlocks {
                start_height: number(&bytes[..8]),
                end_height: number(&bytes[8..]),
            }
        }
    }
}

impl Wire for SyncResponse {
    fn encode(self) -> Vec<u8> {
        self.payload
    }
    fn decode(payload: Vec<u8>) -> Self {
        SyncResponse { payload }
    }
}

impl Wire for SyncNotification {
    fn encode(self) -> Vec<u8> {
        let SyncNotification::NewBlock { block } = self;
        [block.header.height.to_be_bytes().to_vec(), block.body].concat()
    }
    fn decode(bytes: Vec<u8>) -> Self {
        let block = Block {
            header: BlockHeader { height: number(&bytes[..8]) },
            body: bytes[8..].to_vec(),
        };
        SyncNotification::NewBlock { block }
    }
}

impl Wire for BlockNotifyAck {
    fn encode(self) -> Vec<u8> {
        vec![]
    }
    fn decode(_: Vec<u8>) -> Self {
        BlockNotifyAck
    }
}

struct WireCodec<Q, S>(PhantomData<fn() -> (Q, S)>);

impl<Q, S> Clone for WireCodec<Q, S> {
    fn clone(&self) -> Self {
        WireCodec(PhantomData)
    }
}

impl<Q, S> Default for WireCodec<Q, S> {
    fn default() -> Self {
        WireCodec(PhantomData)
    }
}

type Pending<'a, T> = Pin<Box<dyn Future<Output = io::Result<T>> + Send + 'a>>;

async fn read<M: Wire, T: AsyncRead + Unpin + Send>(io: &mut T) -> io::Result<M> {
    let mut bytes = Vec::new();
    io.read_to_end(&mut bytes).await?;
    Ok(M::decode(bytes))
}

async fn write<M: Wire, T: AsyncWrite + Unpin + Send>(io: &mut T, message: M) -> io::Result<()> {
    io.write_all(&message.encode()).await?;
    io.close().await
}

impl<Q: Wire, S: Wire> Codec for WireCodec<Q, S> {
    type Protocol = StreamProtocol;
    type Request = Q;
    type Response = S;

    fn read_request<'s, 'p, 'i, 'a, T>(
        &'s mut self,
        _: &'p StreamProtocol,
        io: &'i mut T,
    ) -> Pending<'a, Q>
    where
        T: AsyncRead + Unpin + Send + 'a,
        's: 'a,
        'p: 'a,
        'i: 'a,
        Self: 'a,
    {
        Box::pin(read(io))
    }

    fn read_response<'s, 'p, 'i, 'a, T>(
        &'s mut self,
        _: &'p StreamProtocol,
        io: &'i mut T,
    ) -> Pending<'a, S>
    where
        T: AsyncRead + Unpin + Send + 'a,
        's: 'a,
        'p: 'a,
        'i: 'a,
        Self: 'a,
    {
        Box::pin(read(io))
    }

    fn write_request<'s, 'p, 'i, 'a, T>(
        &'s mut self,
        _: &'p StreamProtocol,
        io: &'i mut T,
        request: Q,
    ) -> Pending<'a, ()>
    where
        T: AsyncWrite + Unpin + Send + 'a,
        's: 'a,
        'p: 'a,
        'i: 'a,
        Self: 'a,
    {
        Box::pin(write(io, request))
    }

    fn write_response<'s, 'p, 'i, 'a, T>(
        &'s mut self,
        _: &'p StreamProtocol,
        io: &'i mut T,
        response: S,
    ) -> Pending<'a, ()>
    where
        T: AsyncWrite + Unpin + Send + 'a,
        's: 'a,
        'p: 'a,
        'i: 'a,
        Self: 'a,
    {
        Box::pin(write(io, response))
    }
}

type WireBehaviour<Q, S> = Behaviour<WireCodec<Q, S>>;

fn behaviour<Q: Wire, S: Wire>() -> WireBehaviour<Q, S> {
    Behaviour::new(
        [(StreamProtocol::new("/test/1"), ProtocolSupport::Full)],
        Config::default(),
    )
}

fn swarm<Q: Wire, S: Wire>() -> Swarm<WireBehaviour<Q, S>> {
    let key = Keypair::generate_ed25519();
    let transport = libp2p::core::transport::MemoryTransport::default()
        .upgrade(libp2p::core::upgrade::Version::V1)
        .authenticate(noise::Config::new(&key).unwrap())
        .multiplex(yamux::Config::default())
        .boxed();
    Swarm::new(
        transport,
        behaviour(),
        key.public().to_peer_id(),
        libp2p::swarm::Config::with_tokio_executor()
            .with_idle_connection_timeout(Duration::from_secs(60)),
    )
}

/// Two connected swarms, and the address of the first.
async fn connected_swarms<Q: Wire, S: Wire>(
) -> (Swarm<WireBehaviour<Q, S>>, Swarm<WireBehaviour<Q, S>>) {
    let mut server = swarm::<Q, S>();
    let mut client = swarm::<Q, S>();
    let any: Multiaddr = "/memory/0".parse().unwrap();
    server.listen_on(any).unwrap();
    let address = loop {
        if let Libp2pEvent::NewListenAddr { address, .. } = server.select_next_some().await {
            break address;
        }
    };
    client.dial(address).unwrap();
    let mut established = 0;
    while established < 2 {
        let both = futures::future::select(server.select_next_some(), client.select_next_some());
        let event = both.await.factor_first().0;
        if matches!(event, Libp2pEvent::ConnectionEstablished { .. }) {
            established += 1;
        }
    }
    (server, client)
}

type Exchange<Q, S> = Event<Q, S>;

/// The next event of the protocol at either side: `Left` at the first, `Right` at the second.
async fn next_exchange<Q: Wire, S: Wire>(
    server: &mut Swarm<WireBehaviour<Q, S>>,
    client: &mut Swarm<WireBehaviour<Q, S>>,
) -> Either<Exchange<Q, S>, Exchange<Q, S>> {
    loop {
        let both = futures::future::select(server.select_next_some(), client.select_next_some());
        match both.await {
            Either::Left((Libp2pEvent::Behaviour(event), _)) => return Either::Left(event),
            Either::Right((Libp2pEvent::Behaviour(event), _)) => return Either::Right(event),
            _ => {}
        }
    }
}

fn block_on<F: Future>(future: F) -> F::Output {
    tokio::runtime::Builder::new_current_thread()
        .enable_all()
        .build()
        .unwrap()
        .block_on(future)
}

/// A response channel that a peer really opened by sending `message`, with what arrived.
fn opened_channel<Q: Wire, S: Wire>(message: Q) -> (PeerId, Q, ResponseChannel<S>) {
    block_on(async {
        let (mut server, mut client) = connected_swarms::<Q, S>().await;
        let target = *server.local_peer_id();
        client.behaviour_mut().send_request(&target, message);
        loop {
            if let Either::Left(Event::Message {
                peer,
                message: Message::Request { request, channel, .. },
            }) = next_exchange(&mut server, &mut client).await
            {
                return (peer, request, channel);
            }
        }
    })
}

fn block(height: u64, body: &[u8]) -> Block {
    Block { header: BlockHeader { height }, body: body.to_vec() }
}

fn request_ids(n: usize) -> Vec<OutboundRequestId> {
    let mut sync: WireBehaviour<SyncRequest, SyncResponse> = behaviour();
    (0..n).map(|_| sync.send_request(&PeerId::random(), SyncRequest::GetHeight)).collect()
}

/// Has the swarm behaviour send `outbound`, and the node record the identifier.
fn perform_request(
    node: &mut P2PNode,
    sync: &mut WireBehaviour<SyncRequest, SyncResponse>,
    outbound: OutboundSyncRequest,
) -> OutboundRequestId {
    let id = sync.send_request(&outbound.peer, outbound.request);
    node.record_sync_request(&outbound.request, id);
    id
}

#[test]
fn identify_protocol_version_pinned() {
    assert_eq!(IDENTIFY_PROTOCOL_VERSION, "/mbongo/0.3.0");
}

#[test]
fn agent_version_and_idle_timeout() {
    assert_eq!(AGENT_VERSION, "mbongo-node/0.1.0");
    assert_eq!(IDLE_CONNECTION_TIMEOUT_SECS, 60);
}

#[test]
fn sync_outbound_failure_is_forwarded_to_orchestrator() {
    let mut sync = behaviour();
    let mut node = P2PNode::new(PeerId::random());
    let mut sync_events = node.take_sync_event_rx().unwrap();
    let peer = PeerId::random();
    let outbound = node.send_get_height(peer);
    let height_request_id = perform_request(&mut node, &mut sync, outbound);

    node.handle_swarm_event(SwarmEvent::SyncOutboundFailure {
        peer,
        request_id: height_request_id,
    });

    assert!(matches!(sync_events.try_recv(), Err(TryRecvError::Empty)));

    let outbound = node.send_get_blocks(peer, 1, 2);
    let request_id = perform_request(&mut node, &mut sync, outbound);

    node.handle_swarm_event(SwarmEvent::SyncOutboundFailure { peer, request_id });

    assert!(matches!(
        sync_events.try_recv().unwrap(),
        SyncEvent::RequestFailed { peer_id } if peer_id == peer
    ));
}

#[test]
fn failure_is_reported_once() {
    let mut sync = behaviour();
    let mut node = P2PNode::new(PeerId::random());
    let mut events = node.take_sync_event_rx().unwrap();
    let peer = PeerId::random();
    let outbound = node.send_get_blocks(peer, 5, 9);
    let request_id = perform_request(&mut node, &mut sync, outbound);
    for _ in 0..3 {
        let outcome =
            node.handle_swarm_event(SwarmEvent::SyncOutboundFailure { peer, request_id });
        assert!(outcome.actions.is_empty());
        assert!(!outcome.receiver_dropped);
    }
    assert!(matches!(events.try_recv(), Ok(SyncEvent::RequestFailed { .. })));
    assert!(matches!(events.try_recv(), Err(TryRecvError::Empty)));
}

#[test]
fn answered_request_cannot_fail() {
    let mut sync = behaviour();
    let mut node = P2PNode::new(PeerId::random());
    let mut events = node.take_sync_event_rx().unwrap();
    let peer = PeerId::random();
    let outbound = node.send_get_blocks(peer, 1, 2);
    let request_id = perform_request(&mut node, &mut sync, outbound);
    let response = SyncResponse { payload: vec![1, 2, 3] };
    node.handle_swarm_event(SwarmEvent::SyncResponseReceived { peer, request_id, response });
    node.handle_swarm_event(SwarmEvent::SyncOutboundFailure { peer, request_id });
    match events.try_recv().unwrap() {
        SyncEvent::ResponseReceived { peer_id, response } => {
            assert_eq!(peer_id, peer);
            assert_eq!(response.payload, vec![1, 2, 3]);
        }
        other => panic!("{other:?}"),
    }
    assert!(matches!(events.try_recv(), Err(TryRecvError::Empty)));
}

#[test]
fn failures_are_told_apart_by_identifier() {
    let mut sync = behaviour();
    let mut node = P2PNode::new(PeerId::random());
    let mut events = node.take_sync_event_rx().unwrap();
    let peers: Vec<PeerId> = (0..4).map(|_| PeerId::random()).collect();
    let mut ids = vec![];
    for peer in &peers {
        let outbound = node.send_get_blocks(*peer, 1, 2);
        ids.push(perform_request(&mut node, &mut sync, outbound));
    }
    for i in [2usize, 0, 3, 2, 1, 0] {
        node.handle_swarm_event(SwarmEvent::SyncOutboundFailure {
            peer: peers[i],
            request_id: ids[i],
        });
    }
    for i in [2usize, 0, 3, 1] {
        assert!(matches!(
            events.try_recv(),
            Ok(SyncEvent::RequestFailed { peer_id }) if peer_id == peers[i]
        ));
    }
    assert!(matches!(events.try_recv(), Err(TryRecvError::Empty)));
}

#[test]
fn block_notify_failure_leaves_block_request_pending() {
    let mut sync = behaviour();
    let mut notify: WireBehaviour<SyncNotification, BlockNotifyAck> = behaviour();
    let mut node = P2PNode::new(PeerId::random());
    let mut events = node.take_sync_event_rx().unwrap();
    let peer = PeerId::random();
    let outbound = node.send_get_blocks(peer, 1, 2);
    let request_id = perform_request(&mut node, &mut sync, outbound);
    let announcement = SyncNotification::NewBlock { block: block(1, b"") };
    let notify_id = notify.send_request(&peer, announcement);
    assert_eq!(notify_id, request_id);
    for event in [
        SwarmEvent::BlockNotifyOutboundFailure { peer, request_id: notify_id },
        SwarmEvent::BlockNotifyAcknowledged { peer, request_id: notify_id },
        SwarmEvent::BlockNotifyInboundFailure { peer },
        SwarmEvent::BlockNotifyAckSent { peer },
    ] {
        assert!(node.handle_swarm_event(event).actions.is_empty());
    }
    assert!(matches!(events.try_recv(), Err(TryRecvError::Empty)));
    node.handle_swarm_event(SwarmEvent::SyncOutboundFailure { peer, request_id });
    assert!(matches!(events.try_recv(), Ok(SyncEvent::RequestFailed { .. })));
}

#[test]
fn connection_is_reported() {
    let mut node = P2PNode::new(PeerId::random());
    let mut events = node.take_sync_event_rx().unwrap();
    let peer_id = PeerId::random();
    let outcome = node.handle_swarm_event(SwarmEvent::ConnectionEstablished { peer_id });
    assert!(outcome.actions.is_empty());
    assert!(matches!(
        events.try_recv(),
        Ok(SyncEvent::PeerConnected { peer_id: peer }) if peer == peer_id
    ));
    assert!(matches!(events.try_recv(), Err(TryRecvError::Empty)));
}

#[test]
fn events_for_a_gone_orchestrator_are_dropped() {
    let mut node = P2PNode::new(PeerId::random());
    drop(node.take_sync_event_rx());
    let peer_id = PeerId::random();
    let outcome = node.handle_swarm_event(SwarmEvent::ConnectionEstablished { peer_id });
    assert!(outcome.actions.is_empty());
    assert!(!outcome.receiver_dropped);
}

#[test]
fn discovered_peers_are_dialed_in_order() {
    let mut node = P2PNode::new(PeerId::random());
    let found: Vec<(PeerId, Vec<u8>)> = (0..3u8).map(|i| (PeerId::random(), vec![i])).collect();
    let listed = || {
        found
            .iter()
            .map(|(peer, bytes)| (*peer, Address { bytes: bytes.clone() }))
            .collect::<Vec<_>>()
    };
    let outcome = node.handle_swarm_event(SwarmEvent::MdnsDiscovered { peers: listed() });
    assert_eq!(outcome.actions.len(), 3);
    for (action, (peer, bytes)) in outcome.actions.iter().zip(&found) {
        match action {
            SwarmAction::Dial { peer_id, address } => {
                assert_eq!(peer_id, peer);
                assert_eq!(&address.bytes, bytes);
            }
            other => panic!("{other:?}"),
        }
    }
    let outcome = node.handle_swarm_event(SwarmEvent::MdnsExpired { peers: listed() });
    assert!(outcome.actions.is_empty());
}

#[test]
fn informational_events_do_nothing() {
    let mut node = P2PNode::new(PeerId::random());
    let mut events = node.take_sync_event_rx().unwrap();
    let mut requests = node.take_sync_rx().unwrap();
    let mut blocks = node.take_block_rx().unwrap();
    let peer = PeerId::random();
    for event in [
        SwarmEvent::NewListenAddr { address: Address { bytes: vec![] } },
        SwarmEvent::ConnectionClosed { peer_id: peer },
        SwarmEvent::IdentifyReceived {
            peer_id: peer,
            protocol_version: "/mbongo/0.1.0".to_string(),
            agent_version: "other/9".to_string(),
        },
        SwarmEvent::Ping { peer },
        SwarmEvent::SyncInboundFailure { peer },
        SwarmEvent::SyncResponseSent { peer },
        SwarmEvent::Other,
    ] {
        let outcome = node.step(NodeInput::Swarm { event });
        assert!(outcome.actions.is_empty());
        assert!(!outcome.receiver_dropped);
    }
    assert!(matches!(events.try_recv(), Err(TryRecvError::Empty)));
    assert!(matches!(requests.try_recv(), Err(TryRecvError::Empty)));
    assert!(matches!(blocks.try_recv(), Err(TryRecvError::Empty)));
}

#[test]
fn inbound_request_is_forwarded() {
    let sent = SyncRequest::GetBlocks { start_height: 3, end_height: 8 };
    let (peer, request, channel) = opened_channel::<SyncRequest, SyncResponse>(sent);
    let mut node = P2PNode::new(PeerId::random());
    let mut requests = node.take_sync_rx().unwrap();
    let outcome =
        node.handle_swarm_event(SwarmEvent::SyncRequestReceived { peer, request, channel });
    assert!(outcome.actions.is_empty());
    assert!(!outcome.receiver_dropped);
    let inbound: InboundSyncRequest = requests.try_recv().unwrap();
    assert_eq!(inbound.peer, peer);
    assert_eq!(inbound.request, sent);
}

#[test]
fn inbound_request_without_receiver_is_noticed() {
    let (peer, request, channel) =
        opened_channel::<SyncRequest, SyncResponse>(SyncRequest::GetHeight);
    let mut node = P2PNode::new(PeerId::random());
    drop(node.take_sync_rx());
    let outcome =
        node.handle_swarm_event(SwarmEvent::SyncRequestReceived { peer, request, channel });
    assert!(outcome.actions.is_empty());
    assert!(outcome.receiver_dropped);
}

#[test]
fn announced_block_is_forwarded_and_acknowledged() {
    let sent = SyncNotification::NewBlock { block: block(42, b"txs") };
    let (peer, notification, ack_channel) =
        opened_channel::<SyncNotification, BlockNotifyAck>(sent);
    let mut node = P2PNode::new(PeerId::random());
    let mut blocks = node.take_block_rx().unwrap();
    let mut broadcasts = node.take_broadcast_rx().unwrap();
    let outcome = node.handle_swarm_event(SwarmEvent::BlockNotifyReceived {
        peer,
        notification,
        ack_channel,
    });
    assert!(!outcome.receiver_dropped);
    assert_eq!(outcome.actions.len(), 1);
    assert!(matches!(
        &outcome.actions[0],
        SwarmAction::SendAck { peer: to, ack: BlockNotifyAck, .. } if *to == peer
    ));
    assert_eq!(blocks.try_recv().unwrap(), block(42, b"txs"));
    assert!(matches!(broadcasts.try_recv(), Err(TryRecvError::Empty)));
}

#[test]
fn announced_block_without_receiver_is_still_acknowledged() {
    let sent = SyncNotification::NewBlock { block: block(42, b"") };
    let (peer, notification, ack_channel) =
        opened_channel::<SyncNotification, BlockNotifyAck>(sent);
    let mut node = P2PNode::new(PeerId::random());
    drop(node.take_block_rx());
    let outcome = node.handle_swarm_event(SwarmEvent::BlockNotifyReceived {
        peer,
        notification,
        ack_channel,
    });
    assert!(outcome.receiver_dropped);
    assert_eq!(outcome.actions.len(), 1);
    assert!(matches!(&outcome.actions[0], SwarmAction::SendAck { .. }));
}

#[test]
fn broadcast_announces_to_every_connected_peer() {
    let mut node = P2PNode::new(PeerId::random());
    let connected: Vec<PeerId> = (0..3).map(|_| PeerId::random()).collect();
    let outcome = node.step(NodeInput::Broadcast {
        block: block(7, b"body"),
        connected: connected.clone(),
    });
    assert_eq!(outcome.actions.len(), 3);
    for (action, target) in outcome.actions.iter().zip(&connected) {
        match action {
            SwarmAction::SendNotification { peer, notification } => {
                assert_eq!(peer, target);
                let expected = SyncNotification::NewBlock { block: block(7, b"body") };
                assert_eq!(notification, &expected);
            }
            other => panic!("{other:?}"),
        }
    }
}

#[test]
fn broadcast_without_peers_does_nothing() {
    let node = P2PNode::new(PeerId::random());
    assert!(node.broadcast_block(&block(7, b"body"), &vec![]).is_empty());
}

#[test]
fn broadcasters_reach_the_event_loop() {
    let mut node = P2PNode::new(PeerId::random());
    let mut broadcasts = node.take_broadcast_rx().unwrap();
    let mut blocks = node.take_block_rx().unwrap();
    let broadcaster = node.broadcaster();
    let other = broadcaster.clone();
    broadcaster.broadcast(block(1, b"a"));
    other.broadcast(block(2, b"b"));
    node.broadcaster().broadcast(block(3, b"c"));
    assert_eq!(broadcasts.try_recv().unwrap().block, block(1, b"a"));
    assert_eq!(broadcasts.try_recv().unwrap().block, block(2, b"b"));
    assert_eq!(broadcasts.try_recv().unwrap().block, block(3, b"c"));
    assert!(matches!(blocks.try_recv(), Err(TryRecvError::Empty)));
    drop(broadcasts);
    broadcaster.broadcast(block(4, b"d"));
}

#[test]
fn offered_block_comes_back_if_the_event_loop_is_gone() {
    let mut node = P2PNode::new(PeerId::random());
    let broadcaster = node.broadcaster();
    assert_eq!(broadcaster.offer(block(1, b"a")), Ok(()));
    let mut broadcasts = node.take_broadcast_rx().unwrap();
    assert_eq!(broadcasts.try_recv().unwrap().block, block(1, b"a"));
    drop(broadcasts);
    assert_eq!(broadcaster.offer(block(2, b"b")), Err(block(2, b"b")));
}

#[test]
fn receiver_yields_what_came_before_it_was_taken() {
    let mut node = P2PNode::new(PeerId::random());
    let peers: Vec<PeerId> = (0..3).map(|_| PeerId::random()).collect();
    for peer_id in &peers[..2] {
        node.handle_swarm_event(SwarmEvent::ConnectionEstablished { peer_id: *peer_id });
    }
    let mut events = node.take_sync_event_rx().unwrap();
    node.handle_swarm_event(SwarmEvent::ConnectionEstablished { peer_id: peers[2] });
    for expected in &peers {
        assert!(matches!(
            events.try_recv(),
            Ok(SyncEvent::PeerConnected { peer_id }) if peer_id == *expected
        ));
    }
    assert!(matches!(events.try_recv(), Err(TryRecvError::Empty)));
}

#[test]
fn link_joins_two_ends() {
    let mut link: Link<u32> = Link::new();
    assert_eq!(hand_over(&link.sender(), 1), Ok(()));
    let mut rx = link.take_receiver().unwrap();
    assert!(link.take_receiver().is_none());
    assert_eq!(hand_over(&link.sender(), 2), Ok(()));
    assert_eq!(rx.try_recv().unwrap(), 1);
    assert_eq!(rx.try_recv().unwrap(), 2);
    drop(rx);
    assert_eq!(hand_over(&link.sender(), 3), Err(3));
}

#[test]
fn outlet_joins_two_ends() {
    let mut outlet: Outlet<u32> = Outlet::new();
    assert_eq!(outlet.send(1), Ok(()));
    let mut rx = outlet.take_receiver().unwrap();
    assert!(outlet.take_receiver().is_none());
    assert_eq!(outlet.send(2), Ok(()));
    assert_eq!(rx.try_recv().unwrap(), 1);
    assert_eq!(rx.try_recv().unwrap(), 2);
    assert!(matches!(rx.try_recv(), Err(TryRecvError::Empty)));
    drop(rx);
    assert_eq!(outlet.send(3), Err(3));
}

#[test]
fn receivers_are_handed_out_once() {
    let mut node = P2PNode::new(PeerId::random());
    assert!(node.take_sync_rx().is_some());
    assert!(node.take_sync_rx().is_none());
    assert!(node.take_block_rx().is_some());
    assert!(node.take_block_rx().is_none());
    assert!(node.take_sync_event_rx().is_some());
    assert!(node.take_sync_event_rx().is_none());
    assert!(node.take_broadcast_rx().is_some());
    assert!(node.take_broadcast_rx().is_none());
    assert!(node.take_sync_cmd_rx().is_some());
    assert!(node.take_sync_cmd_rx().is_none());
    node.step(NodeInput::Swarm { event: SwarmEvent::Other });
    assert!(node.take_sync_rx().is_none());
}

#[test]
fn node_keeps_its_identity() {
    let peer_id = PeerId::random();
    let mut node = P2PNode::new(peer_id);
    node.step(NodeInput::Swarm { event: SwarmEvent::Other });
    assert_eq!(node.peer_id, peer_id);
}

#[test]
fn commands_become_requests() {
    let mut node = P2PNode::new(PeerId::random());
    let mut commands = node.take_sync_cmd_rx().unwrap();
    let commander = node.sync_commander();
    let peer_id = PeerId::random();
    commander.send(SyncCommand::GetHeight { peer_id }).unwrap();
    commander
        .clone()
        .send(SyncCommand::GetBlocks { peer_id, start_height: 10, end_height: 20 })
        .unwrap();
    let mut requests = vec![];
    while let Ok(command) = commands.try_recv() {
        let outcome = node.step(NodeInput::Command { command });
        assert!(!outcome.receiver_dropped);
        assert_eq!(outcome.actions.len(), 1);
        match &outcome.actions[0] {
            SwarmAction::SendSyncRequest { outbound } => {
                assert_eq!(outbound.peer, peer_id);
                requests.push(outbound.request);
            }
            other => panic!("{other:?}"),
        }
    }
    assert_eq!(
        requests,
        vec![
            SyncRequest::GetHeight,
            SyncRequest::GetBlocks { start_height: 10, end_height: 20 },
        ]
    );
}

#[test]
fn response_travels_to_the_asking_orchestrator() {
    block_on(async {
        let (mut server, mut client) = connected_swarms::<SyncRequest, SyncResponse>().await;
        let server_id = *server.local_peer_id();
        let mut answering = P2PNode::new(server_id);
        let mut asking = P2PNode::new(*client.local_peer_id());
        let mut inbound = answering.take_sync_rx().unwrap();
        let mut commands = answering.take_sync_cmd_rx().unwrap();
        let commander = answering.sync_commander();
        let mut events = asking.take_sync_event_rx().unwrap();

        let outbound = asking.send_get_blocks(server_id, 1, 4);
        let id = perform_request(&mut asking, client.behaviour_mut(), outbound);

        loop {
            match next_exchange(&mut server, &mut client).await {
                Either::Left(Event::Message {
                    peer,
                    message: Message::Request { request, channel, .. },
                }) => {
                    let event = SwarmEvent::SyncRequestReceived { peer, request, channel };
                    answering.step(NodeInput::Swarm { event });
                    let inbound = inbound.try_recv().unwrap();
                    let range = SyncRequest::GetBlocks { start_height: 1, end_height: 4 };
                    assert_eq!(inbound.request, range);
                    let response = SyncResponse { payload: b"three blocks".to_vec() };
                    let channel = inbound.channel;
                    commander.send(SyncCommand::SendResponse { channel, response }).unwrap();
                    let command = commands.try_recv().unwrap();
                    for action in answering.step(NodeInput::Command { command }).actions {
                        let SwarmAction::SendSyncResponse { channel, response } = action else {
                            panic!("{action:?}")
                        };
                        server.behaviour_mut().send_response(channel, response).unwrap();
                    }
                }
                Either::Right(Event::Message {
                    peer,
                    message: Message::Response { request_id, response },
                }) => {
                    let event = SwarmEvent::SyncResponseReceived { peer, request_id, response };
                    asking.step(NodeInput::Swarm { event });
                    break;
                }
                _ => {}
            }
        }
        match events.try_recv().unwrap() {
            SyncEvent::ResponseReceived { peer_id, response } => {
                assert_eq!(peer_id, server_id);
                assert_eq!(response.payload, b"three blocks");
            }
            other => panic!("{other:?}"),
        }
        asking.step(NodeInput::Swarm {
            event: SwarmEvent::SyncOutboundFailure { peer: server_id, request_id: id },
        });
        assert!(matches!(events.try_recv(), Err(TryRecvError::Empty)));
    });
}

#[test]
fn outbound_requests_are_a_set() {
    let ids = request_ids(4);
    let mut requests = OutboundRequests::new();
    assert!(!requests.remove(&ids[0]));
    for id in [ids[0], ids[1], ids[2], ids[1]] {
        requests.insert(id);
    }
    assert!(!requests.remove(&ids[3]));
    assert!(requests.remove(&ids[1]));
    assert!(!requests.remove(&ids[1]));
    assert!(requests.remove(&ids[0]));
    assert!(requests.remove(&ids[2]));
    assert!(!requests.remove(&ids[2]));
}

#[test]
fn cloned_block_is_equal() {
    let first = block(9, b"abc");
    assert_eq!(first.clone(), block(9, b"abc"));
}
