//! Laws of the single operations: what each event, command, broadcast and send comes to, field by
//! field.

use libp2p::request_response::{OutboundRequestId, ResponseChannel};
use libp2p::PeerId;
use tokio::sync::mpsc::{unbounded_channel, UnboundedReceiver, UnboundedSender};
use vstd::prelude::*;

use crate::address::Address;
use crate::broadcast::{BlockBroadcaster, ChannelBroadcaster, QueuedBlock};
use crate::event::{
    InboundSyncRequest, NodeInput, OutboundSyncRequest, SwarmAction, SwarmEvent, SyncCommand,
    SyncEvent,
};
use crate::link::LinkModel;
use crate::node::NodeModel;
use crate::outlet::OutletModel;
use crate::protocol::{Block, BlockNotifyAck, SyncNotification, SyncRequest, SyncResponse};

verus! {

// What an event changes in the node.

/// A connection gives the sync orchestrator the event that names the peer, and changes nothing
/// else.
pub proof fn law_connection_changes<Q, C>(node: NodeModel<Q, C>, peer_id: PeerId)
    ensures
        node.after_event(SwarmEvent::ConnectionEstablished { peer_id }) == (NodeModel {
            sync_event: OutletModel {
                tx: node.sync_event.tx,
                rx: node.sync_event.rx,
                handed: node.sync_event.handed.push(SyncEvent::PeerConnected { peer_id }),
            },
            peer_id: node.peer_id,
            pending: node.pending,
            sync: node.sync,
            block: node.block,
            broadcast: node.broadcast,
            sync_cmd: node.sync_cmd,
        }),
{
}

/// An inbound sync request goes to the node binary as it came: the same request, channel and
/// peer. Nothing else changes.
pub proof fn law_inbound_request_changes<Q, C>(
    node: NodeModel<Q, C>,
    peer: PeerId,
    request: SyncRequest,
    channel: ResponseChannel<SyncResponse>,
)
    ensures
        node.after_event(SwarmEvent::SyncRequestReceived { peer, request, channel }) == (
        NodeModel {
            sync: OutletModel {
                tx: node.sync.tx,
                rx: node.sync.rx,
                handed: node.sync.handed.push(InboundSyncRequest { request, channel, peer }),
            },
            peer_id: node.peer_id,
            pending: node.pending,
            block: node.block,
            broadcast: node.broadcast,
            sync_event: node.sync_event,
            sync_cmd: node.sync_cmd,
        }),
{
}

/// A response takes just its own request off the pending ones and goes to the sync orchestrator as
/// it came, with the peer that sent it. Nothing else changes.
pub proof fn law_response_changes<Q, C>(
    node: NodeModel<Q, C>,
    peer: PeerId,
    request_id: OutboundRequestId,
    response: SyncResponse,
)
    ensures
        ({
            let later = node.after_event(
                SwarmEvent::SyncResponseReceived { peer, request_id, response },
            );
            &&& forall|id: OutboundRequestId|
                #[trigger] later.pending.contains(id) == (id != request_id
                    && node.pending.contains(id))
            &&& later.sync_event.tx == node.sync_event.tx
            &&& later.sync_event.rx == node.sync_event.rx
            &&& later.sync_event.handed == node.sync_event.handed.push(
                SyncEvent::ResponseReceived { peer_id: peer, response },
            )
            &&& later.peer_id == node.peer_id
            &&& later.sync == node.sync
            &&& later.block == node.block
            &&& later.broadcast == node.broadcast
            &&& later.sync_cmd == node.sync_cmd
        }),
{
}

/// A failed sync request is taken off the pending ones and reported to the sync orchestrator, with
/// the peer that it was meant for, just if it was pending. Nothing else changes.
pub proof fn law_failure_changes<Q, C>(
    node: NodeModel<Q, C>,
    peer: PeerId,
    request_id: OutboundRequestId,
)
    ensures
        ({
            let later = node.after_event(SwarmEvent::SyncOutboundFailure { peer, request_id });
            &&& forall|id: OutboundRequestId|
                #[trigger] later.pending.contains(id) == (id != request_id
                    && node.pending.contains(id))
            &&& later.sync_event.tx == node.sync_event.tx
            &&& later.sync_event.rx == node.sync_event.rx
            &&& node.pending.contains(request_id) ==> later.sync_event.handed
                == node.sync_event.handed.push(SyncEvent::RequestFailed { peer_id: peer })
            &&& !node.pending.contains(request_id) ==> later.sync_event.handed
                == node.sync_event.handed
            &&& later.peer_id == node.peer_id
            &&& later.sync == node.sync
            &&& later.block == node.block
            &&& later.broadcast == node.broadcast
            &&& later.sync_cmd == node.sync_cmd
        }),
{
}

/// An announced block goes to the node binary as it came. Nothing else changes.
pub proof fn law_announcement_changes<Q, C>(
    node: NodeModel<Q, C>,
    peer: PeerId,
    block: Block,
    ack_channel: ResponseChannel<BlockNotifyAck>,
)
    ensures
        ({
            let notification = SyncNotification::NewBlock { block };
            node.after_event(
                SwarmEvent::BlockNotifyReceived { peer, notification, ack_channel },
            )
        }) == (NodeModel {
            block: OutletModel {
                tx: node.block.tx,
                rx: node.block.rx,
                handed: node.block.handed.push(block),
            },
            peer_id: node.peer_id,
            pending: node.pending,
            sync: node.sync,
            broadcast: node.broadcast,
            sync_event: node.sync_event,
            sync_cmd: node.sync_cmd,
        }),
{
}

/// No other event changes anything.
pub proof fn law_other_events_change_nothing<Q, C>(node: NodeModel<Q, C>, event: SwarmEvent)
    requires
        event !is ConnectionEstablished,
        event !is SyncRequestReceived,
        event !is SyncResponseReceived,
        event !is SyncOutboundFailure,
        event !is BlockNotifyReceived,
    ensures
        node.after_event(event) == node,
{
}

/// One turn of the event loop changes what the event that it takes in changes; a broadcast or a
/// command changes nothing.
pub proof fn law_inputs_change_what_events_change<Q, C>(
    node: NodeModel<Q, C>,
    event: SwarmEvent,
    command: SyncCommand,
    block: Block,
    connected: Vec<PeerId>,
)
    ensures
        node.after_input(NodeInput::Swarm { event }) == node.after_event(event),
        node.after_input(NodeInput::Command { command }) == node,
        node.after_input(NodeInput::Broadcast { block, connected }) == node,
{
}

/// Sending a request for blocks makes just that request pending, whatever range it asks for;
/// sending a request for the height changes nothing.
pub proof fn law_sending_changes<Q, C>(
    node: NodeModel<Q, C>,
    start_height: u64,
    end_height: u64,
    request_id: OutboundRequestId,
)
    ensures
        ({
            let request = SyncRequest::GetBlocks { start_height, end_height };
            let later = node.after_sent(request, request_id);
            &&& forall|id: OutboundRequestId|
                #[trigger] later.pending.contains(id) == (id == request_id
                    || node.pending.contains(id))
            &&& later.peer_id == node.peer_id
            &&& later.sync == node.sync
            &&& later.block == node.block
            &&& later.broadcast == node.broadcast
            &&& later.sync_event == node.sync_event
            &&& later.sync_cmd == node.sync_cmd
        }),
        node.after_sent(SyncRequest::GetHeight, request_id) == node,
{
}

// What the swarm is told to do.

/// An announcement is answered by one action and no other: the acknowledgement, on the channel of
/// the announcement.
pub proof fn law_announcement_answered_by_ack(
    actions: Seq<SwarmAction>,
    peer: PeerId,
    notification: SyncNotification,
    ack_channel: ResponseChannel<BlockNotifyAck>,
)
    requires
        ({
            let event = SwarmEvent::BlockNotifyReceived { peer, notification, ack_channel };
            ||| crate::node::answers(actions, NodeInput::Swarm { event })
            ||| actions == crate::node::event_actions(event)
        }),
    ensures
        actions.len() == 1,
        actions[0] == (SwarmAction::SendAck { peer, ack_channel, ack: BlockNotifyAck }),
{
}

/// A discovery is answered by dialing every peer found, at the address found, in that order, and
/// by nothing else.
pub proof fn law_discovery_answered_by_dialing(
    actions: Seq<SwarmAction>,
    peers: Vec<(PeerId, Address)>,
)
    requires
        ({
            let event = SwarmEvent::MdnsDiscovered { peers };
            ||| crate::node::answers(actions, NodeInput::Swarm { event })
            ||| actions == crate::node::event_actions(event)
        }),
    ensures
        actions.len() == peers@.len(),
        forall|i: int|
            0 <= i < peers@.len() ==> #[trigger] actions[i] == (SwarmAction::Dial {
                peer_id: peers@[i].0,
                address: peers@[i].1,
            }),
{
}

/// No other event has the swarm do anything.
pub proof fn law_other_events_not_answered(actions: Seq<SwarmAction>, event: SwarmEvent)
    requires
        event !is BlockNotifyReceived,
        event !is MdnsDiscovered,
        crate::node::answers(actions, NodeInput::Swarm { event }) || actions
            == crate::node::event_actions(event),
    ensures
        actions.len() == 0,
{
}

/// A command for blocks is answered by one action and no other: the request to that peer for just
/// that range.
pub proof fn law_block_command_answered_by_request(
    actions: Seq<SwarmAction>,
    peer_id: PeerId,
    start_height: u64,
    end_height: u64,
)
    requires
        ({
            let command = SyncCommand::GetBlocks { peer_id, start_height, end_height };
            ||| crate::node::answers(actions, NodeInput::Command { command })
            ||| actions == seq![crate::node::command_action(command)]
        }),
    ensures
        actions.len() == 1,
        actions[0] == (SwarmAction::SendSyncRequest {
            outbound: OutboundSyncRequest {
                peer: peer_id,
                request: SyncRequest::GetBlocks { start_height, end_height },
            },
        }),
{
}

/// A command for the height is answered by one action and no other: the request to that peer.
pub proof fn law_height_command_answered_by_request(actions: Seq<SwarmAction>, peer_id: PeerId)
    requires
        ({
            let command = SyncCommand::GetHeight { peer_id };
            ||| crate::node::answers(actions, NodeInput::Command { command })
            ||| actions == seq![crate::node::command_action(command)]
        }),
    ensures
        actions.len() == 1,
        actions[0] == (SwarmAction::SendSyncRequest {
            outbound: OutboundSyncRequest { peer: peer_id, request: SyncRequest::GetHeight },
        }),
{
}

/// A command to respond is answered by one action and no other: that response on that channel.
pub proof fn law_response_command_answered_by_response(
    actions: Seq<SwarmAction>,
    channel: ResponseChannel<SyncResponse>,
    response: SyncResponse,
)
    requires
        ({
            let command = SyncCommand::SendResponse { channel, response };
            ||| crate::node::answers(actions, NodeInput::Command { command })
            ||| actions == seq![crate::node::command_action(command)]
        }),
    ensures
        actions.len() == 1,
        actions[0] == (SwarmAction::SendSyncResponse { channel, response }),
{
}

/// A broadcast is answered by one announcement to each connected peer, in their order, of the block
/// itself: the same height and the same body. There is no other action.
pub proof fn law_broadcast_answered_by_announcing_the_block(
    actions: Seq<SwarmAction>,
    block: Block,
    connected: Vec<PeerId>,
)
    requires
        crate::node::answers(actions, NodeInput::Broadcast { block, connected })
            || crate::node::announces_to_all(actions, connected@, block@),
    ensures
        actions.len() == connected@.len(),
        forall|i: int|
            0 <= i < connected@.len() ==> (#[trigger] actions[i] matches
                SwarmAction::SendNotification {
                peer,
                notification: SyncNotification::NewBlock { block: sent },
            } && peer == connected@[i] && sent.header.height == block.header.height
                && sent.body@ == block.body@),
{
    assert forall|i: int| 0 <= i < connected@.len() implies (#[trigger] actions[i] matches
        SwarmAction::SendNotification {
        peer,
        notification: SyncNotification::NewBlock { block: sent },
    } && peer == connected@[i] && sent.header.height == block.header.height && sent.body@
        == block.body@) by {
        assert(crate::node::announces(actions[i], connected@[i], block@));
    }
}

// What is handed to the channels.

/// The event that a connection brings is handed to the sender of the orchestrator's channel, and
/// no refusal is noted.
pub proof fn law_connection_delivered<Q, C>(
    node: NodeModel<Q, C>,
    peer_id: PeerId,
    receiver_dropped: bool,
)
    requires
        crate::node::delivers(
            node,
            SwarmEvent::ConnectionEstablished { peer_id },
            receiver_dropped,
        ),
    ensures
        exists|sent: Result<(), SyncEvent>|
            crate::link::handed_over(
                node.sync_event.tx,
                SyncEvent::PeerConnected { peer_id },
                sent,
            ),
        !receiver_dropped,
{
}

/// An inbound request is handed to the sender of its channel, and a refusal is noted just if it was
/// refused.
pub proof fn law_inbound_request_delivered<Q, C>(
    node: NodeModel<Q, C>,
    peer: PeerId,
    request: SyncRequest,
    channel: ResponseChannel<SyncResponse>,
    receiver_dropped: bool,
)
    requires
        crate::node::delivers(
            node,
            SwarmEvent::SyncRequestReceived { peer, request, channel },
            receiver_dropped,
        ),
    ensures
        exists|sent: Result<(), InboundSyncRequest>|
            #[trigger] crate::link::handed_over(
                node.sync.tx,
                InboundSyncRequest { request, channel, peer },
                sent,
            ) && receiver_dropped == (sent is Err),
{
}

/// The event that a response brings is handed to the sender of the orchestrator's channel, and no
/// refusal is noted.
pub proof fn law_response_delivered<Q, C>(
    node: NodeModel<Q, C>,
    peer: PeerId,
    request_id: OutboundRequestId,
    response: SyncResponse,
    receiver_dropped: bool,
)
    requires
        crate::node::delivers(
            node,
            SwarmEvent::SyncResponseReceived { peer, request_id, response },
            receiver_dropped,
        ),
    ensures
        exists|sent: Result<(), SyncEvent>|
            crate::link::handed_over(
                node.sync_event.tx,
                SyncEvent::ResponseReceived { peer_id: peer, response },
                sent,
            ),
        !receiver_dropped,
{
}

/// The event that the failure of a pending request brings is handed to the sender of the
/// orchestrator's channel, and no refusal is noted.
pub proof fn law_failure_delivered<Q, C>(
    node: NodeModel<Q, C>,
    peer: PeerId,
    request_id: OutboundRequestId,
    receiver_dropped: bool,
)
    requires
        crate::node::delivers(
            node,
            SwarmEvent::SyncOutboundFailure { peer, request_id },
            receiver_dropped,
        ),
    ensures
        node.pending.contains(request_id) ==> exists|sent: Result<(), SyncEvent>|
            crate::link::handed_over(
                node.sync_event.tx,
                SyncEvent::RequestFailed { peer_id: peer },
                sent,
            ),
        !receiver_dropped,
{
}

/// An announced block is handed to the sender of its channel, and a refusal is noted just if it was
/// refused.
pub proof fn law_announcement_delivered<Q, C>(
    node: NodeModel<Q, C>,
    peer: PeerId,
    block: Block,
    ack_channel: ResponseChannel<BlockNotifyAck>,
    receiver_dropped: bool,
)
    requires
        ({
            let notification = SyncNotification::NewBlock { block };
            crate::node::delivers(
                node,
                SwarmEvent::BlockNotifyReceived { peer, notification, ack_channel },
                receiver_dropped,
            )
        }),
    ensures
        exists|sent: Result<(), Block>|
            #[trigger] crate::link::handed_over(node.block.tx, block, sent) && receiver_dropped
                == (sent is Err),
{
}

/// With any other event no refusal is noted.
pub proof fn law_other_events_note_no_refusal<Q, C>(
    node: NodeModel<Q, C>,
    event: SwarmEvent,
    receiver_dropped: bool,
)
    requires
        event !is SyncRequestReceived,
        event !is BlockNotifyReceived,
        crate::node::delivers(node, event, receiver_dropped),
    ensures
        !receiver_dropped,
{
}

/// A block that is offered is handed to the sender, inside the message for the event loop and
/// unchanged. It comes back just if that message was refused.
pub proof fn law_offer_hands_the_block_over<B>(
    tx: UnboundedSender<QueuedBlock<B>>,
    block: B,
    outcome: Result<(), B>,
)
    requires
        crate::broadcast::offered(tx, block, outcome),
    ensures
        exists|sent: Result<(), QueuedBlock<B>>|
            #[trigger] crate::link::handed_over(tx, QueuedBlock { block }, sent) && (sent is Err)
                == (outcome is Err),
        outcome matches Err(returned) ==> returned == block,
{
}

/// A broadcaster takes any block, and one call hands that block to the event loop. This holds of
/// blocks that cannot be copied too, so the block is handed over once.
pub proof fn law_any_block_is_broadcast<B: Send>(broadcaster: ChannelBroadcaster<B>, block: B)
    ensures
        call_requires(
            <ChannelBroadcaster<B> as BlockBroadcaster<B>>::broadcast,
            (&broadcaster, block),
        ),
        call_ensures(
            <ChannelBroadcaster<B> as BlockBroadcaster<B>>::broadcast,
            (&broadcaster, block),
            (),
        ) ==> exists|sent: Result<(), QueuedBlock<B>>|
            crate::link::handed_over(broadcaster@, QueuedBlock { block }, sent),
{
}

/// What was handed over had an outcome, and what had an outcome was handed over.
pub proof fn law_handed_over_has_an_outcome<T>(
    tx: UnboundedSender<T>,
    message: T,
    sent: Result<(), T>,
)
    ensures
        crate::link::handed_over(tx, message, sent) ==> crate::link::was_handed_over(tx, message),
        crate::link::was_handed_over(tx, message) ==> exists|outcome: Result<(), T>|
            crate::link::handed_over(tx, message, outcome),
{
}

// What channels and nodes are made of.

/// A new link has both ends that one call for a channel gave, and giving one away leaves the other.
pub proof fn law_links<T>(link: LinkModel<T>)
    ensures
        link.fresh() ==> (link.rx matches Some(rx) && call_ensures(
            unbounded_channel::<T>,
            (),
            (link.tx, rx),
        )),
        link.joined() ==> (link.rx matches Some(rx) ==> call_ensures(
            unbounded_channel::<T>,
            (),
            (link.tx, rx),
        )),
        link.taken() == (LinkModel { tx: link.tx, rx: None }),
{
}

/// A new outlet has both ends that one call for a channel gave, and nothing on record; giving the
/// receiving end away leaves the rest; and a message that is sent is added at the end of the
/// record.
pub proof fn law_outlets<T>(outlet: OutletModel<T>, message: T)
    ensures
        outlet.fresh() ==> (outlet.rx matches Some(rx) && call_ensures(
            unbounded_channel::<T>,
            (),
            (outlet.tx, rx),
        )),
        outlet.fresh() ==> outlet.handed.len() == 0,
        outlet.joined() ==> (outlet.rx matches Some(rx) ==> call_ensures(
            unbounded_channel::<T>,
            (),
            (outlet.tx, rx),
        )),
        outlet.taken() == (OutletModel { tx: outlet.tx, rx: None, handed: outlet.handed }),
        outlet.hand(message) == (OutletModel {
            tx: outlet.tx,
            rx: outlet.rx,
            handed: outlet.handed.push(message),
        }),
{
}

/// Every message on the record of an outlet was handed to its sending end.
pub proof fn law_recorded_messages_were_handed_over<T>(outlet: OutletModel<T>, i: int)
    requires
        outlet.delivered(),
        0 <= i < outlet.handed.len(),
    ensures
        exists|sent: Result<(), T>|
            crate::link::handed_over(outlet.tx, outlet.handed[i], sent),
{
    assert(crate::link::was_handed_over(outlet.tx, outlet.handed[i]));
}

/// Two ends are of one channel just if one call for a channel gave them both.
pub proof fn law_one_channel<T>(tx: UnboundedSender<T>, rx: UnboundedReceiver<T>)
    ensures
        crate::link::one_channel(tx, rx) == call_ensures(unbounded_channel::<T>, (), (tx, rx)),
{
}

/// In a new node no request is pending, nothing was sent, and every receiver can be taken and is of
/// one channel with its sender.
pub proof fn law_new_node<Q, C>(node: NodeModel<Q, C>)
    requires
        node.fresh(),
    ensures
        forall|id: OutboundRequestId| !node.pending.contains(id),
        node.sync.handed.len() == 0,
        node.block.handed.len() == 0,
        node.sync_event.handed.len() == 0,
        node.sync.rx matches Some(rx) && crate::link::one_channel(node.sync.tx, rx),
        node.block.rx matches Some(rx) && crate::link::one_channel(node.block.tx, rx),
        node.sync_event.rx matches Some(rx) && crate::link::one_channel(node.sync_event.tx, rx),
        node.broadcast.rx matches Some(rx) && crate::link::one_channel(node.broadcast.tx, rx),
        node.sync_cmd.rx matches Some(rx) && crate::link::one_channel(node.sync_cmd.tx, rx),
{
}

/// In a sound node every receiver that is there is of one channel with its sender, and every
/// message on record was handed to its sender.
pub proof fn law_sound_node<Q, C>(node: NodeModel<Q, C>)
    requires
        node.sound(),
    ensures
        node.sync.rx matches Some(rx) ==> crate::link::one_channel(node.sync.tx, rx),
        node.block.rx matches Some(rx) ==> crate::link::one_channel(node.block.tx, rx),
        node.sync_event.rx matches Some(rx) ==> crate::link::one_channel(node.sync_event.tx, rx),
        node.broadcast.rx matches Some(rx) ==> crate::link::one_channel(node.broadcast.tx, rx),
        node.sync_cmd.rx matches Some(rx) ==> crate::link::one_channel(node.sync_cmd.tx, rx),
        forall|i: int|
            0 <= i < node.sync.handed.len() ==> crate::link::was_handed_over(
                node.sync.tx,
                #[trigger] node.sync.handed[i],
            ),
        forall|i: int|
            0 <= i < node.block.handed.len() ==> crate::link::was_handed_over(
                node.block.tx,
                #[trigger] node.block.handed[i],
            ),
        forall|i: int|
            0 <= i < node.sync_event.handed.len() ==> crate::link::was_handed_over(
                node.sync_event.tx,
                #[trigger] node.sync_event.handed[i],
            ),
{
}

/// What a block and an address stand for is all that they hold.
pub proof fn law_views_hold_everything(block: Block, address: Address)
    ensures
        block@.height == block.header.height,
        block@.body == block.body@,
        address@ == address.bytes@,
{
}

// What addresses look like.

/// The number that `text` denotes, read as decimal digits.
pub open spec fn number_read(text: Seq<char>) -> int
    decreases text.len(),
{
    if text.len() == 0 {
        0
    } else {
        number_read(text.drop_last()) * 10 + (text.last() as int - '0' as int)
    }
}

/// A number in decimal notation consists of digits, reads as that number, and starts with no zero
/// unless it is zero.
pub proof fn law_decimal_reads_back(number: nat)
    ensures
        number_read(crate::address::decimal(number)) == number,
        crate::address::decimal(number).len() > 0,
        forall|i: int|
            0 <= i < crate::address::decimal(number).len() ==> '0' <= #[trigger]
                crate::address::decimal(number)[i] <= '9',
        number > 0 ==> crate::address::decimal(number)[0] != '0',
    decreases number,
{
    reveal_strlit("0123456789");
    let digit = "0123456789"@[(number % 10) as int];
    assert(digit as int - '0' as int == number % 10);
    let text = crate::address::decimal(number);
    if number < 10 {
        assert(text.drop_last() =~= Seq::<char>::empty());
        assert(number_read(text.drop_last()) == 0);
    } else {
        law_decimal_reads_back(number / 10);
        assert(text.drop_last() =~= crate::address::decimal(number / 10));
    }
}

/// The node listens on all interfaces, on the port that it is told: so say both the text and the
/// binary form of the address.
pub proof fn law_listen_address(port: u16)
    ensures
        crate::address::listen_text(port).take(17) == "/ip4/0.0.0.0/tcp/"@,
        number_read(crate::address::listen_text(port).skip(17)) == port,
        crate::address::listen_bytes(port).len() == 8,
        crate::address::listen_bytes(port).take(6) == seq![4u8, 0u8, 0u8, 0u8, 0u8, 6u8],
        crate::address::listen_bytes(port)[6] * 256 + crate::address::listen_bytes(port)[7]
            == port,
{
    reveal_strlit("/ip4/0.0.0.0/tcp/");
    law_decimal_reads_back(port as nat);
    assert(crate::address::listen_text(port).take(17) =~= "/ip4/0.0.0.0/tcp/"@);
    assert(crate::address::listen_text(port).skip(17) =~= crate::address::decimal(port as nat));
    assert(crate::address::listen_bytes(port).take(6) =~= seq![4u8, 0u8, 0u8, 0u8, 0u8, 6u8]);
}

} // verus!
