//! Laws of the node as a whole: what holds whatever happens to it.

use libp2p::request_response::OutboundRequestId;
use libp2p::PeerId;
use tokio::sync::mpsc::{UnboundedReceiver, UnboundedSender};
use vstd::prelude::*;

use crate::broadcast::ChannelBroadcaster;
use crate::event::{
    InboundSyncRequest, NodeInput, SwarmAction, SwarmEvent, SyncCommand, SyncEvent,
};
use crate::node::NodeModel;
use crate::protocol::{Block, SyncNotification, SyncRequest};

verus! {

/// One of the receivers that the node gives away.
pub enum Receiver {
    /// Of inbound sync requests.
    Sync,
    /// Of announced blocks.
    Block,
    /// Of blocks to broadcast.
    Broadcast,
    /// Of events for the sync orchestrator.
    SyncEvent,
    /// Of sync commands.
    SyncCmd,
}

/// One thing that can happen to the node.
pub enum Transition {
    /// A receiver was taken.
    Taken {
        /// Which one.
        receiver: Receiver,
    },
    /// The event loop took in an input.
    Input {
        /// The input.
        input: NodeInput,
    },
    /// The swarm sent a sync request of this node.
    Sent {
        /// The request.
        request: SyncRequest,
        /// The identifier that the swarm gave it.
        request_id: OutboundRequestId,
    },
}

/// The node after `receiver` was taken.
pub open spec fn after_taking(node: NodeModel, receiver: Receiver) -> NodeModel {
    match receiver {
        Receiver::Sync => NodeModel { sync: node.sync.taken(), ..node },
        Receiver::Block => NodeModel { block: node.block.taken(), ..node },
        Receiver::Broadcast => NodeModel { broadcast: node.broadcast.taken(), ..node },
        Receiver::SyncEvent => NodeModel { sync_event: node.sync_event.taken(), ..node },
        Receiver::SyncCmd => NodeModel { sync_cmd: node.sync_cmd.taken(), ..node },
    }
}

/// The node after `transition`.
pub open spec fn after(node: NodeModel, transition: Transition) -> NodeModel {
    match transition {
        Transition::Taken { receiver } => after_taking(node, receiver),
        Transition::Input { input } => node.after_input(input),
        Transition::Sent { request, request_id } => node.after_sent(request, request_id),
    }
}

/// The node after all of `transitions`, in their order.
pub open spec fn run(node: NodeModel, transitions: Seq<Transition>) -> NodeModel
    decreases transitions.len(),
{
    if transitions.len() == 0 {
        node
    } else {
        after(run(node, transitions.drop_last()), transitions.last())
    }
}

/// The swarm event that `transition` takes in, if it takes in one.
pub open spec fn event_of(transition: Transition) -> Option<SwarmEvent> {
    match transition {
        Transition::Input { input: NodeInput::Swarm { event } } => Some(event),
        _ => None,
    }
}

/// Whether `transition` is that a block request went out under the identifier `id`.
pub open spec fn opens(transition: Transition, id: OutboundRequestId) -> bool {
    transition matches Transition::Sent { request, request_id } && request is GetBlocks
        && request_id == id
}

/// Whether `transition` is the answer to, or the failure of, the sync request `id`.
pub open spec fn closes(transition: Transition, id: OutboundRequestId) -> bool {
    match event_of(transition) {
        Some(SwarmEvent::SyncResponseReceived { request_id, .. }) => request_id == id,
        Some(SwarmEvent::SyncOutboundFailure { request_id, .. }) => request_id == id,
        _ => false,
    }
}

/// Whether none of `transitions` from position `start` on closes the sync request `id`.
pub open spec fn none_closes(
    transitions: Seq<Transition>,
    start: int,
    id: OutboundRequestId,
) -> bool {
    forall|j: int| start <= j < transitions.len() ==> !closes(#[trigger] transitions[j], id)
}

/// Whether the block request `id` went out at position `i` of `transitions`, and nothing closed
/// it since.
pub open spec fn open_since(
    transitions: Seq<Transition>,
    i: int,
    id: OutboundRequestId,
) -> bool {
    &&& 0 <= i < transitions.len()
    &&& opens(transitions[i], id)
    &&& none_closes(transitions, i + 1, id)
}

/// A block request is pending just if it was sent and neither answered nor failed since.
pub proof fn law_pending_means_open(
    node: NodeModel,
    transitions: Seq<Transition>,
    id: OutboundRequestId,
)
    ensures
        run(node, transitions).pending.contains(id) <==> {
            ||| node.pending.contains(id) && none_closes(transitions, 0, id)
            ||| exists|i: int| #[trigger] open_since(transitions, i, id)
        },
    decreases transitions.len(),
{
    if transitions.len() > 0 {
        let earlier = transitions.drop_last();
        let last = transitions.last();
        law_pending_means_open(node, earlier, id);
        assert(transitions[transitions.len() - 1] == last);
        assert forall|i: int| 0 <= i <= earlier.len() && !closes(last, id) && none_closes(
            earlier,
            i,
            id,
        ) implies #[trigger] none_closes(transitions, i, id) by {
            assert forall|j: int| i <= j < transitions.len() implies !closes(
                #[trigger] transitions[j],
                id,
            ) by {
                if j < earlier.len() {
                    assert(earlier[j] == transitions[j]);
                }
            }
        }
        assert forall|i: int| 0 <= i && #[trigger] none_closes(
            transitions,
            i,
            id,
        ) implies none_closes(earlier, i, id) by {
            assert forall|j: int| i <= j < earlier.len() implies !closes(
                #[trigger] earlier[j],
                id,
            ) by {
                assert(earlier[j] == transitions[j]);
            }
        }
        if opens(last, id) {
            assert(open_since(transitions, transitions.len() - 1, id));
        } else {
            if exists|i: int| #[trigger] open_since(earlier, i, id) {
                let i = choose|i: int| #[trigger] open_since(earlier, i, id);
                assert(earlier[i] == transitions[i]);
                if !closes(last, id) {
                    assert(none_closes(transitions, i + 1, id));
                    assert(open_since(transitions, i, id));
                }
            }
            if exists|i: int| #[trigger] open_since(transitions, i, id) {
                let i = choose|i: int| #[trigger] open_since(transitions, i, id);
                assert(i < earlier.len());
                assert(earlier[i] == transitions[i]);
                assert(none_closes(earlier, i + 1, id));
                assert(open_since(earlier, i, id));
            }
            if node.pending.contains(id) && none_closes(earlier, 0, id) && !closes(last, id) {
                assert(none_closes(transitions, 0, id));
            }
            if none_closes(transitions, 0, id) {
                assert(none_closes(earlier, 0, id));
            }
        }
    }
}

/// The failure of a sync request is reported to the sync orchestrator just if the request is a
/// block request that was neither answered nor reported as failed before; otherwise nothing
/// changes.
pub proof fn law_failure_reported_iff_pending(
    node: NodeModel,
    peer: PeerId,
    id: OutboundRequestId,
)
    ensures
        ({
            let later = node.after_event(
                SwarmEvent::SyncOutboundFailure { peer, request_id: id },
            );
            &&& node.pending.contains(id) ==> later.sync_event.handed == node.sync_event.handed.push(
                SyncEvent::RequestFailed { peer_id: peer },
            )
            &&& !node.pending.contains(id) ==> later == node
            &&& !later.pending.contains(id)
        }),
{
}

/// The failure of a block request reaches the sync orchestrator, whatever happens between the
/// request and its failure, as long as nothing else closes the request.
pub proof fn law_block_request_failure_reported(
    node: NodeModel,
    request: SyncRequest,
    between: Seq<Transition>,
    peer: PeerId,
    id: OutboundRequestId,
)
    requires
        request is GetBlocks,
        none_closes(between, 0, id),
    ensures
        ({
            let waiting = run(node.after_sent(request, id), between);
            let later = waiting.after_event(
                SwarmEvent::SyncOutboundFailure { peer, request_id: id },
            );
            later.sync_event.handed == waiting.sync_event.handed.push(SyncEvent::RequestFailed { peer_id: peer })
        }),
{
    law_pending_means_open(node.after_sent(request, id), between, id);
}

/// The failure of a height request is not reported: it leaves no trace.
pub proof fn law_height_request_failure_is_silent(
    node: NodeModel,
    peer: PeerId,
    id: OutboundRequestId,
)
    requires
        !node.pending.contains(id),
    ensures
        node.after_sent(SyncRequest::GetHeight, id).after_event(
            SwarmEvent::SyncOutboundFailure { peer, request_id: id },
        ) == node,
{
}

/// A sync request that was closed, by an answer or a failure, is not reported as failed any more,
/// unless it is sent anew.
pub proof fn law_closed_request_cannot_fail(
    node: NodeModel,
    closing: Transition,
    between: Seq<Transition>,
    peer: PeerId,
    id: OutboundRequestId,
)
    requires
        closes(closing, id),
        forall|i: int| 0 <= i < between.len() ==> !opens(#[trigger] between[i], id),
    ensures
        ({
            let settled = run(after(node, closing), between);
            settled.after_event(SwarmEvent::SyncOutboundFailure { peer, request_id: id })
                == settled
        }),
{
    law_pending_means_open(after(node, closing), between, id);
    assert(forall|i: int| !open_since(between, i, id));
}

/// A command for blocks asks the peer for just the range in the command, and its failure will be
/// reported; a command for the height asks for just that, and its failure will not.
pub proof fn law_only_block_commands_tracked(
    node: NodeModel,
    peer_id: PeerId,
    start_height: u64,
    end_height: u64,
    id: OutboundRequestId,
)
    ensures
        crate::node::command_action(SyncCommand::GetBlocks { peer_id, start_height, end_height })
            matches SwarmAction::SendSyncRequest { outbound } && outbound.peer == peer_id
            && outbound.request == (SyncRequest::GetBlocks { start_height, end_height })
            && node.after_sent(outbound.request, id).pending == node.pending.insert(id),
        crate::node::command_action(SyncCommand::GetHeight { peer_id })
            matches SwarmAction::SendSyncRequest { outbound } && outbound.peer == peer_id
            && outbound.request == SyncRequest::GetHeight && node.after_sent(
            outbound.request,
            id,
        ) == node,
{
}

/// How many of `events` report a failed block request.
pub open spec fn failures(events: Seq<SyncEvent>) -> nat
    decreases events.len(),
{
    if events.len() == 0 {
        0
    } else {
        failures(events.drop_last()) + if events.last() is RequestFailed {
            1nat
        } else {
            0nat
        }
    }
}

/// How many of `transitions` are that a block request went out.
pub open spec fn block_requests(transitions: Seq<Transition>) -> nat
    decreases transitions.len(),
{
    if transitions.len() == 0 {
        0
    } else {
        block_requests(transitions.drop_last()) + match transitions.last() {
            Transition::Sent { request: SyncRequest::GetBlocks { .. }, .. } => 1nat,
            _ => 0nat,
        }
    }
}

/// No block request is reported as failed twice: the reported failures, and the requests that are
/// still pending, are never more than the block requests that went out.
pub proof fn law_failures_within_requests(node: NodeModel, transitions: Seq<Transition>)
    requires
        node.pending.finite(),
    ensures
        run(node, transitions).pending.finite(),
        failures(run(node, transitions).sync_event.handed) + run(node, transitions).pending.len()
            <= failures(node.sync_event.handed) + node.pending.len() + block_requests(transitions),
    decreases transitions.len(),
{
    if transitions.len() > 0 {
        let earlier = run(node, transitions.drop_last());
        let later = run(node, transitions);
        law_failures_within_requests(node, transitions.drop_last());
        if later.sync_event.handed.len() > earlier.sync_event.handed.len() {
            assert(later.sync_event.handed.drop_last() =~= earlier.sync_event.handed);
        }
    }
}

/// The inbound sync request that `transition` brings, if it brings one.
pub open spec fn inbound_of(transition: Transition) -> Seq<InboundSyncRequest> {
    match event_of(transition) {
        Some(SwarmEvent::SyncRequestReceived { peer, request, channel }) => seq![
            InboundSyncRequest { request, channel, peer },
        ],
        _ => Seq::empty(),
    }
}

/// The block that `transition` announces, if it announces one.
pub open spec fn block_of(transition: Transition) -> Seq<Block> {
    match event_of(transition) {
        Some(
            SwarmEvent::BlockNotifyReceived {
                notification: SyncNotification::NewBlock { block },
                ..
            },
        ) => seq![block],
        _ => Seq::empty(),
    }
}

/// The inbound sync requests that `transitions` bring, in their order.
pub open spec fn inbound_of_all(transitions: Seq<Transition>) -> Seq<InboundSyncRequest>
    decreases transitions.len(),
{
    if transitions.len() == 0 {
        Seq::empty()
    } else {
        inbound_of_all(transitions.drop_last()) + inbound_of(transitions.last())
    }
}

/// The blocks that `transitions` announce, in their order.
pub open spec fn blocks_of_all(transitions: Seq<Transition>) -> Seq<Block>
    decreases transitions.len(),
{
    if transitions.len() == 0 {
        Seq::empty()
    } else {
        blocks_of_all(transitions.drop_last()) + block_of(transitions.last())
    }
}

/// Every inbound sync request is handed to the node binary, once, in the order of arrival, with
/// its channel and peer.
pub proof fn law_inbound_requests_forwarded(node: NodeModel, transitions: Seq<Transition>)
    ensures
        run(node, transitions).sync.handed == node.sync.handed + inbound_of_all(transitions),
    decreases transitions.len(),
{
    if transitions.len() > 0 {
        law_inbound_requests_forwarded(node, transitions.drop_last());
    }
    assert(run(node, transitions).sync.handed =~= node.sync.handed + inbound_of_all(transitions));
}

/// Every announced block is handed to the node binary, once, in the order of arrival.
pub proof fn law_announced_blocks_forwarded(node: NodeModel, transitions: Seq<Transition>)
    ensures
        run(node, transitions).block.handed == node.block.handed + blocks_of_all(transitions),
    decreases transitions.len(),
{
    if transitions.len() > 0 {
        law_announced_blocks_forwarded(node, transitions.drop_last());
    }
    assert(run(node, transitions).block.handed =~= node.block.handed + blocks_of_all(transitions));
}

/// The event that `transition` gives the sync orchestrator when it happens to `node`, if it gives
/// one.
pub open spec fn notice_of(node: NodeModel, transition: Transition) -> Seq<SyncEvent> {
    match event_of(transition) {
        Some(SwarmEvent::ConnectionEstablished { peer_id }) => seq![
            SyncEvent::PeerConnected { peer_id },
        ],
        Some(SwarmEvent::SyncResponseReceived { peer, response, .. }) => seq![
            SyncEvent::ResponseReceived { peer_id: peer, response },
        ],
        Some(SwarmEvent::SyncOutboundFailure { peer, request_id }) => {
            if node.pending.contains(request_id) {
                seq![SyncEvent::RequestFailed { peer_id: peer }]
            } else {
                Seq::empty()
            }
        },
        _ => Seq::empty(),
    }
}

/// The events that `transitions` give the sync orchestrator, in their order.
pub open spec fn notices_of_all(node: NodeModel, transitions: Seq<Transition>) -> Seq<SyncEvent>
    decreases transitions.len(),
{
    if transitions.len() == 0 {
        Seq::empty()
    } else {
        notices_of_all(node, transitions.drop_last()) + notice_of(
            run(node, transitions.drop_last()),
            transitions.last(),
        )
    }
}

/// Every connection, every response and every failure of a pending block request is handed to
/// the sync orchestrator, once, in the order in which they happen; nothing else is, and nothing
/// that was handed over is taken back.
pub proof fn law_orchestrator_notified(node: NodeModel, transitions: Seq<Transition>)
    ensures
        run(node, transitions).sync_event.handed == node.sync_event.handed + notices_of_all(node, transitions),
    decreases transitions.len(),
{
    if transitions.len() > 0 {
        law_orchestrator_notified(node, transitions.drop_last());
    }
    assert(run(node, transitions).sync_event.handed =~= node.sync_event.handed + notices_of_all(node, transitions));
}

/// Whether `receiver` is taken in the course of `transitions`.
pub open spec fn taken_in(transitions: Seq<Transition>, receiver: Receiver) -> bool {
    exists|i: int|
        0 <= i < transitions.len() && #[trigger] transitions[i] == (Transition::Taken { receiver })
}

/// Whether the sending end `later_tx` is the one that was `tx`, and the receiving end `later_rx`
/// the one that was `rx` or, if it was `taken`, not there.
pub open spec fn same_ends<T>(
    tx: UnboundedSender<T>,
    rx: Option<UnboundedReceiver<T>>,
    later_tx: UnboundedSender<T>,
    later_rx: Option<UnboundedReceiver<T>>,
    taken: bool,
) -> bool {
    &&& later_tx == tx
    &&& later_rx == if taken {
        None
    } else {
        rx
    }
}

/// Whatever happens, the node keeps its identity and its channels: each has the sending end that
/// it had, and the receiving end until that is taken.
pub proof fn law_channels_kept(node: NodeModel, transitions: Seq<Transition>)
    ensures
        ({
            let later = run(node, transitions);
            &&& later.peer_id == node.peer_id
            &&& same_ends(
                node.sync.tx,
                node.sync.rx,
                later.sync.tx,
                later.sync.rx,
                taken_in(transitions, Receiver::Sync),
            )
            &&& same_ends(
                node.block.tx,
                node.block.rx,
                later.block.tx,
                later.block.rx,
                taken_in(transitions, Receiver::Block),
            )
            &&& same_ends(
                node.broadcast.tx,
                node.broadcast.rx,
                later.broadcast.tx,
                later.broadcast.rx,
                taken_in(transitions, Receiver::Broadcast),
            )
            &&& same_ends(
                node.sync_event.tx,
                node.sync_event.rx,
                later.sync_event.tx,
                later.sync_event.rx,
                taken_in(transitions, Receiver::SyncEvent),
            )
            &&& same_ends(
                node.sync_cmd.tx,
                node.sync_cmd.rx,
                later.sync_cmd.tx,
                later.sync_cmd.rx,
                taken_in(transitions, Receiver::SyncCmd),
            )
        }),
    decreases transitions.len(),
{
    if transitions.len() > 0 {
        let earlier = transitions.drop_last();
        law_channels_kept(node, earlier);
        assert forall|receiver: Receiver| #[trigger] taken_in(transitions, receiver) == (taken_in(
            earlier,
            receiver,
        ) || transitions.last() == (Transition::Taken { receiver })) by {
            if taken_in(earlier, receiver) {
                let i = choose|i: int|
                    0 <= i < earlier.len() && #[trigger] earlier[i] == (Transition::Taken {
                        receiver,
                    });
                assert(transitions[i] == (Transition::Taken { receiver }));
            }
            if taken_in(transitions, receiver) {
                let i = choose|i: int|
                    0 <= i < transitions.len() && #[trigger] transitions[i] == (
                    Transition::Taken { receiver });
                if i < earlier.len() {
                    assert(earlier[i] == (Transition::Taken { receiver }));
                }
            }
            assert(transitions[transitions.len() - 1] == transitions.last());
        }
    }
}

/// A new node gives away each of its receivers once: whatever happens, there is one to take until
/// it is taken, and none from then on.
pub proof fn law_receivers_given_away_once(node: NodeModel, transitions: Seq<Transition>)
    requires
        node.fresh(),
    ensures
        ({
            let later = run(node, transitions);
            &&& later.sync.rx is Some <==> !taken_in(transitions, Receiver::Sync)
            &&& later.block.rx is Some <==> !taken_in(transitions, Receiver::Block)
            &&& later.broadcast.rx is Some <==> !taken_in(transitions, Receiver::Broadcast)
            &&& later.sync_event.rx is Some <==> !taken_in(transitions, Receiver::SyncEvent)
            &&& later.sync_cmd.rx is Some <==> !taken_in(transitions, Receiver::SyncCmd)
        }),
{
    law_channels_kept(node, transitions);
}

/// Whether `rx`, if it is there, is of one channel with `tx`.
pub open spec fn receives_from<T>(
    rx: Option<UnboundedReceiver<T>>,
    tx: UnboundedSender<T>,
) -> bool {
    rx matches Some(rx) ==> crate::link::one_channel(tx, rx)
}

/// In a new node, whatever happens before a receiver is taken and whatever happens after, the
/// receiver is of one channel with the sender that belongs to it: the one that inbound requests,
/// announced blocks and events go to, or that commanders and broadcasters are handed.
pub proof fn law_receivers_belong_to_senders(
    node: NodeModel,
    before: Seq<Transition>,
    between: Seq<Transition>,
)
    requires
        node.fresh(),
    ensures
        ({
            let giving = run(node, before);
            let later = run(giving, between);
            &&& receives_from(giving.sync.rx, later.sync.tx)
            &&& receives_from(giving.block.rx, later.block.tx)
            &&& receives_from(giving.broadcast.rx, later.broadcast.tx)
            &&& receives_from(giving.sync_event.rx, later.sync_event.tx)
            &&& receives_from(giving.sync_cmd.rx, later.sync_cmd.tx)
            &&& receives_from(later.broadcast.rx, giving.broadcast.tx)
            &&& receives_from(later.sync_cmd.rx, giving.sync_cmd.tx)
        }),
{
    law_channels_kept(node, before);
    law_channels_kept(run(node, before), between);
}

/// In a new node, whatever happens before and between, any two broadcasters hold the same sender,
/// and it is of one channel with the receiver that the event loop takes, whether that is taken
/// before or after.
pub proof fn law_broadcasters_feed_the_event_loop(
    node: NodeModel,
    before: Seq<Transition>,
    between: Seq<Transition>,
    first: ChannelBroadcaster,
    second: ChannelBroadcaster,
)
    requires
        node.fresh(),
        first@ == run(node, before).broadcast.tx,
        second@ == run(run(node, before), between).broadcast.tx,
    ensures
        first@ == second@,
        receives_from(run(node, before).broadcast.rx, second@),
        receives_from(run(run(node, before), between).broadcast.rx, first@),
{
    law_channels_kept(node, before);
    law_channels_kept(run(node, before), between);
}

/// In a new node, whatever happens before and between, any two commanders are the same sender, and
/// it is of one channel with the receiver that the event loop takes, whether that is taken before
/// or after.
pub proof fn law_commanders_feed_the_event_loop(
    node: NodeModel,
    before: Seq<Transition>,
    between: Seq<Transition>,
    first: UnboundedSender<SyncCommand>,
    second: UnboundedSender<SyncCommand>,
)
    requires
        node.fresh(),
        first == run(node, before).sync_cmd.tx,
        second == run(run(node, before), between).sync_cmd.tx,
    ensures
        first == second,
        receives_from(run(node, before).sync_cmd.rx, second),
        receives_from(run(run(node, before), between).sync_cmd.rx, first),
{
    law_channels_kept(node, before);
    law_channels_kept(run(node, before), between);
}

/// What a peer advertises in the Identify handshake is informational only: whatever the versions,
/// the node stays as it is and does nothing.
pub proof fn law_identify_never_gates(
    node: NodeModel,
    peer_id: PeerId,
    protocol_version: String,
    agent_version: String,
)
    ensures
        ({
            let event = SwarmEvent::IdentifyReceived { peer_id, protocol_version, agent_version };
            &&& node.after_event(event) == node
            &&& crate::node::event_actions(event) == Seq::<SwarmAction>::empty()
        }),
{
}

/// Whether `event` is one that the node acts on.
pub open spec fn acted_on(event: SwarmEvent) -> bool {
    ||| event is ConnectionEstablished
    ||| event is MdnsDiscovered
    ||| event is SyncRequestReceived
    ||| event is SyncResponseReceived
    ||| event is SyncOutboundFailure
    ||| event is BlockNotifyReceived
}

/// All other events are informational: the node stays as it is and does nothing.
pub proof fn law_other_events_ignored(node: NodeModel, event: SwarmEvent)
    requires
        !acted_on(event),
    ensures
        node.after_event(event) == node,
        crate::node::event_actions(event) == Seq::<SwarmAction>::empty(),
{
}

/// The two protocols number their requests independently: no event of the block-notify protocol
/// touches the pending block requests or reaches the sync orchestrator, whatever identifier it
/// has.
pub proof fn law_block_notify_leaves_sync_alone(node: NodeModel, event: SwarmEvent)
    requires
        event is BlockNotifyReceived || event is BlockNotifyAcknowledged
            || event is BlockNotifyOutboundFailure || event is BlockNotifyInboundFailure
            || event is BlockNotifyAckSent,
    ensures
        node.after_event(event).pending == node.pending,
        node.after_event(event).sync_event == node.sync_event,
        node.after_event(event).sync == node.sync,
{
}

/// Every announcement is acknowledged, once, on its own channel, and nothing else is.
pub proof fn law_announcements_acknowledged(event: SwarmEvent)
    ensures
        event matches SwarmEvent::BlockNotifyReceived { peer, ack_channel, .. } ==> {
            let actions = crate::node::event_actions(event);
            &&& actions.len() == 1
            &&& actions[0] matches SwarmAction::SendAck { peer: to, ack_channel: on, .. }
            &&& to == peer
            &&& on == ack_channel
        },
        event !is BlockNotifyReceived ==> forall|i: int|
            0 <= i < crate::node::event_actions(event).len()
                ==> #[trigger] crate::node::event_actions(event)[i] !is SendAck,
{
}

/// Every discovered peer is dialed, once for each address found, in the order found; a peer that
/// expires is not.
pub proof fn law_discovered_peers_dialed(event: SwarmEvent)
    ensures
        event matches SwarmEvent::MdnsDiscovered { peers } ==> {
            let actions = crate::node::event_actions(event);
            &&& actions.len() == peers@.len()
            &&& forall|i: int|
                0 <= i < peers@.len() ==> #[trigger] actions[i] == (SwarmAction::Dial {
                    peer_id: peers@[i].0,
                    address: peers@[i].1,
                })
        },
        event is MdnsExpired ==> crate::node::event_actions(event) == Seq::<
            SwarmAction,
        >::empty(),
{
}

/// A broadcast announces the block to every connected peer and to no other, and to none if no
/// peer is connected.
pub proof fn law_broadcast_reaches_every_peer(
    actions: Seq<SwarmAction>,
    block: Block,
    connected: Vec<PeerId>,
    peer: PeerId,
)
    requires
        crate::node::answers(actions, NodeInput::Broadcast { block, connected }),
    ensures
        connected@.contains(peer) <==> exists|i: int|
            0 <= i < actions.len() && crate::node::announces(#[trigger] actions[i], peer, block@),
        connected@.len() == 0 ==> actions.len() == 0,
{
    if connected@.contains(peer) {
        let i = choose|i: int| 0 <= i < connected@.len() && connected@[i] == peer;
        assert(crate::node::announces(actions[i], peer, block@));
    }
    if exists|i: int|
        0 <= i < actions.len() && crate::node::announces(#[trigger] actions[i], peer, block@) {
        let i = choose|i: int|
            0 <= i < actions.len() && crate::node::announces(#[trigger] actions[i], peer, block@);
        assert(crate::node::announces(actions[i], connected@[i], block@));
        assert(connected@[i] == peer);
    }
}

/// A peer that is connected once gets a broadcast block once.
pub proof fn law_broadcast_reaches_no_peer_twice(
    actions: Seq<SwarmAction>,
    block: Block,
    connected: Vec<PeerId>,
    peer: PeerId,
    i: int,
    j: int,
)
    requires
        crate::node::answers(actions, NodeInput::Broadcast { block, connected }),
        connected@.no_duplicates(),
        0 <= i < actions.len(),
        0 <= j < actions.len(),
        crate::node::announces(actions[i], peer, block@),
        crate::node::announces(actions[j], peer, block@),
    ensures
        i == j,
{
    assert(crate::node::announces(actions[i], connected@[i], block@));
    assert(crate::node::announces(actions[j], connected@[j], block@));
}

/// Sync requests and sync responses go out on a command of the sync orchestrator only.
pub proof fn law_sync_messages_only_on_command(
    actions: Seq<SwarmAction>,
    input: NodeInput,
    i: int,
)
    requires
        crate::node::answers(actions, input),
        0 <= i < actions.len(),
        actions[i] is SendSyncRequest || actions[i] is SendSyncResponse,
    ensures
        input is Command,
{
    match input {
        NodeInput::Broadcast { block, connected } => {
            assert(crate::node::announces(actions[i], connected@[i], block@));
        },
        _ => {},
    }
}

/// Different ports give different listen addresses.
pub proof fn law_listen_addresses_differ(port: u16, other: u16)
    requires
        port != other,
    ensures
        crate::address::listen_bytes(port) != crate::address::listen_bytes(other),
{
    let a = crate::address::listen_bytes(port);
    let b = crate::address::listen_bytes(other);
    assert(a[6] == (port / 256) as u8 && a[7] == (port % 256) as u8);
    assert(b[6] == (other / 256) as u8 && b[7] == (other % 256) as u8);
}

} // verus!
