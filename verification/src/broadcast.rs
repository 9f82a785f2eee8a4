//! Handles through which the node binary has blocks announced.

use tokio::sync::mpsc::UnboundedSender;
use vstd::prelude::*;

use crate::link::hand_over;
use crate::protocol::Block;

verus! {

/// Trait for broadcasting blocks to connected peers.
///
/// Abstraction over the network layer, so that a backend can broadcast blocks without depending
/// on networking internals directly.
pub trait BlockBroadcaster<B = Block>: Send + Sync {
    /// Broadcast a block to all connected peers.
    fn broadcast(&self, block: B);
}

/// A block on its way to the event loop, to be broadcast.
///
/// The type keeps this channel apart from the one for blocks that peers announce: neither channel
/// takes what the other carries.
#[derive(Debug, PartialEq, Eq)]
pub struct QueuedBlock<B = Block> {
    /// The block.
    pub block: B,
}

/// Whether `sent` is an outcome of handing `block` to `tx`. An error holds the block, refused
/// because the event loop is gone.
pub open spec fn offered<B>(
    tx: UnboundedSender<QueuedBlock<B>>,
    block: B,
    sent: Result<(), B>,
) -> bool {
    match sent {
        Ok(done) => crate::link::handed_over(tx, QueuedBlock { block }, Ok(done)),
        Err(returned) => returned == block && crate::link::handed_over(
            tx,
            QueuedBlock { block },
            Err(QueuedBlock { block }),
        ),
    }
}

/// Channel-backed [`BlockBroadcaster`] that sends blocks to the event loop of the node.
///
/// Created via [`P2PNode::broadcaster`](crate::node::P2PNode::broadcaster). Cheaply cloneable.
/// The view is the sender that it sends through.
///
/// It works for blocks of any type, and of such a block it can neither make another nor copy the
/// one it is given: a call sends the block that it takes, and therefore sends it once and sends
/// nothing else.
#[verifier::reject_recursive_types(B)]
pub struct ChannelBroadcaster<B = Block> {
    tx: UnboundedSender<QueuedBlock<B>>,
}

impl<B> View for ChannelBroadcaster<B> {
    type V = UnboundedSender<QueuedBlock<B>>;

    closed spec fn view(&self) -> UnboundedSender<QueuedBlock<B>> {
        self.tx
    }
}

impl<B> Clone for ChannelBroadcaster<B> {
    fn clone(&self) -> (copy: Self)
        ensures
            copy@ == self@,
    {
        ChannelBroadcaster { tx: self.tx.clone() }
    }
}

impl<B> ChannelBroadcaster<B> {
    /// A broadcaster that sends through `tx`.
    pub(crate) fn new(tx: UnboundedSender<QueuedBlock<B>>) -> (broadcaster: Self)
        ensures
            broadcaster@ == tx,
    {
        ChannelBroadcaster { tx }
    }

    /// Hands `block` to the event loop. It comes back if the event loop is gone.
    pub fn offer(&self, block: B) -> (sent: Result<(), B>)
        ensures
            offered(self@, block, sent),
    {
        match hand_over(&self.tx, QueuedBlock { block }) {
            Ok(done) => Ok(done),
            Err(queued) => Err(queued.block),
        }
    }
}

impl<B: Send> BlockBroadcaster<B> for ChannelBroadcaster<B> {
    /// Hands `block` to the event loop; a block that can no longer be broadcast is dropped. Use
    /// [`ChannelBroadcaster::offer`] to get it back.
    fn broadcast(&self, block: B)
        ensures
            crate::link::was_handed_over(self@, QueuedBlock { block }),
    {
        let _ = self.offer(block);
    }
}

} // verus!
