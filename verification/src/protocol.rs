//! Messages of the block-sync and block-notify protocols.

use vstd::prelude::*;

verus! {

/// The part of a block header that the network layer reads.
#[derive(Debug, Clone, Copy, PartialEq, Eq, Structural)]
pub struct BlockHeader {
    /// Height of the block in the chain.
    pub height: u64,
}

/// A block, as the network layer sees it: its height, and the rest in encoded form.
#[derive(Debug, PartialEq, Eq)]
pub struct Block {
    /// The header.
    pub header: BlockHeader,
    /// Everything else, which the network layer passes on unread.
    pub body: Vec<u8>,
}

/// What a [`Block`] stands for.
pub struct BlockModel {
    /// Height of the block in the chain.
    pub height: u64,
    /// Everything else.
    pub body: Seq<u8>,
}

impl View for Block {
    type V = BlockModel;

    open spec fn view(&self) -> BlockModel {
        BlockModel { height: self.header.height, body: self.body@ }
    }
}

impl Clone for Block {
    fn clone(&self) -> (copy: Self)
        ensures
            copy@ == self@,
            copy.header == self.header,
            copy.body@ == self.body@,
    {
        let copy = Block { header: self.header, body: self.body.clone() };
        assert(copy.body@ =~= self.body@);
        copy
    }
}

/// A request of the block-sync protocol.
#[derive(Debug, Clone, Copy, PartialEq, Eq, Structural)]
pub enum SyncRequest {
    /// Ask for the latest height.
    GetHeight,
    /// Ask for a range of blocks.
    GetBlocks {
        /// First height (inclusive).
        start_height: u64,
        /// End height (exclusive).
        end_height: u64,
    },
}

/// A response of the block-sync protocol, in encoded form: the node passes it on unread.
#[derive(Debug, PartialEq, Eq)]
pub struct SyncResponse {
    /// The encoded response.
    pub payload: Vec<u8>,
}

/// A notification of the block-notify protocol.
#[derive(Debug, PartialEq, Eq)]
pub enum SyncNotification {
    /// A block was produced.
    NewBlock {
        /// The new block.
        block: Block,
    },
}

/// The empty answer to a [`SyncNotification`].
#[derive(Debug, Clone, Copy, PartialEq, Eq, Structural)]
pub struct BlockNotifyAck;

} // verus!
