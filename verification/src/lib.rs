//! Verified core of a minimal libp2p node for the Mbongo devnet.
//!
//! Provides the decisions of a peer-to-peer node with:
//! - **mDNS**: discovered peers are dialed
//! - **Request/Response**: the block-sync protocol
//! - **Block announcements**: pushed to all connected peers, and acknowledged
//!
//! Inbound sync requests and announced blocks are forwarded over channels, so that the node
//! binary can answer them with data from storage; connections, responses and failed block
//! requests are forwarded to the sync orchestrator. The swarm itself is driven from outside: see
//! [`node::P2PNode::step`].

mod calls;
mod outside;

pub mod address;
pub mod broadcast;
pub mod event;
pub mod laws;
pub mod link;
pub mod node;
pub mod operations;
pub mod outlet;
pub mod protocol;
pub mod requests;
