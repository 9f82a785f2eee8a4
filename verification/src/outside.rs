//! What the library takes from `libp2p` and `tokio` on trust.
//!
//! Everything here is believed, not proved: the declarations of outside types, and the
//! contracts of the outside functions that the library calls.

use libp2p::multiaddr;
use libp2p::request_response::{OutboundRequestId, ResponseChannel};
use libp2p::{Multiaddr, PeerId};
use tokio::sync::mpsc::{unbounded_channel, UnboundedReceiver, UnboundedSender};
use vstd::prelude::*;

verus! {

/// Declares [`libp2p::PeerId`], which the node only carries from one place to another.
#[verifier::external_type_specification]
#[verifier::external_body]
pub struct ExPeerId(PeerId);

/// Declares [`libp2p::request_response::OutboundRequestId`].
#[verifier::external_type_specification]
#[verifier::external_body]
pub struct ExOutboundRequestId(OutboundRequestId);

/// Declares [`libp2p::request_response::ResponseChannel`], which the node only carries from one
/// place to another.
#[verifier::external_type_specification]
#[verifier::external_body]
#[verifier::reject_recursive_types(TResponse)]
pub struct ExResponseChannel<TResponse>(ResponseChannel<TResponse>);

/// Declares [`libp2p::multiaddr::Error`], the reason why a text is no multiaddr.
#[verifier::external_type_specification]
#[verifier::external_body]
pub struct ExMultiaddrError(multiaddr::Error);

/// Declares [`tokio::sync::mpsc::UnboundedSender`].
#[verifier::external_type_specification]
#[verifier::external_body]
#[verifier::reject_recursive_types(T)]
pub struct ExUnboundedSender<T>(UnboundedSender<T>);

/// Declares [`tokio::sync::mpsc::UnboundedReceiver`].
#[verifier::external_type_specification]
#[verifier::external_body]
#[verifier::reject_recursive_types(T)]
pub struct ExUnboundedReceiver<T>(UnboundedReceiver<T>);

/// Calls `==` on two [`OutboundRequestId`]s, whose derived comparison is that of the one
/// integer inside. Claims that it tells whether both are the same identifier.
#[verifier::external_body]
pub(crate) fn same_request(a: &OutboundRequestId, b: &OutboundRequestId) -> (same: bool)
    ensures
        same == (*a == *b),
{
    a == b
}

/// Specifies [`tokio::sync::mpsc::unbounded_channel`]. Nothing is claimed of either end. That two
/// ends come from one call is what [`one_channel`](crate::link::one_channel) says of them.
pub assume_specification<T>[ unbounded_channel::<T> ]() -> (ends: (
    UnboundedSender<T>,
    UnboundedReceiver<T>,
));

/// Specifies `clone` of [`tokio::sync::mpsc::UnboundedSender`]. A sender stands for the channel
/// that it sends to, and a clone sends to the same channel: claims that the two are the same.
pub assume_specification<T>[ <UnboundedSender<T> as Clone>::clone ](
    tx: &UnboundedSender<T>,
) -> (copy: UnboundedSender<T>)
    ensures
        copy == *tx,
;

/// Calls [`tokio::sync::mpsc::UnboundedSender::send`]. Claims that a message which is not
/// accepted comes back unchanged. Whether it is accepted depends on the receiving task: it is
/// not once the receiver is closed or dropped.
#[verifier::external_body]
pub(crate) fn send_message<T>(tx: &UnboundedSender<T>, message: T) -> (sent: Result<(), T>)
    ensures
        sent matches Err(returned) ==> returned == message,
{
    tx.send(message).map_err(|error| error.0)
}

/// What parsing `text` as a [`libp2p::Multiaddr`] gives: the address in its binary form, or
/// nothing where the text is no multiaddr.
pub uninterp spec fn parsed_multiaddr(text: Seq<char>) -> Option<Seq<u8>>;

/// Calls `parse` of `str` for [`libp2p::Multiaddr`], and `to_vec` for the binary form of the
/// address. Claims that the outcome is a function of the text, named [`parsed_multiaddr`], and
/// that a text of the form `/ip4/0.0.0.0/tcp/<port>` is a multiaddr: protocol number 4 with the
/// four octets of the host, then protocol number 6 with the port, most significant byte first.
#[verifier::external_body]
pub(crate) fn parse_multiaddr(text: &str) -> (parsed: Result<Vec<u8>, multiaddr::Error>)
    ensures
        parsed matches Ok(bytes) ==> parsed_multiaddr(text@) == Some(bytes@),
        parsed is Err ==> parsed_multiaddr(text@) is None,
        forall|port: u16|
            text@ == #[trigger] crate::address::listen_text(port) ==> parsed is Ok
                && parsed->Ok_0@ == crate::address::listen_bytes(port),
{
    text.parse::<Multiaddr>().map(|address| address.to_vec())
}

} // verus!
