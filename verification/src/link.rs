//! Unbounded channels into the node: their senders are handed out, and their messages come from
//! others.

use tokio::sync::mpsc::{unbounded_channel, UnboundedReceiver, UnboundedSender};
use vstd::prelude::*;

use crate::calls::{call, call_with};
use crate::outside::send_message;

verus! {

/// Whether `tx` and `rx` are two ends that a call of [`tokio::sync::mpsc::unbounded_channel`]
/// gives.
pub open spec fn one_channel<T>(tx: UnboundedSender<T>, rx: UnboundedReceiver<T>) -> bool {
    call_ensures(unbounded_channel::<T>, (), (tx, rx))
}

/// Whether `sent` is an outcome of handing `message` to
/// [`tokio::sync::mpsc::UnboundedSender::send`] of `tx`. Only the call shows this of an outcome.
/// An error holds the message, refused because nobody can receive it any more.
pub closed spec fn handed_over<T>(
    tx: UnboundedSender<T>,
    message: T,
    sent: Result<(), T>,
) -> bool {
    call_ensures(send_message::<T>, (&tx, message), sent)
}

/// Whether handing `message` to `tx` had an outcome.
pub open spec fn was_handed_over<T>(tx: UnboundedSender<T>, message: T) -> bool {
    exists|sent: Result<(), T>| handed_over(tx, message, sent)
}

/// An outcome of handing a message over is one that the sender gives for that message, and what is
/// refused is the message itself.
pub(crate) proof fn law_outcomes_come_from_the_sender<T>(
    tx: UnboundedSender<T>,
    message: T,
    sent: Result<(), T>,
)
    ensures
        handed_over(tx, message, sent) == call_ensures(send_message::<T>, (&tx, message), sent),
        handed_over(tx, message, sent) ==> (sent matches Err(returned) ==> returned == message),
{
}

/// Both ends of a new channel.
pub fn new_channel<T>() -> (ends: (UnboundedSender<T>, UnboundedReceiver<T>))
    ensures
        one_channel(ends.0, ends.1),
{
    call(unbounded_channel::<T>)
}

/// Hands `message` to `tx`. It comes back if nobody can receive it any more.
pub fn hand_over<T>(tx: &UnboundedSender<T>, message: T) -> (sent: Result<(), T>)
    ensures
        handed_over(*tx, message, sent),
        sent matches Err(returned) ==> returned == message,
{
    call_with(send_message::<T>, tx, message)
}

/// What a [`Link`] stands for.
#[verifier::reject_recursive_types(T)]
pub struct LinkModel<T> {
    /// The sending end.
    pub tx: UnboundedSender<T>,
    /// The receiving end, until it is taken.
    pub rx: Option<UnboundedReceiver<T>>,
}

impl<T> LinkModel<T> {
    /// The link after its receiving end was given away.
    pub open spec fn taken(self) -> LinkModel<T> {
        LinkModel { rx: None, ..self }
    }

    /// Whether the receiving end, if it is still there, is of one channel with the sending end.
    pub open spec fn joined(self) -> bool {
        self.rx matches Some(rx) ==> one_channel(self.tx, rx)
    }

    /// Whether the link holds both ends of one channel.
    pub open spec fn fresh(self) -> bool {
        self.rx is Some && self.joined()
    }
}

/// Both ends of one unbounded channel, whose sending end is handed out.
#[verifier::reject_recursive_types(T)]
pub struct Link<T> {
    tx: UnboundedSender<T>,
    rx: Option<UnboundedReceiver<T>>,
}

impl<T> View for Link<T> {
    type V = LinkModel<T>;

    closed spec fn view(&self) -> LinkModel<T> {
        LinkModel { tx: self.tx, rx: self.rx }
    }
}

impl<T> Link<T> {
    /// The two ends belong together.
    #[verifier::type_invariant]
    pub open spec fn sound(self) -> bool {
        self@.joined()
    }

    /// A new channel, with both ends held by the link.
    pub fn new() -> (link: Self)
        ensures
            link@.fresh(),
    {
        let (tx, rx) = new_channel();
        Link { tx, rx: Some(rx) }
    }

    /// Gives away the receiving end, which the link then no longer has.
    pub fn take_receiver(&mut self) -> (rx: Option<UnboundedReceiver<T>>)
        ensures
            rx == old(self)@.rx,
            rx matches Some(rx) ==> one_channel(old(self)@.tx, rx),
            final(self)@ == old(self)@.taken(),
    {
        proof {
            use_type_invariant(&*self);
        }
        let mut rx: Option<UnboundedReceiver<T>> = None;
        std::mem::swap(&mut self.rx, &mut rx);
        rx
    }

    /// Another sender for the same channel.
    pub fn sender(&self) -> (tx: UnboundedSender<T>)
        ensures
            tx == self@.tx,
    {
        self.tx.clone()
    }
}

} // verus!
