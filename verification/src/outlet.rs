//! Unbounded channels out of the node: nobody else can send on them.

use tokio::sync::mpsc::{UnboundedReceiver, UnboundedSender};
use vstd::prelude::*;

use crate::link::{hand_over, new_channel};

verus! {

/// What an [`Outlet`] stands for.
#[verifier::ext_equal]
#[verifier::reject_recursive_types(T)]
pub struct OutletModel<T> {
    /// The sending end.
    pub tx: UnboundedSender<T>,
    /// The receiving end, until it is taken.
    pub rx: Option<UnboundedReceiver<T>>,
    /// All messages that were ever handed to the sending end, oldest first. There are no others:
    /// the sending end never leaves the outlet, and [`Outlet::send`] records what it hands over.
    pub handed: Seq<T>,
}

impl<T> OutletModel<T> {
    /// The outlet after `message` was handed to its sending end.
    pub open spec fn hand(self, message: T) -> OutletModel<T> {
        OutletModel { handed: self.handed.push(message), ..self }
    }

    /// The outlet after its receiving end was given away.
    pub open spec fn taken(self) -> OutletModel<T> {
        OutletModel { rx: None, ..self }
    }

    /// Whether the receiving end, if it is still there, is of one channel with the sending end.
    pub open spec fn joined(self) -> bool {
        self.rx matches Some(rx) ==> crate::link::one_channel(self.tx, rx)
    }

    /// Whether every message on record was handed to the sending end.
    pub open spec fn delivered(self) -> bool {
        forall|i: int|
            0 <= i < self.handed.len() ==> crate::link::was_handed_over(
                self.tx,
                #[trigger] self.handed[i],
            )
    }

    /// Whether the outlet holds both ends of one channel, and nothing was sent on it.
    pub open spec fn fresh(self) -> bool {
        self.rx is Some && self.joined() && self.handed.len() == 0
    }
}

/// Both ends of one unbounded channel, whose sending end stays here.
#[verifier::reject_recursive_types(T)]
pub struct Outlet<T> {
    tx: UnboundedSender<T>,
    rx: Option<UnboundedReceiver<T>>,
    handed: Ghost<Seq<T>>,
}

impl<T> View for Outlet<T> {
    type V = OutletModel<T>;

    closed spec fn view(&self) -> OutletModel<T> {
        OutletModel { tx: self.tx, rx: self.rx, handed: self.handed@ }
    }
}

impl<T> Outlet<T> {
    /// The two ends belong together, and what is on record was handed over.
    #[verifier::type_invariant]
    pub open spec fn sound(self) -> bool {
        self@.joined() && self@.delivered()
    }

    /// A new channel, with both ends held by the outlet.
    pub fn new() -> (outlet: Self)
        ensures
            outlet@.fresh(),
    {
        let (tx, rx) = new_channel();
        Outlet { tx, rx: Some(rx), handed: Ghost(Seq::empty()) }
    }

    /// Gives away the receiving end, which the outlet then no longer has.
    pub fn take_receiver(&mut self) -> (rx: Option<UnboundedReceiver<T>>)
        ensures
            rx == old(self)@.rx,
            rx matches Some(rx) ==> crate::link::one_channel(old(self)@.tx, rx),
            final(self)@ == old(self)@.taken(),
    {
        proof {
            use_type_invariant(&*self);
        }
        let mut rx: Option<UnboundedReceiver<T>> = None;
        std::mem::swap(&mut self.rx, &mut rx);
        rx
    }

    /// Hands `message` to the sending end. It comes back if nobody can receive it any more.
    pub fn send(&mut self, message: T) -> (sent: Result<(), T>)
        ensures
            crate::link::handed_over(old(self)@.tx, message, sent),
            sent matches Err(returned) ==> returned == message,
            final(self)@ == old(self)@.hand(message),
    {
        proof {
            use_type_invariant(&*self);
        }
        let ghost handed = self.handed@.push(message);
        let sent = hand_over(&self.tx, message);
        self.handed = Ghost(handed);
        sent
    }
}

} // verus!
