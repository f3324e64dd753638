//! Addresses: cheap handles that enqueue envelopes into one mailbox.

use vstd::prelude::*;
use tokio::sync::mpsc::{Sender, UnboundedSender};
use crate::message::{Carrier, Message};
use crate::bindings::{clone_bounded, clone_unbounded, current_runtime, push_from_blocking_task, push_unbounded, try_push_bounded};

verus! {

#[verifier::reject_recursive_types(P)]
enum SenderType<P> {
    Unbounded(UnboundedSender<Message<P>>),
    Bounded(Sender<Message<P>>),
}

/// The address of an actor. All clones enqueue into the same mailbox; sends after
/// the mailbox is gone are dropped silently.
#[verifier::reject_recursive_types(P)]
pub struct Addr<P> {
    tx: SenderType<P>,
}

impl<P: Carrier> Addr<P> {
    /// Whether the address leads to a bounded mailbox.
    pub closed spec fn is_bounded_spec(&self) -> bool {
        self.tx is Bounded
    }

    pub(crate) fn unbounded(tx: UnboundedSender<Message<P>>) -> (r: Self)
        ensures
            !r.is_bounded_spec(),
    {
        Addr { tx: SenderType::Unbounded(tx) }
    }

    pub(crate) fn bounded(tx: Sender<Message<P>>) -> (r: Self)
        ensures
            r.is_bounded_spec(),
    {
        Addr { tx: SenderType::Bounded(tx) }
    }

    /// Whether the address leads to a bounded mailbox.
    pub fn is_bounded(&self) -> (r: bool)
        ensures
            r == self.is_bounded_spec(),
    {
        match &self.tx {
            SenderType::Unbounded(_) => false,
            SenderType::Bounded(_) => true,
        }
    }

    /// Enqueues an envelope. Into an unbounded mailbox this happens at once; a full
    /// bounded mailbox gets the envelope from a separate task once it has room, so
    /// the caller never blocks.
    pub fn send(&self, msg: Message<P>) {
        match &self.tx {
            SenderType::Unbounded(tx) => {
                let _ = push_unbounded(tx, msg);
            },
            SenderType::Bounded(tx) => {
                let back = try_push_bounded(tx, msg);
                if let Some(msg) = back {
                    // full: a blocking task of the runtime waits for room;
                    // outside a runtime the envelope is dropped
                    if let Some(h) = current_runtime() {
                        push_from_blocking_task(&h, clone_bounded(tx), msg);
                    }
                }
            },
        }
    }

    /// Sends `msg` without a reply address.
    pub fn tell<M: Send + 'static>(&self, msg: M) {
        let msg = Message::without_sender(msg);
        self.send(msg);
    }

    /// Sends `msg` with `reply_to` as its reply address.
    pub fn ask<M: Send + 'static>(&self, msg: M, reply_to: Addr<P>) {
        let msg = Message::with_sender(msg, reply_to);
        self.send(msg);
    }
}

impl<P: Carrier> Addr<P> {
    /// Another handle to the same mailbox.
    pub fn duplicate(&self) -> (r: Self)
        ensures
            r == *self,
    {
        match &self.tx {
            SenderType::Unbounded(tx) => Addr { tx: SenderType::Unbounded(clone_unbounded(tx)) },
            SenderType::Bounded(tx) => Addr { tx: SenderType::Bounded(clone_bounded(tx)) },
        }
    }
}

impl<P: Carrier> Clone for Addr<P> {
    fn clone(&self) -> (r: Self) {
        self.duplicate()
    }
}

} // verus!
