//! Mailboxes: the single-consumer FIFO behind an address.

use vstd::prelude::*;
use tokio::sync::mpsc::{Receiver, UnboundedReceiver};
use crate::actor::MailboxType;
use crate::address::Addr;
use crate::message::{Carrier, Message};
use crate::bindings::{open_bounded, open_unbounded, pull_bounded, pull_unbounded, Received, MAX_MAILBOX_CAPACITY};

verus! {

/// The receiving half of a mailbox. A host that awaits envelopes reads it directly.
#[verifier::reject_recursive_types(P)]
pub enum Queue<P> {
    Bounded(Receiver<Message<P>>),
    Unbounded(UnboundedReceiver<Message<P>>),
}

/// A mailbox and the address that leads to it.
#[verifier::reject_recursive_types(P)]
pub struct Mailbox<P> {
    queue: Queue<P>,
    addr: Addr<P>,
    kind: MailboxType,
}

impl<P: Carrier> Mailbox<P> {
    /// Whether the mailbox is bounded.
    pub closed spec fn is_bounded_spec(&self) -> bool {
        self.queue is Bounded
    }

    /// The kind and capacity the mailbox was made with.
    pub closed spec fn kind_spec(&self) -> MailboxType {
        self.kind
    }

    /// The address that leads to this mailbox; every address it hands out equals it.
    pub closed spec fn addr_spec(&self) -> Addr<P> {
        self.addr
    }

    /// A mailbox that holds at most `buffer_size` envelopes.
    pub fn bounded(buffer_size: usize) -> (r: Self)
        requires
            1 <= buffer_size <= MAX_MAILBOX_CAPACITY,
        ensures
            r.is_bounded_spec(),
            r.kind_spec() == MailboxType::Bounded(buffer_size),
            r.addr_spec().is_bounded_spec(),
    {
        let (tx, rx) = open_bounded(buffer_size);
        Mailbox { queue: Queue::Bounded(rx), addr: Addr::bounded(tx), kind: MailboxType::Bounded(buffer_size) }
    }

    /// A mailbox limited only by memory.
    pub fn unbounded() -> (r: Self)
        ensures
            !r.is_bounded_spec(),
            r.kind_spec() == MailboxType::Unbounded,
            !r.addr_spec().is_bounded_spec(),
    {
        let (tx, rx) = open_unbounded();
        Mailbox { queue: Queue::Unbounded(rx), addr: Addr::unbounded(tx), kind: MailboxType::Unbounded }
    }

    /// Takes the oldest envelope without waiting.
    pub fn try_next(&mut self) -> (r: Received<Message<P>>)
        ensures
            final(self).is_bounded_spec() == old(self).is_bounded_spec(),
            final(self).kind_spec() == old(self).kind_spec(),
            final(self).addr_spec() == old(self).addr_spec(),
    {
        match &mut self.queue {
            Queue::Bounded(rx) => pull_bounded(rx),
            Queue::Unbounded(rx) => pull_unbounded(rx),
        }
    }

    /// The receiving half, for a host that awaits the next envelope.
    pub fn queue(&mut self) -> (r: &mut Queue<P>)
        ensures
            final(self).addr_spec() == old(self).addr_spec(),
            final(self).kind_spec() == old(self).kind_spec(),
    {
        &mut self.queue
    }

    /// A new handle to this mailbox.
    pub fn get_addr(&self) -> (r: Addr<P>)
        ensures
            r == self.addr_spec(),
    {
        self.addr.duplicate()
    }
}

} // verus!
