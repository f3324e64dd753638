//! The message envelope: a type-erased payload, the identity of its type, and
//! whether it carries an address to reply to.

use vstd::prelude::*;
use std::any::TypeId;
use crate::address::Addr;
use crate::bindings::type_key_of;

verus! {

/// A type-erased payload together with an optional reply address.
///
/// The host supplies the carrier (typically a box of `dyn Any + Send`). The
/// kernel never looks into it: it records the payload's type identity and the
/// presence of a reply address itself when it builds an envelope, and routes on
/// those.
pub trait Carrier: Sized + Send + 'static {
    /// Wraps `payload`, remembering `reply_to`.
    fn pack<M: Send + 'static>(payload: M, reply_to: Option<Addr<Self>>) -> Self;

    /// The reply address stored by `pack`.
    fn reply_to(&self) -> Option<Addr<Self>>;

    /// The payload as an `M`, or `None` when it is of another type.
    fn unpack<M: Send + 'static>(self) -> Option<M>;
}

/// All messages that travel between actors are envelopes. The payload is owned by
/// the envelope and moved into the handler that consumes it.
#[verifier::reject_recursive_types(P)]
pub struct Message<P> {
    key: TypeId,
    asks: bool,
    body: P,
}

impl<P: Carrier> Message<P> {
    /// The identity of the payload's concrete type.
    pub closed spec fn key_spec(&self) -> TypeId {
        self.key
    }

    /// Whether the envelope carries a reply address (an ask) or not (a tell).
    pub closed spec fn asks_spec(&self) -> bool {
        self.asks
    }

    /// An envelope for `obj` with `sender` as its reply address.
    pub fn with_sender<M: Send + 'static>(obj: M, sender: Addr<P>) -> (r: Self)
        ensures
            r.asks_spec(),
    {
        Message { key: type_key_of::<M>(), asks: true, body: P::pack(obj, Some(sender)) }
    }

    /// An envelope for `obj` without a reply address.
    pub fn without_sender<M: Send + 'static>(obj: M) -> (r: Self)
        ensures
            !r.asks_spec(),
    {
        Message { key: type_key_of::<M>(), asks: false, body: P::pack(obj, None) }
    }

    /// The identity of the payload's concrete type.
    pub fn type_id(&self) -> (r: TypeId)
        ensures
            r == self.key_spec(),
    {
        self.key
    }

    /// Whether a reply address came with the payload.
    pub fn has_sender(&self) -> (r: bool)
        ensures
            r == self.asks_spec(),
    {
        self.asks
    }

    /// The reply address, when the envelope is an ask.
    pub fn sender(&self) -> (r: Option<Addr<P>>)
        ensures
            !self.asks_spec() ==> r is None,
    {
        if self.asks {
            self.body.reply_to()
        } else {
            None
        }
    }

    /// Consumes the envelope and yields its payload as an `M`; `None` when the
    /// payload is of another type.
    pub fn downcast<M: Send + 'static>(self) -> (r: Option<M>) {
        self.body.unpack::<M>()
    }
}

/// A payload that is sent to many actors: each receives its own clone.
#[verifier::reject_recursive_types(P)]
pub struct BroadcastMessage<M, P> {
    inner: M,
    addr: Option<Addr<P>>,
}

impl<M: Clone + Send + 'static, P: Carrier> BroadcastMessage<M, P> {
    /// Whether each copy goes out with a reply address.
    pub closed spec fn has_reply_spec(&self) -> bool {
        self.addr is Some
    }

    pub fn without_sender(obj: M) -> (r: Self)
        ensures
            r.has_reply_spec() == false,
    {
        BroadcastMessage { inner: obj, addr: None }
    }

    pub fn with_sender(obj: M, sender: Addr<P>) -> (r: Self)
        ensures
            r.has_reply_spec(),
    {
        BroadcastMessage { inner: obj, addr: Some(sender) }
    }

    /// A fresh envelope holding a clone of the payload; it asks exactly when a
    /// reply address was given.
    pub fn get_message(&self) -> (r: Message<P>)
        ensures
            r.asks_spec() == self.has_reply_spec(),
    {
        let inner = self.inner.clone();
        match &self.addr {
            None => Message::without_sender(inner),
            Some(addr) => Message::with_sender(inner, addr.clone()),
        }
    }
}

} // verus!
