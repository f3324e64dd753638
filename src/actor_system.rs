//! The actor system's shared core: the registry of live actors by unique name,
//! broadcast, and the stop signal.

use vstd::prelude::*;
use std::sync::Arc;
use dashmap::DashMap;
use crate::address::Addr;
use crate::message::{BroadcastMessage, Carrier};
use crate::bindings::{
    registry_claim, registry_clear, registry_get, registry_len, registry_new, registry_remove,
    registry_values, signal_get, signal_new, signal_set, signal_subscribe,
};

verus! {

/// Errors that the actor system hands back to its callers.
#[derive(Clone, Copy, Debug, PartialEq, Eq, Structural)]
pub enum ActorSystemError {
    /// Another live actor already has the name.
    ActorNameAlreadyInUse,
    /// The calling actor has not joined a system yet.
    ActorNotSpawnedYet,
}

impl ActorSystemError {
    /// A description of the error.
    pub fn message(&self) -> (r: &'static str) {
        match self {
            ActorSystemError::ActorNameAlreadyInUse => "An actor with the same name already exists in the registry!",
            ActorSystemError::ActorNotSpawnedYet => "This actor has not been spawned yet!",
        }
    }
}

/// What a registration attempt amounts to, given whether the registry took the name.
pub fn registration_outcome(claimed: bool) -> (r: Result<(), ActorSystemError>)
    ensures
        r == (if claimed { Ok(()) } else { Err(ActorSystemError::ActorNameAlreadyInUse) }),
{
    if claimed {
        Ok(())
    } else {
        Err(ActorSystemError::ActorNameAlreadyInUse)
    }
}

/// The registry of an actor system and its stop signal. It is shared by every
/// actor of the system and by the host that runs them; names are unique because a
/// name is claimed in one step under the registry's entry lock.
#[verifier::reject_recursive_types(P)]
pub struct ActorSystem<P> {
    registry: DashMap<String, Addr<P>>,
    stopped: tokio::sync::watch::Sender<bool>,
}

impl<P: Carrier> ActorSystem<P> {
    /// A new, empty system.
    pub fn new() -> (r: Arc<Self>) {
        Arc::new(ActorSystem { registry: registry_new(), stopped: signal_new(false) })
    }

    /// Registers `addr` under `name`, unless a live actor already has that name.
    pub fn register(&self, name: String, addr: Addr<P>) -> (r: Result<(), ActorSystemError>)
        ensures
            r is Err ==> r == Err::<(), ActorSystemError>(ActorSystemError::ActorNameAlreadyInUse),
    {
        let claimed = registry_claim(&self.registry, name, addr);
        registration_outcome(claimed)
    }

    /// Removes `name` from the registry; `r` says whether it was there.
    pub fn deregister(&self, name: &str) -> (r: bool) {
        registry_remove(&self.registry, name)
    }

    /// The address registered under `name`, if any.
    pub fn query(&self, name: &str) -> (r: Option<Addr<P>>) {
        registry_get(&self.registry, name)
    }

    /// The number of registered actors.
    pub fn len(&self) -> (r: usize) {
        registry_len(&self.registry)
    }

    /// Whether no actor is registered any more.
    pub fn is_empty(&self) -> (r: bool) {
        registry_len(&self.registry) == 0
    }

    /// Sends a clone of `msg` to every actor registered when the call looks at the
    /// registry, without a reply address.
    pub fn broadcast_tell<M: Clone + Send + 'static>(&self, msg: M) {
        let b = BroadcastMessage::<M, P>::without_sender(msg);
        self.broadcast(&b);
    }

    /// Sends a clone of `msg` to every registered actor, with `reply_to` as the
    /// reply address.
    pub fn broadcast_ask<M: Clone + Send + 'static>(&self, msg: M, reply_to: Addr<P>) {
        let b = BroadcastMessage::<M, P>::with_sender(msg, reply_to);
        self.broadcast(&b);
    }

    fn broadcast<M: Clone + Send + 'static>(&self, b: &BroadcastMessage<M, P>) {
        let addrs = registry_values(&self.registry);
        let mut i: usize = 0;
        while i < addrs.len()
            decreases addrs.len() - i,
        {
            addrs[i].send(b.get_message());
            i = i + 1;
        }
    }

    /// Stops the system: the registry is emptied and the stop signal is raised, so
    /// that the host cancels every actor at its next suspension point.
    pub fn stop(&self) {
        registry_clear(&self.registry);
        signal_set(&self.stopped, true);
    }

    /// Whether `stop` has been called.
    pub fn is_stopped(&self) -> (r: bool) {
        signal_get(&self.stopped)
    }

    /// A receiver of the stop signal, for a host that awaits it.
    pub fn stop_signal(&self) -> (r: tokio::sync::watch::Receiver<bool>) {
        signal_subscribe(&self.stopped)
    }
}

} // verus!
