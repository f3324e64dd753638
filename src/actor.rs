//! Actors: state, behavior, mailbox and context, and the decisions of the run loop.

use vstd::prelude::*;
use std::sync::Arc;
use crate::address::Addr;
use crate::behavior::{copied_behavior, Behavior, BehaviorAction, Handler, Hook, StatePredicate};
use crate::mailbox::Mailbox;
use crate::message::{Carrier, Message};
use crate::bindings::{Received, MAX_MAILBOX_CAPACITY};
use crate::actor_system::{ActorSystem, ActorSystemError};

verus! {

/// Why an actor left its run loop.
#[derive(Clone, Copy, Debug, PartialEq, Eq, Structural)]
pub enum ExitReason {
    Kill,
    Restart,
    Error,
}

/// The capacity of an actor's mailbox.
#[derive(Clone, Copy, Debug, PartialEq, Eq, Structural)]
pub enum MailboxType {
    /// At most this many envelopes wait; further sends wait for room on a task of
    /// their own.
    Bounded(usize),
    /// Limited only by memory.
    Unbounded,
}

/// The run-control flag of an actor.
#[derive(Clone, Copy, Debug, PartialEq, Eq, Structural)]
pub enum ContextFlag {
    Run,
    Kill,
    Restart,
}

/// What an actor can do from inside its handlers: reach its own address, the
/// system it runs in, and its run-control flag.
#[verifier::reject_recursive_types(P)]
pub struct ActorContext<P> {
    addr: Addr<P>,
    flag: ContextFlag,
    sys: Option<Arc<ActorSystem<P>>>,
}

impl<P: Carrier> ActorContext<P> {
    /// The run-control flag.
    pub closed spec fn flag_spec(&self) -> ContextFlag {
        self.flag
    }

    /// Whether the actor has joined a system.
    pub closed spec fn spawned_spec(&self) -> bool {
        self.sys is Some
    }

    /// The actor's own address.
    pub closed spec fn addr_spec(&self) -> Addr<P> {
        self.addr
    }

    pub fn new(addr: Addr<P>) -> (r: Self)
        ensures
            r.flag_spec() == ContextFlag::Run,
            !r.spawned_spec(),
            r.addr_spec() == addr,
    {
        ActorContext { addr, flag: ContextFlag::Run, sys: None }
    }

    /// Records the system the actor has joined.
    pub fn set_actor_sys(&mut self, sys: Arc<ActorSystem<P>>)
        ensures
            final(self).spawned_spec(),
            final(self).flag_spec() == old(self).flag_spec(),
            final(self).addr_spec() == old(self).addr_spec(),
    {
        self.sys = Some(sys);
    }

    /// The system the actor has joined, if any.
    pub fn system(&self) -> (r: Option<Arc<ActorSystem<P>>>)
        ensures
            r is Some == self.spawned_spec(),
    {
        match &self.sys {
            None => None,
            Some(sys) => Some(crate::bindings::share(sys)),
        }
    }

    /// The run-control flag.
    pub fn flag(&self) -> (r: ContextFlag)
        ensures
            r == self.flag_spec(),
    {
        self.flag
    }

    /// Looks up another actor of the system by name; `None` before the actor has
    /// joined a system.
    pub fn query(&self, name: &str) -> (r: Option<Addr<P>>)
        ensures
            !self.spawned_spec() ==> r is None,
    {
        match &self.sys {
            None => None,
            Some(sys) => sys.query(name),
        }
    }

    /// Stops the whole system; nothing happens before the actor has joined one.
    pub fn stop(&self) {
        match &self.sys {
            None => {},
            Some(sys) => sys.stop(),
        }
    }

    /// The actor's own address.
    pub fn get_addr(&self) -> (r: Addr<P>)
        ensures
            r == self.addr_spec(),
    {
        self.addr.duplicate()
    }

    /// Puts the flag back to running, as a new life of the actor begins.
    pub fn resume(&mut self)
        ensures
            final(self).flag_spec() == ContextFlag::Run,
            final(self).spawned_spec() == old(self).spawned_spec(),
            final(self).addr_spec() == old(self).addr_spec(),
    {
        self.flag = ContextFlag::Run;
    }

    /// Asks the run loop to kill the actor once the current handler returns.
    pub fn kill(&mut self)
        ensures
            final(self).flag_spec() == ContextFlag::Kill,
            final(self).spawned_spec() == old(self).spawned_spec(),
            final(self).addr_spec() == old(self).addr_spec(),
    {
        self.flag = ContextFlag::Kill;
    }

    /// Asks the run loop to restart the actor once the current handler returns.
    pub fn restart(&mut self)
        ensures
            final(self).flag_spec() == ContextFlag::Restart,
            final(self).spawned_spec() == old(self).spawned_spec(),
            final(self).addr_spec() == old(self).addr_spec(),
    {
        self.flag = ContextFlag::Restart;
    }

    /// Registers `actor` under `name` in this actor's system and records that
    /// system as the new actor's; an actor that has not joined a system yet
    /// cannot do this. The caller then runs the new actor.
    pub fn enroll<S: Send + 'static, H: Handler<S, P, Behavior<S, P, H>>>(&self, actor: &mut Actor<S, P, H>, name: String) -> (r: Result<(), ActorSystemError>)
        ensures
            !self.spawned_spec() ==> r == Err::<(), ActorSystemError>(ActorSystemError::ActorNotSpawnedYet) && *final(actor) == *old(actor),
            self.spawned_spec() ==> (r is Err ==> r == Err::<(), ActorSystemError>(ActorSystemError::ActorNameAlreadyInUse) && *final(actor) == *old(actor)),
            r is Ok ==> final(actor).context_spec().spawned_spec(),
            final(actor).state_spec() == old(actor).state_spec(),
            final(actor).behavior_spec() == old(actor).behavior_spec(),
    {
        match &self.sys {
            None => Err(ActorSystemError::ActorNotSpawnedYet),
            Some(sys) => actor.join_system(sys, name),
        }
    }

    /// Sends a clone of `msg` to every actor of the system.
    pub fn broadcast_tell<M: Clone + Send + 'static>(&self, msg: M) -> (r: Result<(), ActorSystemError>)
        ensures
            r == (if self.spawned_spec() { Ok(()) } else { Err(ActorSystemError::ActorNotSpawnedYet) }),
    {
        match &self.sys {
            None => Err(ActorSystemError::ActorNotSpawnedYet),
            Some(sys) => {
                sys.broadcast_tell(msg);
                Ok(())
            },
        }
    }

    /// Sends a clone of `msg` to every actor of the system, with a reply address.
    pub fn broadcast_ask<M: Clone + Send + 'static>(&self, msg: M, reply_to: Addr<P>) -> (r: Result<(), ActorSystemError>)
        ensures
            r == (if self.spawned_spec() { Ok(()) } else { Err(ActorSystemError::ActorNotSpawnedYet) }),
    {
        match &self.sys {
            None => Err(ActorSystemError::ActorNotSpawnedYet),
            Some(sys) => {
                sys.broadcast_ask(msg, reply_to);
                Ok(())
            },
        }
    }
}


/// A snapshot of an actor's initial state and behavior, from which a supervised
/// actor is restarted.
#[verifier::reject_recursive_types(S)]
#[verifier::reject_recursive_types(P)]
pub struct Backup<S, P, H> {
    state: S,
    behavior: Behavior<S, P, H>,
}

impl<S: Clone, P, H: Clone> Backup<S, P, H> {
    /// The stored state.
    pub closed spec fn state_spec(&self) -> S {
        self.state
    }

    /// The stored behavior.
    pub closed spec fn behavior_spec(&self) -> Behavior<S, P, H> {
        self.behavior
    }

    pub fn new(state: S, behavior: Behavior<S, P, H>) -> (r: Self)
        ensures
            r.state_spec() == state,
            r.behavior_spec() == behavior,
    {
        Backup { state, behavior }
    }

    /// A clone of the stored state.
    pub fn get_state(&self) -> (r: S)
        ensures
            cloned(self.state_spec(), r),
    {
        self.state.clone()
    }

    /// A copy of the stored behavior.
    pub fn get_behavior(&self) -> (r: Behavior<S, P, H>)
        ensures
            copied_behavior(self.behavior_spec(), r),
    {
        self.behavior.duplicate()
    }
}

/// An actor: private state, the current behavior, a mailbox with its address, and
/// the context its handlers see.
#[verifier::reject_recursive_types(S)]
#[verifier::reject_recursive_types(P)]
pub struct Actor<S, P, H> {
    state: S,
    behavior: Behavior<S, P, H>,
    mailbox: Mailbox<P>,
    addr: Addr<P>,
    context: ActorContext<P>,
}

impl<S, P: Carrier, H> Actor<S, P, H> {
    /// The actor's state.
    pub closed spec fn state_spec(&self) -> S {
        self.state
    }

    /// The actor's current behavior.
    pub closed spec fn behavior_spec(&self) -> Behavior<S, P, H> {
        self.behavior
    }

    /// The context its handlers see.
    pub closed spec fn context_spec(&self) -> ActorContext<P> {
        self.context
    }

    /// The actor's address.
    pub closed spec fn addr_spec(&self) -> Addr<P> {
        self.addr
    }

    /// The actor's mailbox.
    pub closed spec fn mailbox_spec(&self) -> Mailbox<P> {
        self.mailbox
    }
}

impl<S: Send + 'static, P: Carrier, H: Handler<S, P, Behavior<S, P, H>>> Actor<S, P, H> {
    /// An actor with the given initial state and behavior and a mailbox of the
    /// given kind. It runs once a host spawns it into a system.
    pub fn new(state: S, behavior: Behavior<S, P, H>, mailbox_type: MailboxType) -> (r: Self)
        requires
            mailbox_type matches MailboxType::Bounded(n) ==> 1 <= n <= MAX_MAILBOX_CAPACITY,
        ensures
            r.state_spec() == state,
            r.behavior_spec() == behavior,
            r.context_spec().flag_spec() == ContextFlag::Run,
            !r.context_spec().spawned_spec(),
            r.mailbox_spec().kind_spec() == mailbox_type,
            r.mailbox_spec().is_bounded_spec() == mailbox_type is Bounded,
            r.addr_spec() == r.mailbox_spec().addr_spec(),
            r.context_spec().addr_spec() == r.addr_spec(),
    {
        let mailbox = match mailbox_type {
            MailboxType::Bounded(buffer_size) => Mailbox::bounded(buffer_size),
            MailboxType::Unbounded => Mailbox::unbounded(),
        };
        let addr = mailbox.get_addr();
        let ctx = ActorContext::new(addr.duplicate());
        Actor { state, behavior, mailbox, addr, context: ctx }
    }

    /// The actor's address.
    pub fn get_addr(&self) -> (r: Addr<P>)
        ensures
            r == self.addr_spec(),
    {
        self.addr.duplicate()
    }

    /// Applies `check` to the actor's state.
    pub fn check_state<Q: StatePredicate<S> + ?Sized>(&self, check: &Q) -> (r: bool) {
        check.holds(&self.state)
    }

    /// Records the system the actor has joined.
    pub fn set_actor_sys(&mut self, sys: Arc<ActorSystem<P>>)
        ensures
            final(self).context_spec().spawned_spec(),
            final(self).context_spec().flag_spec() == old(self).context_spec().flag_spec(),
            final(self).state_spec() == old(self).state_spec(),
            final(self).behavior_spec() == old(self).behavior_spec(),
    {
        self.context.set_actor_sys(sys);
    }

    /// Registers the actor under `name` in `sys` and, when the name was free,
    /// records `sys` as its system. A taken name leaves the actor as it was.
    pub fn join_system(&mut self, sys: &Arc<ActorSystem<P>>, name: String) -> (r: Result<(), ActorSystemError>)
        ensures
            r is Ok ==> final(self).context_spec().spawned_spec(),
            r is Err ==> r == Err::<(), ActorSystemError>(ActorSystemError::ActorNameAlreadyInUse)
                && *final(self) == *old(self),
            final(self).state_spec() == old(self).state_spec(),
            final(self).behavior_spec() == old(self).behavior_spec(),
            final(self).context_spec().flag_spec() == old(self).context_spec().flag_spec(),
    {
        let res = sys.register(name, self.addr.clone());
        match res {
            Ok(()) => {
                self.context.set_actor_sys(crate::bindings::share(sys));
                Ok(())
            },
            Err(e) => Err(e),
        }
    }

    fn run_hook(&mut self, hook: Option<Arc<dyn Hook<S, P>>>)
        ensures
            final(self).behavior_spec() == old(self).behavior_spec(),
            hook is None ==> *final(self) == *old(self),
            final(self).addr_spec() == old(self).addr_spec(),
            final(self).mailbox_spec() == old(self).mailbox_spec(),
    {
        match hook {
            None => {},
            Some(f) => f.run(&mut self.state, &mut self.context),
        }
    }

    /// Begins a life of the actor: the control flag is set to running and the
    /// start hook runs.
    pub fn start(&mut self)
        ensures
            final(self).behavior_spec() == old(self).behavior_spec(),
            final(self).addr_spec() == old(self).addr_spec(),
            final(self).mailbox_spec() == old(self).mailbox_spec(),
            old(self).behavior_spec()@.on_start is None ==> final(self).state_spec() == old(self).state_spec()
                && final(self).context_spec().flag_spec() == ContextFlag::Run,
    {
        self.context.resume();
        let hook = self.behavior.start_hook();
        self.run_hook(hook);
    }

    /// The decision at the top of the run loop. A running actor goes on; a killed
    /// one runs its kill hook and exits with `Kill`; one to be restarted runs its
    /// restart hook and exits with `Restart`.
    pub fn control(&mut self) -> (r: Option<ExitReason>)
        ensures
            final(self).behavior_spec() == old(self).behavior_spec(),
            final(self).addr_spec() == old(self).addr_spec(),
            final(self).mailbox_spec() == old(self).mailbox_spec(),
            r == (match old(self).context_spec().flag_spec() {
                ContextFlag::Run => None,
                ContextFlag::Kill => Some(ExitReason::Kill),
                ContextFlag::Restart => Some(ExitReason::Restart),
            }),
            r is None ==> *final(self) == *old(self),
    {
        match self.context.flag() {
            ContextFlag::Run => None,
            ContextFlag::Kill => {
                let hook = self.behavior.kill_hook();
                self.run_hook(hook);
                Some(ExitReason::Kill)
            },
            ContextFlag::Restart => {
                let hook = self.behavior.restart_hook();
                self.run_hook(hook);
                Some(ExitReason::Restart)
            },
        }
    }

    /// Carries out what a handler returned: keep the behavior, install the new
    /// one, or run the error hook and exit with `Error`.
    pub fn apply(&mut self, action: BehaviorAction<Behavior<S, P, H>>) -> (r: Option<ExitReason>)
        ensures
            final(self).addr_spec() == old(self).addr_spec(),
            final(self).mailbox_spec() == old(self).mailbox_spec(),
            match action {
                BehaviorAction::Keep => r is None && *final(self) == *old(self),
                BehaviorAction::Change(b) => r is None && final(self).behavior_spec() == b
                    && final(self).state_spec() == old(self).state_spec()
                    && final(self).context_spec() == old(self).context_spec(),
                BehaviorAction::Fail(_) => r == Some(ExitReason::Error)
                    && final(self).behavior_spec() == old(self).behavior_spec(),
            },
    {
        match action {
            BehaviorAction::Keep => None,
            BehaviorAction::Change(b) => {
                self.behavior = b;
                None
            },
            BehaviorAction::Fail(_) => {
                let hook = self.behavior.error_hook();
                self.run_hook(hook);
                Some(ExitReason::Error)
            },
        }
    }

    /// Handles what the mailbox gave: a closed mailbox ends the actor with `Kill`;
    /// an envelope is dispatched through the current behavior and its handler's
    /// action applied. An envelope that the behavior does not handle changes
    /// nothing.
    pub fn deliver(&mut self, next: Option<Message<P>>) -> (r: Option<ExitReason>)
        ensures
            next is None ==> r == Some(ExitReason::Kill) && *final(self) == *old(self),
            next is Some ==> r is None || r == Some(ExitReason::Error),
            final(self).addr_spec() == old(self).addr_spec(),
            final(self).mailbox_spec() == old(self).mailbox_spec(),
            next is Some ==> old(self).behavior_spec().drops(next->Some_0.key_spec(), next->Some_0.asks_spec())
                ==> r is None && *final(self) == *old(self),
            next is Some ==> old(self).behavior_spec().manages(next->Some_0.key_spec(), next->Some_0.asks_spec())
                ==> final(self).behavior_spec() == old(self).behavior_spec()
                && (r is None || r == Some(ExitReason::Error))
                && (r is None ==> final(self).state_spec() == old(self).state_spec()
                && final(self).context_spec().flag_spec() != ContextFlag::Run),
            next is Some ==> old(self).behavior_spec().checks(next->Some_0.key_spec(), next->Some_0.asks_spec())
                ==> final(self).behavior_spec() == old(self).behavior_spec()
                && (r is None || r == Some(ExitReason::Error))
                && (r is None ==> final(self).state_spec() == old(self).state_spec()
                && final(self).context_spec() == old(self).context_spec()),
    {
        match next {
            None => Some(ExitReason::Kill),
            Some(msg) => {
                let action = self.behavior.handle(msg, &mut self.state, &mut self.context);
                self.apply(action)
            },
        }
    }

    /// Runs the loop without waiting: takes envelopes while the mailbox has any, at
    /// most `limit` of them. `Some` is the exit reason if the actor left its loop;
    /// `None` means it is still running.
    pub fn run_ready(&mut self, limit: usize) -> (r: Option<ExitReason>)
        ensures
            old(self).context_spec().flag_spec() == ContextFlag::Kill ==> r == Some(ExitReason::Kill),
            old(self).context_spec().flag_spec() == ContextFlag::Restart ==> r == Some(ExitReason::Restart),
            r is None ==> final(self).context_spec().flag_spec() == ContextFlag::Run,
            final(self).addr_spec() == old(self).addr_spec(),
    {
        let mut n: usize = 0;
        while n < limit
            invariant
                n <= limit,
                n == 0 ==> *self == *old(self),
                n > 0 ==> old(self).context_spec().flag_spec() == ContextFlag::Run,
                self.addr_spec() == old(self).addr_spec(),
            decreases limit - n,
        {
            let c = self.control();
            if c.is_some() {
                return c;
            }
            let next = match self.mailbox.try_next() {
                Received::Empty => {
                    return None;
                },
                Received::Closed => None,
                Received::Item(m) => Some(m),
            };
            let d = self.deliver(next);
            if d.is_some() {
                return d;
            }
            n = n + 1;
        }
        self.control()
    }

    /// The mailbox, for a host that awaits the next envelope.
    pub fn mailbox(&mut self) -> (r: &mut Mailbox<P>) {
        &mut self.mailbox
    }
}

impl<S: Send + Clone + 'static, P: Carrier, H: Handler<S, P, Behavior<S, P, H>> + Clone> Actor<S, P, H> {
    /// A snapshot of the current state and behavior.
    pub fn create_backup(&self) -> (r: Backup<S, P, H>)
        ensures
            cloned(self.state_spec(), r.state_spec()),
            copied_behavior(self.behavior_spec(), r.behavior_spec()),
    {
        Backup::new(self.state.clone(), self.behavior.duplicate())
    }

    /// Replaces the state and behavior by copies of the snapshot's.
    pub fn apply_backup(&mut self, backup: &Backup<S, P, H>)
        ensures
            cloned(backup.state_spec(), final(self).state_spec()),
            copied_behavior(backup.behavior_spec(), final(self).behavior_spec()),
            final(self).context_spec() == old(self).context_spec(),
            final(self).addr_spec() == old(self).addr_spec(),
            final(self).mailbox_spec() == old(self).mailbox_spec(),
    {
        self.state = backup.get_state();
        self.behavior = backup.get_behavior();
    }
}

} // verus!
