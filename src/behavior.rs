//! Behaviors: type-keyed handler tables for asks and tells, lifecycle hooks, and
//! the two protocols every actor understands (management, state checks).

use vstd::prelude::*;
use std::any::TypeId;
use std::marker::PhantomData;
use std::sync::Arc;
use crate::actor::{ActorContext, ContextFlag};
use crate::address::Addr;
use crate::message::{Carrier, Message};
use crate::bindings::{same_type, share, type_key_of};

verus! {

/// The management protocol, understood by every built behavior: a tell of `Kill`
/// or `Restart` sets the actor's control flag.
#[derive(Clone, Copy, Debug, PartialEq, Eq, Structural)]
pub enum ActorManageMessage {
    Kill,
    Restart,
}

/// A predicate over an actor's state.
pub trait StatePredicate<S>: Send + Sync {
    fn holds(&self, state: &S) -> bool;
}

/// A shared predicate over an actor's state, as a state check carries it.
#[verifier::reject_recursive_types(S)]
pub struct StateQuery<S> {
    pub predicate: Arc<dyn StatePredicate<S>>,
}

/// The state-check protocol: an ask of `Check(q)` to an actor with state checks
/// enabled is answered by a tell of `Result(q(state))` to the reply address.
#[verifier::reject_recursive_types(S)]
pub enum StateCheckMessage<S> {
    Check(StateQuery<S>),
    Result(bool),
}

/// What a handler asks of its actor once it returns; `B` is the behavior type.
pub enum BehaviorAction<B> {
    /// Keep the current behavior.
    Keep,
    /// Install this behavior before the next envelope is taken.
    Change(B),
    /// The handler failed: the actor runs its error hook and exits.
    Fail(String),
}

/// A handler of envelopes, stored under the type identity of the payloads it
/// takes. `B` is the behavior type a handler may switch to.
///
/// Behaviors hold their handlers by a type `H` that the host chooses, so that a
/// behavior can hold handlers that return behaviors; a host that wants handlers
/// of any kind in one table uses a shared trait object behind a newtype.
pub trait Handler<S, P, B>: Send + Sync {
    fn handle(&self, msg: Message<P>, state: &mut S, ctx: &mut ActorContext<P>) -> BehaviorAction<B>;
}

/// A lifecycle hook: run on start, kill, error or restart.
pub trait Hook<S, P>: Send + Sync {
    fn run(&self, state: &mut S, ctx: &mut ActorContext<P>);
}

/// A handler of told payloads of type `M`.
pub trait OnTell<M, S, P, B>: Send + Sync {
    fn receive(&self, msg: M, state: &mut S, ctx: &mut ActorContext<P>) -> BehaviorAction<B>;
}

/// A handler of asked payloads of type `M`, which also receives the reply address.
pub trait OnAsk<M, S, P, B>: Send + Sync {
    fn receive(&self, msg: M, state: &mut S, reply_to: Addr<P>, ctx: &mut ActorContext<P>) -> BehaviorAction<B>;
}

/// Turns an [`OnTell`] for `M` into a [`Handler`] that takes the payload out of
/// the envelope. A payload of another type means the handler was stored under the
/// wrong key: the handler fails.
pub struct Tell<M, T> {
    handler: T,
    payload: PhantomData<M>,
}

impl<M, T> Tell<M, T> {
    pub fn new(handler: T) -> (r: Self) {
        Tell { handler, payload: PhantomData }
    }
}

impl<M: Send + Sync + 'static, T> Tell<M, T> {
    /// Runs the handler on the payload taken out of an envelope. A payload that
    /// was not an `M` makes the handler fail and changes nothing.
    pub fn receive_unpacked<S, P: Carrier, B>(&self, payload: Option<M>, state: &mut S, ctx: &mut ActorContext<P>) -> (r: BehaviorAction<B>)
        where
            T: OnTell<M, S, P, B>,
        ensures
            payload is None ==> r is Fail && *final(state) == *old(state) && *final(ctx) == *old(ctx),
    {
        match payload {
            Some(m) => self.handler.receive(m, state, ctx),
            None => BehaviorAction::Fail(String::from_str("payload of another type than the handler takes")),
        }
    }
}

impl<M: Send + Sync + 'static, S, P: Carrier, B, T: OnTell<M, S, P, B>> Handler<S, P, B> for Tell<M, T> {
    fn handle(&self, msg: Message<P>, state: &mut S, ctx: &mut ActorContext<P>) -> (r: BehaviorAction<B>) {
        self.receive_unpacked(msg.downcast::<M>(), state, ctx)
    }
}

/// Turns an [`OnAsk`] for `M` into a [`Handler`]. An envelope that has lost its
/// reply address is dropped; a payload of another type makes the handler fail.
pub struct Ask<M, T> {
    handler: T,
    payload: PhantomData<M>,
}

impl<M, T> Ask<M, T> {
    pub fn new(handler: T) -> (r: Self) {
        Ask { handler, payload: PhantomData }
    }
}

impl<M: Send + Sync + 'static, T> Ask<M, T> {
    /// Runs the handler on the reply address and the payload taken out of an
    /// envelope. Without a reply address the envelope is dropped: `Keep`, nothing
    /// changed. A payload that was not an `M` makes the handler fail and changes
    /// nothing.
    pub fn receive_unpacked<S, P: Carrier, B>(
        &self,
        reply_to: Option<Addr<P>>,
        payload: Option<M>,
        state: &mut S,
        ctx: &mut ActorContext<P>,
    ) -> (r: BehaviorAction<B>)
        where
            T: OnAsk<M, S, P, B>,
        ensures
            reply_to is None ==> r is Keep && *final(state) == *old(state) && *final(ctx) == *old(ctx),
            reply_to is Some && payload is None ==> r is Fail && *final(state) == *old(state) && *final(ctx) == *old(ctx),
    {
        match reply_to {
            None => BehaviorAction::Keep,
            Some(reply_to) => match payload {
                Some(m) => self.handler.receive(m, state, reply_to, ctx),
                None => BehaviorAction::Fail(String::from_str("payload of another type than the handler takes")),
            },
        }
    }
}

impl<M: Send + Sync + 'static, S, P: Carrier, B, T: OnAsk<M, S, P, B>> Handler<S, P, B> for Ask<M, T> {
    /// A told envelope never reaches the handler: it is dropped with nothing changed.
    fn handle(&self, msg: Message<P>, state: &mut S, ctx: &mut ActorContext<P>) -> (r: BehaviorAction<B>)
        ensures
            !msg.asks_spec() ==> r is Keep && *final(state) == *old(state) && *final(ctx) == *old(ctx),
    {
        let reply_to = msg.sender();
        let payload = if reply_to.is_some() {
            msg.downcast::<M>()
        } else {
            None
        };
        self.receive_unpacked(reply_to, payload, state, ctx)
    }
}

/// A table from payload type identity to handler; each identity appears at most once.
pub struct HandlerTable<H> {
    entries: Vec<(TypeId, H)>,
}

impl<H> View for HandlerTable<H> {
    type V = Seq<(TypeId, H)>;

    closed spec fn view(&self) -> Self::V {
        self.entries@
    }
}

/// The keys of a table's entries, in order of registration.
pub open spec fn keys_of<H>(entries: Seq<(TypeId, H)>) -> Seq<TypeId> {
    entries.map_values(|e: (TypeId, H)| e.0)
}

/// `b` holds the same keys as `a`, in the same order, each with a clone of `a`'s handler.
pub open spec fn copied_table<H: Clone>(a: Seq<(TypeId, H)>, b: Seq<(TypeId, H)>) -> bool {
    &&& a.len() == b.len()
    &&& forall|i: int| 0 <= i < a.len() ==> #[trigger] b[i].0 == a[i].0 && cloned(a[i].1, b[i].1)
}

impl<H> HandlerTable<H> {
    /// The registered type identities.
    pub open spec fn keys(&self) -> Seq<TypeId> {
        keys_of(self@)
    }

    /// No identity is registered twice.
    pub open spec fn wf(&self) -> bool {
        self.keys().no_duplicates()
    }

    pub fn new() -> (r: Self)
        ensures
            r@ == Seq::<(TypeId, H)>::empty(),
            r.wf(),
    {
        let r = HandlerTable { entries: Vec::new() };
        proof {
            assert(r.keys() =~= Seq::<TypeId>::empty());
        }
        r
    }

    /// The number of entries.
    pub fn len(&self) -> (r: usize)
        ensures
            r == self@.len(),
    {
        self.entries.len()
    }

    /// The position of `key`, if it is registered.
    pub fn find(&self, key: &TypeId) -> (r: Option<usize>)
        ensures
            match r {
                Some(i) => i < self@.len() && self@[i as int].0 == *key,
                None => !self.keys().contains(*key),
            },
    {
        let mut i: usize = 0;
        while i < self.entries.len()
            invariant
                i <= self.entries@.len(),
                forall|j: int| 0 <= j < i ==> self.entries@[j].0 != *key,
            decreases self.entries@.len() - i,
        {
            if same_type(&self.entries[i].0, key) {
                return Some(i);
            }
            i = i + 1;
        }
        proof {
            assert forall|j: int| 0 <= j < self.keys().len() implies self.keys()[j] != *key by {}
        }
        None
    }

    /// Whether `key` is registered.
    pub fn contains(&self, key: &TypeId) -> (r: bool)
        ensures
            r == self.keys().contains(*key),
    {
        match self.find(key) {
            Some(i) => {
                proof {
                    assert(self.keys()[i as int] == *key);
                }
                true
            },
            None => false,
        }
    }

    /// Registers `handler` under `key`, which must not be registered yet.
    pub fn insert(&mut self, key: TypeId, handler: H)
        requires
            old(self).wf(),
            !old(self).keys().contains(key),
        ensures
            final(self)@ == old(self)@.push((key, handler)),
            final(self).wf(),
    {
        self.entries.push((key, handler));
        proof {
            assert(self.keys() =~= old(self).keys().push(key));
        }
    }

    /// The handler at position `i`.
    pub fn handler(&self, i: usize) -> (r: &H)
        requires
            i < self@.len(),
        ensures
            *r == self@[i as int].1,
    {
        &self.entries[i].1
    }
}

impl<H: Clone> HandlerTable<H> {
    /// A copy of the table with a clone of each handler.
    pub fn duplicate(&self) -> (r: Self)
        ensures
            copied_table(self@, r@),
            r.keys() == self.keys(),
    {
        let mut entries: Vec<(TypeId, H)> = Vec::new();
        let mut i: usize = 0;
        while i < self.entries.len()
            invariant
                i <= self.entries@.len(),
                entries@.len() == i,
                forall|j: int| 0 <= j < i ==> #[trigger] entries@[j].0 == self.entries@[j].0 && cloned(
                    self.entries@[j].1,
                    entries@[j].1,
                ),
            decreases self.entries@.len() - i,
        {
            let key = self.entries[i].0;
            let h = self.entries[i].1.clone();
            entries.push((key, h));
            i = i + 1;
        }
        let r = HandlerTable { entries };
        proof {
            assert(r.keys() =~= self.keys());
        }
        r
    }
}

impl<H: Clone> Clone for HandlerTable<H> {
    fn clone(&self) -> (r: Self) {
        self.duplicate()
    }
}

/// The type identities of the two built-in protocols, fixed when a behavior is built.
#[derive(Clone, Copy)]
pub struct Protocols {
    pub manage: TypeId,
    pub check: TypeId,
}

/// The abstract content of a behavior.
#[verifier::reject_recursive_types(S)]
#[verifier::reject_recursive_types(P)]
pub struct BehaviorView<S, P, H> {
    pub ask: Seq<(TypeId, H)>,
    pub tell: Seq<(TypeId, H)>,
    pub on_start: Option<Arc<dyn Hook<S, P>>>,
    pub on_kill: Option<Arc<dyn Hook<S, P>>>,
    pub on_error: Option<Arc<dyn Hook<S, P>>>,
    pub on_restart: Option<Arc<dyn Hook<S, P>>>,
    pub state_checks: bool,
}

/// Where an envelope goes.
#[derive(Clone, Copy, Debug, PartialEq, Eq, Structural)]
pub enum Route {
    /// The management protocol.
    Manage,
    /// The state-check protocol.
    StateCheck,
    /// The ask handler at this position.
    Ask(usize),
    /// The tell handler at this position.
    Tell(usize),
    /// No handler: the envelope is dropped.
    Drop,
}

/// Builds a [`Behavior`].
#[verifier::reject_recursive_types(S)]
#[verifier::reject_recursive_types(P)]
pub struct BehaviorBuilder<S, P, H> {
    on_ask_handler: HandlerTable<H>,
    on_tell_handler: HandlerTable<H>,
    on_start: Option<Arc<dyn Hook<S, P>>>,
    on_kill: Option<Arc<dyn Hook<S, P>>>,
    on_error: Option<Arc<dyn Hook<S, P>>>,
    on_restart: Option<Arc<dyn Hook<S, P>>>,
    state_checks: bool,
}

impl<S, P, H> View for BehaviorBuilder<S, P, H> {
    type V = BehaviorView<S, P, H>;

    closed spec fn view(&self) -> Self::V {
        BehaviorView {
            ask: self.on_ask_handler@,
            tell: self.on_tell_handler@,
            on_start: self.on_start,
            on_kill: self.on_kill,
            on_error: self.on_error,
            on_restart: self.on_restart,
            state_checks: self.state_checks,
        }
    }
}

impl<S, P, H> BehaviorBuilder<S, P, H> {
    /// Both tables register each identity at most once.
    #[verifier::type_invariant]
    spec fn tables_unique(self) -> bool {
        self.on_ask_handler.wf() && self.on_tell_handler.wf()
    }
}

impl<S: Send + 'static, P: Carrier, H> BehaviorBuilder<S, P, H> {
    /// An empty builder.
    pub fn new() -> (r: Self)
        ensures
            r@.ask.len() == 0,
            r@.tell.len() == 0,
            r@.on_start is None,
            r@.on_kill is None,
            r@.on_error is None,
            r@.on_restart is None,
            !r@.state_checks,
    {
        BehaviorBuilder {
            on_ask_handler: HandlerTable::new(),
            on_tell_handler: HandlerTable::new(),
            on_start: None,
            on_kill: None,
            on_error: None,
            on_restart: None,
            state_checks: false,
        }
    }

    /// Whether a tell handler is registered for `type_id`.
    pub fn has_tell_handler(&self, type_id: &TypeId) -> (r: bool)
        ensures
            r == keys_of(self@.tell).contains(*type_id),
    {
        self.on_tell_handler.contains(type_id)
    }

    /// Whether an ask handler is registered for `type_id`.
    pub fn has_ask_handler(&self, type_id: &TypeId) -> (r: bool)
        ensures
            r == keys_of(self@.ask).contains(*type_id),
    {
        self.on_ask_handler.contains(type_id)
    }

    /// Which lifecycle hooks are set: start, kill, error, restart.
    pub fn hooks_set(&self) -> (r: (bool, bool, bool, bool))
        ensures
            r == (self@.on_start is Some, self@.on_kill is Some, self@.on_error is Some, self@.on_restart is Some),
    {
        (self.on_start.is_some(), self.on_kill.is_some(), self.on_error.is_some(), self.on_restart.is_some())
    }

    /// Registers the handler of told payloads whose type identity is `type_id`.
    /// A second handler for the same identity is a programmer error.
    pub fn on_tell(self, type_id: TypeId, h: H) -> (r: Self)
        requires
            !keys_of(self@.tell).contains(type_id),
        ensures
            r@ == (BehaviorView { tell: self@.tell.push((type_id, h)), ..self@ }),
    {
        proof {
            use_type_invariant(&self);
        }
        let mut table = self.on_tell_handler;
        table.insert(type_id, h);
        BehaviorBuilder {
            on_ask_handler: self.on_ask_handler,
            on_tell_handler: table,
            on_start: self.on_start,
            on_kill: self.on_kill,
            on_error: self.on_error,
            on_restart: self.on_restart,
            state_checks: self.state_checks,
        }
    }

    /// Registers the handler of asked payloads whose type identity is `type_id`.
    /// A second handler for the same identity is a programmer error.
    pub fn on_ask(self, type_id: TypeId, h: H) -> (r: Self)
        requires
            !keys_of(self@.ask).contains(type_id),
        ensures
            r@ == (BehaviorView { ask: self@.ask.push((type_id, h)), ..self@ }),
    {
        proof {
            use_type_invariant(&self);
        }
        let mut table = self.on_ask_handler;
        table.insert(type_id, h);
        BehaviorBuilder {
            on_ask_handler: table,
            on_tell_handler: self.on_tell_handler,
            on_start: self.on_start,
            on_kill: self.on_kill,
            on_error: self.on_error,
            on_restart: self.on_restart,
            state_checks: self.state_checks,
        }
    }
    /// Sets the hook run when the actor starts, and again after each restart.
    pub fn on_start(self, action: Arc<dyn Hook<S, P>>) -> (r: Self)
        requires
            self@.on_start is None,
        ensures
            r@ == (BehaviorView { on_start: r@.on_start, ..self@ }),
            r@.on_start == Option::Some(action),
    {
        proof {
            use_type_invariant(&self);
        }
        let h = Some(action);
        BehaviorBuilder {
            on_ask_handler: self.on_ask_handler,
            on_tell_handler: self.on_tell_handler,
            on_start: h,
            on_kill: self.on_kill,
            on_error: self.on_error,
            on_restart: self.on_restart,
            state_checks: self.state_checks,
        }
    }

    /// Sets the hook run when the actor is killed.
    pub fn on_kill(self, action: Arc<dyn Hook<S, P>>) -> (r: Self)
        requires
            self@.on_kill is None,
        ensures
            r@ == (BehaviorView { on_kill: r@.on_kill, ..self@ }),
            r@.on_kill == Option::Some(action),
    {
        proof {
            use_type_invariant(&self);
        }
        let h = Some(action);
        BehaviorBuilder {
            on_ask_handler: self.on_ask_handler,
            on_tell_handler: self.on_tell_handler,
            on_start: self.on_start,
            on_kill: h,
            on_error: self.on_error,
            on_restart: self.on_restart,
            state_checks: self.state_checks,
        }
    }

    /// Sets the hook run when a handler fails.
    pub fn on_error(self, action: Arc<dyn Hook<S, P>>) -> (r: Self)
        requires
            self@.on_error is None,
        ensures
            r@ == (BehaviorView { on_error: r@.on_error, ..self@ }),
            r@.on_error == Option::Some(action),
    {
        proof {
            use_type_invariant(&self);
        }
        let h = Some(action);
        BehaviorBuilder {
            on_ask_handler: self.on_ask_handler,
            on_tell_handler: self.on_tell_handler,
            on_start: self.on_start,
            on_kill: self.on_kill,
            on_error: h,
            on_restart: self.on_restart,
            state_checks: self.state_checks,
        }
    }

    /// Sets the hook run when the actor leaves its loop to be restarted.
    pub fn on_restart(self, action: Arc<dyn Hook<S, P>>) -> (r: Self)
        requires
            self@.on_restart is None,
        ensures
            r@ == (BehaviorView { on_restart: r@.on_restart, ..self@ }),
            r@.on_restart == Option::Some(action),
    {
        proof {
            use_type_invariant(&self);
        }
        let h = Some(action);
        BehaviorBuilder {
            on_ask_handler: self.on_ask_handler,
            on_tell_handler: self.on_tell_handler,
            on_start: self.on_start,
            on_kill: self.on_kill,
            on_error: self.on_error,
            on_restart: h,
            state_checks: self.state_checks,
        }
    }

    /// Makes the built behavior answer the state-check protocol.
    pub fn enable_state_checks(self) -> (r: Self)
        ensures
            r@ == (BehaviorView { state_checks: true, ..self@ }),
    {
        proof {
            use_type_invariant(&self);
        }
        BehaviorBuilder {
            on_ask_handler: self.on_ask_handler,
            on_tell_handler: self.on_tell_handler,
            on_start: self.on_start,
            on_kill: self.on_kill,
            on_error: self.on_error,
            on_restart: self.on_restart,
            state_checks: true,
        }
    }

    /// Finishes the behavior. Every built behavior answers the management protocol.
    pub fn build(self) -> (r: Behavior<S, P, H>)
        ensures
            r@ == self@,
    {
        proof {
            use_type_invariant(&self);
        }
        let protocols = Protocols {
            manage: type_key_of::<ActorManageMessage>(),
            check: type_key_of::<StateCheckMessage<S>>(),
        };
        Behavior {
            on_ask_handler: self.on_ask_handler,
            on_tell_handler: self.on_tell_handler,
            on_start: self.on_start,
            on_kill: self.on_kill,
            on_error: self.on_error,
            on_restart: self.on_restart,
            state_checks: self.state_checks,
            protocols,
        }
    }
}

/// How an actor behaves: its handler tables, its lifecycle hooks, and whether it
/// answers state checks. A behavior is a value: cloning it clones the handlers.
#[verifier::reject_recursive_types(S)]
#[verifier::reject_recursive_types(P)]
pub struct Behavior<S, P, H> {
    on_ask_handler: HandlerTable<H>,
    on_tell_handler: HandlerTable<H>,
    on_start: Option<Arc<dyn Hook<S, P>>>,
    on_kill: Option<Arc<dyn Hook<S, P>>>,
    on_error: Option<Arc<dyn Hook<S, P>>>,
    on_restart: Option<Arc<dyn Hook<S, P>>>,
    state_checks: bool,
    protocols: Protocols,
}

impl<S, P, H> View for Behavior<S, P, H> {
    type V = BehaviorView<S, P, H>;

    closed spec fn view(&self) -> Self::V {
        BehaviorView {
            ask: self.on_ask_handler@,
            tell: self.on_tell_handler@,
            on_start: self.on_start,
            on_kill: self.on_kill,
            on_error: self.on_error,
            on_restart: self.on_restart,
            state_checks: self.state_checks,
        }
    }
}

impl<S, P, H> Behavior<S, P, H> {
    /// Both tables register each identity at most once.
    #[verifier::type_invariant]
    spec fn tables_unique(self) -> bool {
        self.on_ask_handler.wf() && self.on_tell_handler.wf()
    }

    /// The type identity of the management protocol's payload.
    pub closed spec fn manage_key(&self) -> TypeId {
        self.protocols.manage
    }

    /// The type identity of the state-check protocol's payload.
    pub closed spec fn check_key(&self) -> TypeId {
        self.protocols.check
    }

    /// A told envelope of the management protocol.
    pub open spec fn manages(&self, key: TypeId, asks: bool) -> bool {
        !asks && key == self.manage_key()
    }

    /// An asked envelope of the state-check protocol, with checks enabled.
    pub open spec fn checks(&self, key: TypeId, asks: bool) -> bool {
        asks && self@.state_checks && key == self.check_key()
    }

    /// An asked envelope that goes to the ask table.
    pub open spec fn to_ask_table(&self, key: TypeId, asks: bool) -> bool {
        asks && !self.checks(key, asks) && keys_of(self@.ask).contains(key)
    }

    /// A told envelope that goes to the tell table.
    pub open spec fn to_tell_table(&self, key: TypeId, asks: bool) -> bool {
        !asks && !self.manages(key, asks) && keys_of(self@.tell).contains(key)
    }

    /// An envelope that nothing handles.
    pub open spec fn drops(&self, key: TypeId, asks: bool) -> bool {
        !self.manages(key, asks) && !self.checks(key, asks) && !self.to_ask_table(key, asks)
            && !self.to_tell_table(key, asks)
    }

    /// `r` is where an envelope of type identity `key`, asked or told, goes.
    pub open spec fn routes(&self, key: TypeId, asks: bool, r: Route) -> bool {
        match r {
            Route::Manage => self.manages(key, asks),
            Route::StateCheck => self.checks(key, asks),
            Route::Ask(i) => self.to_ask_table(key, asks) && i < self@.ask.len() && self@.ask[i as int].0 == key,
            Route::Tell(i) => self.to_tell_table(key, asks) && i < self@.tell.len() && self@.tell[i as int].0 == key,
            Route::Drop => self.drops(key, asks),
        }
    }

    /// Whether the behavior answers the state-check protocol.
    pub fn state_checks_enabled(&self) -> (r: bool)
        ensures
            r == self@.state_checks,
    {
        self.state_checks
    }

    /// The hook run on start, if any.
    pub fn start_hook(&self) -> (r: Option<Arc<dyn Hook<S, P>>>)
        ensures
            r == self@.on_start,
    {
        clone_hook(&self.on_start)
    }

    /// The hook run when the actor is killed, if any.
    pub fn kill_hook(&self) -> (r: Option<Arc<dyn Hook<S, P>>>)
        ensures
            r == self@.on_kill,
    {
        clone_hook(&self.on_kill)
    }

    /// The hook run when a handler fails, if any.
    pub fn error_hook(&self) -> (r: Option<Arc<dyn Hook<S, P>>>)
        ensures
            r == self@.on_error,
    {
        clone_hook(&self.on_error)
    }

    /// The hook run before a restart, if any.
    pub fn restart_hook(&self) -> (r: Option<Arc<dyn Hook<S, P>>>)
        ensures
            r == self@.on_restart,
    {
        clone_hook(&self.on_restart)
    }
}

/// `b` is a copy of `a`: the same keys in the same order with cloned handlers, the
/// same hooks, the same protocols.
pub open spec fn copied_behavior<S, P, H: Clone>(a: Behavior<S, P, H>, b: Behavior<S, P, H>) -> bool {
    &&& copied_table(a@.ask, b@.ask)
    &&& copied_table(a@.tell, b@.tell)
    &&& b@.on_start == a@.on_start
    &&& b@.on_kill == a@.on_kill
    &&& b@.on_error == a@.on_error
    &&& b@.on_restart == a@.on_restart
    &&& b@.state_checks == a@.state_checks
    &&& b.manage_key() == a.manage_key()
    &&& b.check_key() == a.check_key()
}

impl<S, P, H: Clone> Behavior<S, P, H> {
    /// A copy with cloned handlers and shared hooks.
    pub fn duplicate(&self) -> (r: Self)
        ensures
            copied_behavior(*self, r),
    {
        proof {
            use_type_invariant(self);
        }
        let ask = self.on_ask_handler.duplicate();
        let tell = self.on_tell_handler.duplicate();
        let r = Behavior {
            on_ask_handler: ask,
            on_tell_handler: tell,
            on_start: clone_hook(&self.on_start),
            on_kill: clone_hook(&self.on_kill),
            on_error: clone_hook(&self.on_error),
            on_restart: clone_hook(&self.on_restart),
            state_checks: self.state_checks,
            protocols: self.protocols,
        };
        proof {
            assert(keys_of(r@.ask) == keys_of(self@.ask));
            assert(keys_of(r@.tell) == keys_of(self@.tell));
        }
        r
    }
}

fn clone_hook<S, P>(h: &Option<Arc<dyn Hook<S, P>>>) -> (r: Option<Arc<dyn Hook<S, P>>>)
    ensures
        r == *h,
{
    match h {
        None => None,
        Some(a) => {
            let s = share(a);
            let r = Some(s);
            r
        },
    }
}

impl<S, P, H: Clone> Clone for Behavior<S, P, H> {
    fn clone(&self) -> (r: Self) {
        self.duplicate()
    }
}

impl<S: Send + 'static, P: Carrier, H: Handler<S, P, Behavior<S, P, H>>> Behavior<S, P, H> {
    /// Keep the current behavior.
    pub fn keep() -> (r: BehaviorAction<Self>)
        ensures
            r is Keep,
    {
        BehaviorAction::Keep
    }

    /// Replace the current behavior by `new_behavior`.
    pub fn change(new_behavior: Self) -> (r: BehaviorAction<Self>)
        ensures
            r == BehaviorAction::Change(new_behavior),
    {
        BehaviorAction::Change(new_behavior)
    }

    /// Where an envelope of type identity `key` goes: a told management payload to
    /// the management protocol; an asked state check, when enabled, to the
    /// state-check protocol; otherwise to the table that matches how it was sent,
    /// or nowhere.
    pub fn route(&self, key: &TypeId, asks: bool) -> (r: Route)
        ensures
            self.routes(*key, asks, r),
            keys_of(self@.ask).no_duplicates(),
            keys_of(self@.tell).no_duplicates(),
    {
        proof {
            use_type_invariant(self);
        }
        if !asks && same_type(key, &self.protocols.manage) {
            return Route::Manage;
        }
        if asks && self.state_checks && same_type(key, &self.protocols.check) {
            return Route::StateCheck;
        }
        if asks {
            match self.on_ask_handler.find(key) {
                Some(i) => {
                    proof {
                        assert(keys_of(self@.ask)[i as int] == *key);
                    }
                    Route::Ask(i)
                },
                None => Route::Drop,
            }
        } else {
            match self.on_tell_handler.find(key) {
                Some(i) => {
                    proof {
                        assert(keys_of(self@.tell)[i as int] == *key);
                    }
                    Route::Tell(i)
                },
                None => Route::Drop,
            }
        }
    }

    /// The management protocol: `Kill` sets the control flag to `Kill`,
    /// `Restart` to `Restart`; the behavior is kept.
    pub fn manage(order: ActorManageMessage, ctx: &mut ActorContext<P>) -> (r: BehaviorAction<Self>)
        ensures
            r is Keep,
            final(ctx).flag_spec() == (match order {
                ActorManageMessage::Kill => ContextFlag::Kill,
                ActorManageMessage::Restart => ContextFlag::Restart,
            }),
            final(ctx).spawned_spec() == old(ctx).spawned_spec(),
            final(ctx).addr_spec() == old(ctx).addr_spec(),
    {
        match order {
            ActorManageMessage::Kill => ctx.kill(),
            ActorManageMessage::Restart => ctx.restart(),
        }
        BehaviorAction::Keep
    }

    /// The answer to a state-check message: `Check(q)` is answered with
    /// `Result(q(state))`; a `Result` is no question and gets no answer.
    pub fn check_answer(msg: StateCheckMessage<S>, state: &S) -> (r: Option<StateCheckMessage<S>>)
        ensures
            r is Some <==> msg is Check,
            r matches Some(a) ==> a is Result,
    {
        match msg {
            StateCheckMessage::Check(query) => Some(StateCheckMessage::Result(query.predicate.holds(state))),
            StateCheckMessage::Result(_) => None,
        }
    }

    /// The state-check protocol: the answer, if any, is told to `reply_to`; the
    /// state is only read and the behavior is kept.
    pub fn answer_state_check(msg: StateCheckMessage<S>, state: &S, reply_to: &Addr<P>) -> (r: BehaviorAction<Self>)
        ensures
            r is Keep,
    {
        match Self::check_answer(msg, state) {
            Some(answer) => reply_to.tell(answer),
            None => {},
        }
        BehaviorAction::Keep
    }

    /// Dispatches an envelope. Nothing changes for an envelope that nothing
    /// handles; the management protocol only sets the control flag; the
    /// state-check protocol only replies.
    pub fn handle(&self, msg: Message<P>, state: &mut S, ctx: &mut ActorContext<P>) -> (r: BehaviorAction<Self>)
        ensures
            self.drops(msg.key_spec(), msg.asks_spec()) ==> r is Keep && *final(state) == *old(state)
                && *final(ctx) == *old(ctx),
            self.manages(msg.key_spec(), msg.asks_spec()) ==> *final(state) == *old(state)
                && final(ctx).spawned_spec() == old(ctx).spawned_spec()
                && (r is Keep || r is Fail)
                && (r is Keep ==> final(ctx).flag_spec() != ContextFlag::Run),
            self.checks(msg.key_spec(), msg.asks_spec()) ==> *final(state) == *old(state)
                && *final(ctx) == *old(ctx) && (r is Keep || r is Fail),
    {
        let key = msg.type_id();
        let asks = msg.has_sender();
        match self.route(&key, asks) {
            Route::Manage => match msg.downcast::<ActorManageMessage>() {
                Some(order) => Self::manage(order, ctx),
                None => BehaviorAction::Fail(String::from_str("management payload of another type")),
            },
            Route::StateCheck => {
                let reply_to = msg.sender();
                match reply_to {
                    None => BehaviorAction::Keep,
                    Some(reply_to) => match msg.downcast::<StateCheckMessage<S>>() {
                        Some(query) => Self::answer_state_check(query, state, &reply_to),
                        None => BehaviorAction::Fail(String::from_str("state check payload of another type")),
                    },
                }
            },
            Route::Ask(i) => {
                let h = self.on_ask_handler.handler(i);
                h.handle(msg, state, ctx)
            },
            Route::Tell(i) => {
                let h = self.on_tell_handler.handler(i);
                h.handle(msg, state, ctx)
            },
            Route::Drop => BehaviorAction::Keep,
        }
    }
}

} // verus!
