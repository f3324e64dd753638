//! Supervision: what happens to an actor after it leaves its run loop.

use vstd::prelude::*;
use std::time::Duration;
use crate::actor::{Actor, Backup, ExitReason};
use crate::behavior::{copied_behavior, Behavior, Handler};
use crate::message::Carrier;
use crate::actor_system::ActorSystem;

verus! {

/// A supervision strategy's decision.
#[derive(Clone, Copy, Debug)]
pub enum SuperVisionAction {
    /// The actor is done: it leaves the system.
    Exit,
    /// The actor runs again at once, under the same name and address.
    Restart,
    /// The actor runs again after the given delay.
    RestartDelayed(Duration),
}

/// Decides, after an actor has left its run loop, whether it exits or runs again.
/// A strategy that lets the actor run again restores it from the backup first
/// (see [`Actor::apply_backup`]); its address and mailbox stay the same.
pub trait SupervisionStrategy<S: Clone, P: Carrier, H: Clone>: Send {
    fn apply(&mut self, exit_reason: ExitReason, backup: &Backup<S, P, H>, actor: &mut Actor<S, P, H>) -> (r: SuperVisionAction)
        ensures
            !(r is Exit) ==> restored(*backup, *final(actor)),
            final(actor).addr_spec() == old(actor).addr_spec(),
            final(actor).mailbox_spec() == old(actor).mailbox_spec(),
    ;
}

/// The actor holds a clone of the backup's state and a copy of its behavior.
pub open spec fn restored<S: Clone, P: Carrier, H: Clone>(backup: Backup<S, P, H>, actor: Actor<S, P, H>) -> bool {
    &&& cloned(backup.state_spec(), actor.state_spec())
    &&& copied_behavior(backup.behavior_spec(), actor.behavior_spec())
}

/// Restarts the actor from its backup unless it was killed on purpose.
pub struct SimpleRestartStrategy {}

impl SimpleRestartStrategy {
    pub fn new() -> (r: Box<Self>) {
        Box::new(SimpleRestartStrategy {})
    }

    /// `Exit` after a kill, which leaves the actor as it is; after a restart
    /// request or an error, the actor is restored from `backup` and `Restart`
    /// is returned.
    pub fn decide<S: Send + Clone + 'static, P: Carrier, H: Handler<S, P, Behavior<S, P, H>> + Clone>(
        &mut self,
        exit_reason: ExitReason,
        backup: &Backup<S, P, H>,
        actor: &mut Actor<S, P, H>,
    ) -> (r: SuperVisionAction)
        ensures
            exit_reason == ExitReason::Kill ==> r is Exit && *final(actor) == *old(actor),
            exit_reason != ExitReason::Kill ==> r is Restart
                && restored(*backup, *final(actor))
                && final(actor).context_spec() == old(actor).context_spec(),
            final(actor).addr_spec() == old(actor).addr_spec(),
            final(actor).mailbox_spec() == old(actor).mailbox_spec(),
    {
        match exit_reason {
            ExitReason::Kill => SuperVisionAction::Exit,
            ExitReason::Restart => {
                actor.apply_backup(backup);
                SuperVisionAction::Restart
            },
            ExitReason::Error => {
                actor.apply_backup(backup);
                SuperVisionAction::Restart
            },
        }
    }
}

impl<S: Send + Clone + 'static, P: Carrier, H: Handler<S, P, Behavior<S, P, H>> + Clone> SupervisionStrategy<S, P, H> for SimpleRestartStrategy {
    fn apply(&mut self, exit_reason: ExitReason, backup: &Backup<S, P, H>, actor: &mut Actor<S, P, H>) -> (r: SuperVisionAction)
        ensures
            exit_reason == ExitReason::Kill ==> r is Exit && *final(actor) == *old(actor),
            exit_reason != ExitReason::Kill ==> r is Restart
                && restored(*backup, *final(actor))
                && final(actor).context_spec() == old(actor).context_spec(),
    {
        self.decide(exit_reason, backup, actor)
    }
}

/// A supervised actor: the actor, the backup of its initial state and behavior,
/// taken once before its first start, and its strategy.
#[verifier::reject_recursive_types(S)]
#[verifier::reject_recursive_types(P)]
#[verifier::reject_recursive_types(H)]
pub struct Supervised<S, P, H> {
    actor: Actor<S, P, H>,
    backup: Backup<S, P, H>,
    strategy: Box<dyn SupervisionStrategy<S, P, H>>,
}

impl<S: Send + Clone + 'static, P: Carrier, H: Handler<S, P, Behavior<S, P, H>> + Clone> Supervised<S, P, H> {
    /// The supervised actor.
    pub closed spec fn actor_spec(&self) -> Actor<S, P, H> {
        self.actor
    }

    /// The backup it is restored from.
    pub closed spec fn backup_spec(&self) -> Backup<S, P, H> {
        self.backup
    }

    /// Puts `actor` under `strategy`, with a backup of its current state and
    /// behavior.
    pub fn new(actor: Actor<S, P, H>, strategy: Box<dyn SupervisionStrategy<S, P, H>>) -> (r: Self)
        ensures
            r.actor_spec() == actor,
            cloned(actor.state_spec(), r.backup_spec().state_spec()),
            copied_behavior(actor.behavior_spec(), r.backup_spec().behavior_spec()),
    {
        let backup = actor.create_backup();
        Supervised { actor, backup, strategy }
    }

    /// The supervised actor, for the host that runs it.
    pub fn actor(&mut self) -> (r: &mut Actor<S, P, H>)
        ensures
            *r == old(self).actor_spec(),
            final(self).actor_spec() == *final(r),
            final(self).backup_spec() == old(self).backup_spec(),
    {
        &mut self.actor
    }

    /// Consults the strategy after the actor left its loop with `exit_reason`.
    /// The backup is never changed, so every restart starts from the same
    /// snapshot; unless the actor exits, it is restored from that snapshot and
    /// keeps its address and mailbox.
    pub fn after_exit(&mut self, exit_reason: ExitReason) -> (r: SuperVisionAction)
        ensures
            final(self).backup_spec() == old(self).backup_spec(),
            !(r is Exit) ==> restored(old(self).backup_spec(), final(self).actor_spec()),
            final(self).actor_spec().addr_spec() == old(self).actor_spec().addr_spec(),
            final(self).actor_spec().mailbox_spec() == old(self).actor_spec().mailbox_spec(),
    {
        self.strategy.apply(exit_reason, &self.backup, &mut self.actor)
    }
}


impl<P: Carrier> ActorSystem<P> {
    /// Ends a supervised actor's life in the system when `action` is terminal: the
    /// name leaves the registry exactly when the strategy decided `Exit`. `r` says
    /// whether the actor is done.
    pub fn retire_if_done(&self, name: &str, action: &SuperVisionAction) -> (r: bool)
        ensures
            r == action is Exit,
    {
        match action {
            SuperVisionAction::Exit => {
                let _ = self.deregister(name);
                true
            },
            _ => false,
        }
    }
}

} // verus!
