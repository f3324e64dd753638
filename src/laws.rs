//! Properties of the kernel that relate several of its parts.

use vstd::prelude::*;
use std::any::TypeId;
use crate::behavior::{copied_behavior, keys_of, Behavior, Handler};
use crate::message::Carrier;
use crate::supervision::{restored, Supervised};

verus! {

/// Ask/tell routing: a told envelope never reaches the ask table, and an asked
/// envelope never reaches the tell table, whatever the type identity.
pub proof fn lemma_ask_tell_routing<S, P, H>(b: Behavior<S, P, H>, key: TypeId)
    ensures
        !b.to_ask_table(key, false),
        !b.to_tell_table(key, true),
{
}

/// Unknown types are tolerated: an envelope whose type identity is registered in
/// neither table and belongs to neither built-in protocol is dropped, asked or
/// told. (Delivering a dropped envelope leaves the actor unchanged and does not
/// end it; see `Actor::deliver`.)
pub proof fn lemma_unknown_type_dropped<S, P, H>(b: Behavior<S, P, H>, key: TypeId, asks: bool)
    requires
        !keys_of(b@.ask).contains(key),
        !keys_of(b@.tell).contains(key),
        key != b.manage_key(),
        key != b.check_key(),
    ensures
        b.drops(key, asks),
{
}

/// Routing is a function: an envelope has exactly one destination.
pub proof fn lemma_route_unique<S, P, H>(b: Behavior<S, P, H>, key: TypeId, asks: bool, r1: crate::behavior::Route, r2: crate::behavior::Route)
    requires
        b.routes(key, asks, r1),
        b.routes(key, asks, r2),
        keys_of(b@.ask).no_duplicates(),
        keys_of(b@.tell).no_duplicates(),
    ensures
        r1 == r2,
{
    match (r1, r2) {
        (crate::behavior::Route::Ask(i), crate::behavior::Route::Ask(j)) => {
            assert(keys_of(b@.ask)[i as int] == keys_of(b@.ask)[j as int]);
        },
        (crate::behavior::Route::Tell(i), crate::behavior::Route::Tell(j)) => {
            assert(keys_of(b@.tell)[i as int] == keys_of(b@.tell)[j as int]);
        },
        _ => {},
    }
}


/// One restart of a supervised actor: what `Supervised::after_exit` guarantees
/// whenever the strategy does not decide `Exit` (the backup is as it was, and the
/// actor's state and behavior are copies of the backup's).
pub open spec fn restarted_from_backup<S: Send + Clone + 'static, P: Carrier, H: Handler<S, P, Behavior<S, P, H>> + Clone>(
    before: Supervised<S, P, H>,
    after: Supervised<S, P, H>,
) -> bool {
    &&& after.backup_spec() == before.backup_spec()
    &&& restored(before.backup_spec(), after.actor_spec())
}

proof fn lemma_backup_constant<S: Send + Clone + 'static, P: Carrier, H: Handler<S, P, Behavior<S, P, H>> + Clone>(
    lives: Seq<Supervised<S, P, H>>,
    i: int,
)
    requires
        0 <= i < lives.len(),
        forall|j: int| 0 <= j < lives.len() - 1 ==> restarted_from_backup(#[trigger] lives[j], lives[j + 1]),
    ensures
        lives[i].backup_spec() == lives[0].backup_spec(),
    decreases i,
{
    if i > 0 {
        lemma_backup_constant(lives, i - 1);
        assert(restarted_from_backup(lives[i - 1], lives[i]));
    }
}

/// The actor of `life` holds copies of the state and behavior saved in the
/// backup of `first`.
pub open spec fn restored_from<S: Send + Clone + 'static, P: Carrier, H: Handler<S, P, Behavior<S, P, H>> + Clone>(
    first: Supervised<S, P, H>,
    life: Supervised<S, P, H>,
) -> bool {
    &&& cloned(first.backup_spec().state_spec(), life.actor_spec().state_spec())
    &&& copied_behavior(first.backup_spec().behavior_spec(), life.actor_spec().behavior_spec())
}

/// Backup fidelity: however many times a supervised actor is restarted, after
/// each restart its state is a clone of, and its behavior a copy of, the initial
/// state and behavior captured in the first backup.
pub proof fn lemma_backup_fidelity<S: Send + Clone + 'static, P: Carrier, H: Handler<S, P, Behavior<S, P, H>> + Clone>(
    lives: Seq<Supervised<S, P, H>>,
)
    requires
        forall|j: int| 0 <= j < lives.len() - 1 ==> restarted_from_backup(#[trigger] lives[j], lives[j + 1]),
    ensures
        forall|i: int| 1 <= i < lives.len() ==> restored_from(lives[0], #[trigger] lives[i]),
{
    assert forall|i: int| 1 <= i < lives.len() implies restored_from(lives[0], #[trigger] lives[i]) by {
        lemma_backup_constant(lives, i - 1);
        assert(restarted_from_backup(lives[i - 1], lives[i]));
    }
}

} // verus!
