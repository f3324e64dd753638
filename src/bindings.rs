//! Declarations of the std, tokio and dashmap types the runtime holds, and the
//! thin calls into them that the verified code builds on.

use vstd::prelude::*;
use std::any::TypeId;
use std::sync::Arc;
use tokio::sync::mpsc::{Receiver, Sender, UnboundedReceiver, UnboundedSender};
use dashmap::DashMap;

verus! {

#[verifier::external_type_specification]
#[verifier::external_body]
pub struct ExTypeId(TypeId);

#[verifier::external_type_specification]
#[verifier::external_body]
#[verifier::reject_recursive_types(T)]
pub struct ExUnboundedSender<T>(UnboundedSender<T>);

#[verifier::external_type_specification]
#[verifier::external_body]
#[verifier::reject_recursive_types(T)]
pub struct ExUnboundedReceiver<T>(UnboundedReceiver<T>);

#[verifier::external_type_specification]
#[verifier::external_body]
#[verifier::reject_recursive_types(T)]
pub struct ExSender<T>(Sender<T>);

#[verifier::external_type_specification]
#[verifier::external_body]
#[verifier::reject_recursive_types(T)]
pub struct ExReceiver<T>(Receiver<T>);

#[verifier::external_type_specification]
#[verifier::external_body]
#[verifier::reject_recursive_types(K)]
#[verifier::reject_recursive_types(V)]
#[verifier::reject_recursive_types(S)]
pub struct ExDashMap<K, V, S>(DashMap<K, V, S>);

#[verifier::external_type_specification]
#[verifier::external_body]
#[verifier::reject_recursive_types(T)]
pub struct ExWatchSender<T>(tokio::sync::watch::Sender<T>);

#[verifier::external_type_specification]
#[verifier::external_body]
#[verifier::reject_recursive_types(T)]
pub struct ExWatchReceiver<T>(tokio::sync::watch::Receiver<T>);

#[verifier::external_type_specification]
#[verifier::external_body]
pub struct ExHandle(tokio::runtime::Handle);

/// The largest capacity tokio's bounded channel accepts (its semaphore's permit limit).
pub const MAX_MAILBOX_CAPACITY: usize = usize::MAX >> 3;

/// What a non-blocking receive found.
pub enum Received<T> {
    Item(T),
    Empty,
    Closed,
}

/// Relies on `TypeId::of`: the identity of the concrete type `M`.
#[verifier::external_body]
pub fn type_key_of<M: ?Sized + 'static>() -> (r: TypeId) {
    TypeId::of::<M>()
}

/// Relies on `TypeId`'s `==`, which compares the identities themselves.
#[verifier::external_body]
pub fn same_type(a: &TypeId, b: &TypeId) -> (r: bool)
    ensures
        r == (*a == *b),
{
    *a == *b
}

/// Relies on `Arc::clone`: a new handle to the same value.
#[verifier::external_body]
pub fn share<T: ?Sized>(a: &Arc<T>) -> (r: Arc<T>)
    ensures
        r == *a,
{
    Arc::clone(a)
}

/// Relies on `tokio::sync::mpsc::unbounded_channel`.
#[verifier::external_body]
pub fn open_unbounded<T>() -> (r: (UnboundedSender<T>, UnboundedReceiver<T>)) {
    tokio::sync::mpsc::unbounded_channel()
}

/// Relies on `tokio::sync::mpsc::channel`, which panics on a capacity of zero or
/// above its permit limit.
#[verifier::external_body]
pub fn open_bounded<T>(capacity: usize) -> (r: (Sender<T>, Receiver<T>))
    requires
        1 <= capacity <= MAX_MAILBOX_CAPACITY,
{
    tokio::sync::mpsc::channel(capacity)
}

/// Relies on `UnboundedSender::clone`: another handle to the same channel, equal
/// to the original as a value (both share the channel through one `Arc`).
#[verifier::external_body]
pub fn clone_unbounded<T>(tx: &UnboundedSender<T>) -> (r: UnboundedSender<T>)
    ensures
        r == *tx,
{
    tx.clone()
}

/// Relies on `Sender::clone`: another handle to the same channel, equal to the
/// original as a value (both share the channel through one `Arc`).
#[verifier::external_body]
pub fn clone_bounded<T>(tx: &Sender<T>) -> (r: Sender<T>)
    ensures
        r == *tx,
{
    tx.clone()
}

/// Relies on `UnboundedSender::send`; a closed channel drops the value.
#[verifier::external_body]
pub fn push_unbounded<T>(tx: &UnboundedSender<T>, item: T) -> (r: bool) {
    tx.send(item).is_ok()
}

/// Relies on `Sender::try_send`: the value comes back when the channel is full;
/// a closed channel drops it.
#[verifier::external_body]
pub fn try_push_bounded<T>(tx: &Sender<T>, item: T) -> (r: Option<T>) {
    match tx.try_send(item) {
        Ok(()) => None,
        Err(tokio::sync::mpsc::error::TrySendError::Full(item)) => Some(item),
        Err(tokio::sync::mpsc::error::TrySendError::Closed(_)) => None,
    }
}

/// Relies on `tokio::runtime::Handle::try_current`: the runtime the caller runs
/// on, if any.
#[verifier::external_body]
pub fn current_runtime() -> (r: Option<tokio::runtime::Handle>) {
    tokio::runtime::Handle::try_current().ok()
}

/// Relies on `Handle::spawn_blocking`: `item` is pushed into `tx` from a blocking
/// task of the runtime, which waits there for room.
#[verifier::external_body]
pub fn push_from_blocking_task<T: Send + 'static>(h: &tokio::runtime::Handle, tx: Sender<T>, item: T) {
    h.spawn_blocking(move || push_bounded_waiting(tx, item));
}

/// Relies on `Sender::blocking_send`, which waits for room and panics when it runs
/// inside an asynchronous task; it is only reached from a blocking task.
#[verifier::external_body]
fn blocking_push<T>(tx: &Sender<T>, item: T) -> (r: bool) {
    tx.blocking_send(item).is_ok()
}

/// Pushes `item` into `tx` once it has room; run on a blocking task.
fn push_bounded_waiting<T>(tx: Sender<T>, item: T) {
    let _ = blocking_push(&tx, item);
}

/// Relies on `UnboundedReceiver::try_recv`.
#[verifier::external_body]
pub fn pull_unbounded<T>(rx: &mut UnboundedReceiver<T>) -> (r: Received<T>) {
    match rx.try_recv() {
        Ok(item) => Received::Item(item),
        Err(tokio::sync::mpsc::error::TryRecvError::Empty) => Received::Empty,
        Err(tokio::sync::mpsc::error::TryRecvError::Disconnected) => Received::Closed,
    }
}

/// Relies on `Receiver::try_recv`.
#[verifier::external_body]
pub fn pull_bounded<T>(rx: &mut Receiver<T>) -> (r: Received<T>) {
    match rx.try_recv() {
        Ok(item) => Received::Item(item),
        Err(tokio::sync::mpsc::error::TryRecvError::Empty) => Received::Empty,
        Err(tokio::sync::mpsc::error::TryRecvError::Disconnected) => Received::Closed,
    }
}

/// Relies on `DashMap::new`.
#[verifier::external_body]
pub fn registry_new<V>() -> (r: DashMap<String, V>) {
    DashMap::new()
}

/// Relies on `DashMap::entry`, which holds the entry's shard lock: the value is
/// stored exactly when the name was absent, and `r` says whether it was.
#[verifier::external_body]
pub fn registry_claim<V>(m: &DashMap<String, V>, name: String, v: V) -> (r: bool) {
    match m.entry(name) {
        dashmap::mapref::entry::Entry::Occupied(_) => false,
        dashmap::mapref::entry::Entry::Vacant(e) => {
            e.insert(v);
            true
        },
    }
}

/// Relies on `DashMap::remove`: `r` says whether the name was present.
#[verifier::external_body]
pub fn registry_remove<V>(m: &DashMap<String, V>, name: &str) -> (r: bool) {
    m.remove(name).is_some()
}

/// Relies on `DashMap::get`, handing out a clone of the stored value.
#[verifier::external_body]
pub fn registry_get<V: Clone>(m: &DashMap<String, V>, name: &str) -> (r: Option<V>) {
    m.get(name).map(|e| e.value().clone())
}

/// Relies on `DashMap::iter`, handing out clones of the stored values.
#[verifier::external_body]
pub fn registry_values<V: Clone>(m: &DashMap<String, V>) -> (r: Vec<V>) {
    m.iter().map(|e| e.value().clone()).collect()
}

/// Relies on `DashMap::clear`.
#[verifier::external_body]
pub fn registry_clear<V>(m: &DashMap<String, V>) {
    m.clear()
}

/// Relies on `DashMap::len`.
#[verifier::external_body]
pub fn registry_len<V>(m: &DashMap<String, V>) -> (r: usize) {
    m.len()
}

/// Relies on `tokio::sync::watch::channel`; only the sending half is kept.
#[verifier::external_body]
pub fn signal_new(initial: bool) -> (r: tokio::sync::watch::Sender<bool>) {
    tokio::sync::watch::channel(initial).0
}

/// Relies on `watch::Sender::send_replace`, which stores the value even with no receiver.
#[verifier::external_body]
pub fn signal_set(tx: &tokio::sync::watch::Sender<bool>, v: bool) {
    tx.send_replace(v);
}

/// Relies on `watch::Sender::borrow`: the value last stored.
#[verifier::external_body]
pub fn signal_get(tx: &tokio::sync::watch::Sender<bool>) -> (r: bool) {
    *tx.borrow()
}

/// Relies on `watch::Sender::subscribe`.
#[verifier::external_body]
pub fn signal_subscribe(tx: &tokio::sync::watch::Sender<bool>) -> (r: tokio::sync::watch::Receiver<bool>) {
    tx.subscribe()
}

} // verus!
