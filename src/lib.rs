//! An actor runtime: isolated actors with private state exchange type-keyed messages,
//! swap their behavior at run time, are supervised and restarted from a pristine
//! backup, and can be driven step by step by a scripted test actor.
//!
//! The library is the runtime's kernel: envelopes, addresses, mailboxes, behaviors
//! and their dispatch, the actor's run-loop decisions, the registry of the actor
//! system, supervision and the test driver. It is synchronous: whoever hosts it
//! awaits mailboxes and schedules actors, and supplies the payload carrier that
//! erases message types (see [`Carrier`]).

pub mod bindings;
pub mod message;
pub mod address;
pub mod mailbox;
pub mod behavior;
pub mod actor;
pub mod actor_system;
pub mod supervision;
pub mod testing;
pub mod laws;

pub use address::Addr;
pub use message::{Carrier, Message};
