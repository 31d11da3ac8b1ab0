//! A two-actor fund-custody state machine.
//!
//! A master actor, controlled by an admin identity, may spawn a slave actor
//! at creation time, accept deposits, and later redirect its entire balance
//! to the slave, which can in turn be told to forward the funds back to the
//! admin. This crate holds the actor's decision logic: every entry point is
//! a function from the persisted state and the invocation's plain inputs to
//! a verdict, a new state and a queue of deferred effects. The surrounding
//! ledger runtime, the durable store, the identity validator and the message
//! codec are external collaborators: they hand these functions plain values
//! and carry out the effects they decide.

pub mod contract;
pub mod effects;
pub mod error;
pub mod msg;
pub mod state;
