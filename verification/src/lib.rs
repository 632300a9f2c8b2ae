//! An escrow for mentoring sessions: a learner deposits tokens for a session,
//! and the deposit is later released to the mentor, returned to the learner, or
//! settled by the administrator of the escrow.
//!
//! The library decides, and leaves the doing to its caller: a host call that
//! fails takes the whole invocation down with it, so none is made here. Each
//! entry point of [`EscrowContract`] reads the plain values in an [`Env`], and
//! either refuses, leaving the `Env` as it was, or updates it and appends to its
//! log, in order, the host work that the call stands for: token transfers,
//! entries to write, lifetimes to extend and events to publish.
//!
//! [`model`] says what each entry point does, and [`laws`] what holds of all of
//! them together.

pub mod contract;
pub mod env;
pub mod laws;
pub mod model;
pub mod table;
pub mod types;

pub use contract::EscrowContract;
pub use env::{Env, Holding, Storage};
pub use types::{
    Action, Address, DisputeOpenedEventData, DisputeResolvedEventData, Escrow,
    EscrowAutoReleasedEventData, EscrowCreatedEventData, EscrowError, EscrowRefundedEventData,
    EscrowReleasedEventData, EscrowStatus, Event, Key, ReviewSubmittedEventData, Symbol,
};
