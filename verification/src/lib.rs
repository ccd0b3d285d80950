//! An escrow-style order and payment tracker, with a small to-do list beside it.
//!
//! An owner creates orders for a payer and an amount, the payer settles an
//! order by attaching funds to a call, and the owner may later refund a
//! settled order. Every operation either commits as a whole or is rejected
//! with an [`error::EscrowError`] and leaves the state untouched.
//!
//! The library never talks to a ledger or a clock itself: callers hand in the
//! caller's identity, the attached value and the current time as plain values,
//! and receive a [`order::Payout`] that tells them which transfer to request.
//! A caller that cannot request that transfer must drop the new state with it.
//!
//! - [`order`]: an order, its lifecycle and what each step pays out;
//! - [`store`]: the mapping from identifiers to orders;
//! - [`escrow`]: the decisions on each operation, and the contract that
//!   applies them to its store;
//! - [`laws`]: what holds of the contract across calls;
//! - [`error`]: why an operation was rejected;
//! - [`todo_list`]: a list of pieces of work and their deadlines.

pub mod error;
pub mod order;
pub mod store;
pub mod escrow;
pub mod laws;
pub mod todo_list;
