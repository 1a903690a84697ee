//! A verified escrow payment controller.
//!
//! The library custodies a buyer's funds until one of three resolving events
//! occurs: merchant-confirmed release, customer-initiated timeout refund, or
//! administrator-forced refund. The registry enforces who may trigger which
//! transition, under what preconditions, and how the transitions compose with
//! a ledger of fungible balances.
//!
//! The on-chain plumbing (durable storage, authentication, the token client,
//! the clock, event emission) is host-bound and stays outside the library; the
//! registry here is the decision core it drives: state and inputs go in, the
//! new state, the result, and the balance movement come out, all of it
//! specified and proved.

pub mod types;
pub mod ledger;
pub mod registry;
pub mod laws;
