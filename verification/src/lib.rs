//! Settling a dispute on a trade by order of its solver.
//!
//! A solver asks the daemon to settle the seller's escrow in the buyer's
//! favor. The handler of that request decides step by step: [`types::Stage`]
//! says what is to be performed next, and [`handler::admin_settle_action`]
//! takes the answer to the next stage. It performs nothing itself, so that it
//! runs the same over any database, Lightning node and relay.
//!
//! [`model`] states what the handler does, [`steps`] what holds of each of its
//! steps, [`laws`] what holds of every run of it, and [`claims`] what holds of
//! requests that race for one order.

pub mod claims;
pub mod handler;
pub mod key;
pub mod laws;
pub mod model;
pub mod status;
pub mod steps;
pub mod types;
