//! An idempotent bulk-dispatch pipeline for a newsletter service.
//!
//! A publish request carries a caller-supplied idempotency key scoped to the
//! authenticated identity.  The idempotency store keeps one outcome per
//! `(identity, key)` pair: a retried request replays the recorded response
//! byte for byte instead of re-triggering deliveries, and a concurrent
//! duplicate is rejected as a conflict.  Dispatch fans a message out to many
//! recipients while isolating per-recipient failures, so one bad address
//! never aborts the batch.  Subscriber names, addresses and keys are
//! validated on construction and carry their invariants in their types.

pub mod auth;
pub mod domain;
pub mod idempotency;
pub mod publish;
pub mod startup;
pub mod subscriptions;
pub mod subscriptions_confirm;
pub mod text;
