//! A fixed-size worker thread pool: units of work submitted from any
//! thread are handed over a single shared queue and executed, each
//! exactly once, by one of a bounded set of long-lived workers.
//!
//! The executable pool lives in [`pool`], over the trusted channel and
//! lock wrappers of `chan` and the type-erased unit of work of `task`.
//! What the running pool guarantees across threads is stated and proved
//! as a state machine in [`protocol`] — exactly-once delivery, claims
//! served oldest first, no worker stalled by a busy one, failing work
//! isolated to its own worker, and a backlog that always drains — and
//! [`sim`] makes that same machine executable so concrete schedules can
//! be replayed. [`routes`] carries the one decision of the accompanying
//! request handler.

mod chan;
pub mod pool;
pub mod protocol;
pub mod routes;
pub mod sim;
mod task;
