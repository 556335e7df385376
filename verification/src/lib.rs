//! A verified core for orchestrating payment and payout transactions.
//!
//! The crate models the lifecycle of merchant-scoped transactions: a payment
//! *intent* and its connector-facing *attempts*, payouts with their own
//! attempt rows, and the background jobs that re-enter a flow asynchronously.
//! Every mutating flow follows the same three-stage pipeline — validate the
//! request, load and guard current state, persist the computed transition —
//! and each stage carries a contract that pins its result down.
//!
//! Storage is modelled as an in-memory table set ([`store::Store`]) whose
//! operations mirror predicate-qualified database writes: every lookup and
//! update is scoped by merchant id, a lost race surfaces as `NotFound`, and
//! an update computing an empty change set is success with the unmodified
//! row, never an error.

pub mod aggregate;
pub mod cancel;
pub mod enums;
pub mod errors;
pub mod keyed;
pub mod payout_attempt;
pub mod payouts_flow;
pub mod records;
pub mod scheduler;
pub mod store;
pub mod tokens;
pub mod updates;
