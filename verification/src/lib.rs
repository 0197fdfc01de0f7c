//! Activity aggregation for ledger accounts.
//!
//! Given a validated account address together with the raw results of a
//! signature listing and the per-signature transaction lookups, this crate
//! reconstructs the net balance change of the address in each transaction and
//! normalizes everything into a stable list of activity records.  All failure
//! paths of a single transaction lookup degrade to an "unknown" delta and fee
//! instead of failing the whole request.

pub mod address;
pub mod assemble;
pub mod delta;
pub mod timefmt;
pub mod types;
