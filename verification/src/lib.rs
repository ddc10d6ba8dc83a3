//! Model of a ledger-stored transaction and its dispatch toward an external
//! execution engine: bounded value types, a validated event record, the
//! canonical transaction record, its four kind-specific projections with
//! range validation, and the per-kind execution contexts.

pub mod bounded;
pub mod event;
pub mod felt;
pub mod transaction;
pub mod word;
