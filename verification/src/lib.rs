//! A verified model of a single-unit (non-fungible) token issuance flow on
//! an account-based ledger: deterministic derivation of program-owned
//! addresses, creation of a unit-supply mint record, and atomic binding of
//! an immutable metadata record through a cross-program call into a
//! metadata registry.
//!
//! The flow is layered as the system is: `addr` and `records` give the
//! account model, `derive` the address deriver, `ledger` the host ledger's
//! typed account store, `issuer` the mint issuer, `registry` the metadata
//! registry reached over a message-passing boundary, `binder` the metadata
//! binder that constructs and dispatches the cross-program call, and
//! `orchestrator` the public issuance entry point with all-or-nothing
//! semantics. `poll` holds a sibling record shape of a neighboring
//! program.

pub mod addr;
pub mod errors;
pub mod records;
pub mod ledger;
pub mod derive;
pub mod issuer;
pub mod registry;
pub mod binder;
pub mod orchestrator;
pub mod poll;
