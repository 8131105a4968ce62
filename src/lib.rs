//! Issuance of fungible, semi-fungible and non-fungible tokens: the request
//! model, the projection of a request onto its on-ledger metadata record, the
//! positional resource bundle, and the ordered pipeline of ledger steps.

pub mod address;
pub mod data;
pub mod descriptor;
pub mod entry;
pub mod laws;
pub mod minter;
pub mod resources;
pub mod transfer;
