//! A rental escrow engine: owners register rental terms, tenants check in by
//! paying rent and deposit into a vault derived from their tenancy, and check
//! out by having the vault released back under the tenancy's derived
//! authority.

pub mod address;
pub mod derivation;
pub mod engine;
pub mod laws;
pub mod state;
pub mod table;
