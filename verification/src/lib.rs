//! Phase-gated issuance of unique tokens ("editions") with delegated,
//! derivation-based authority.
//!
//! The crate models the records of the system — deployment descriptions,
//! issuance ledgers, sale-phase controls, per-minter counters, inscriptions
//! and metadata — as plain values, and verifies the operations on them:
//! authority derivation and verification, the core mint step, the
//! phase-gated purchase path, one-way authority relinquishment, and
//! holder-gated writes into content records.
//!
//! Address derivation itself is performed by the underlying token
//! substrate's derivation primitive; everything that decides or mutates
//! state on top of it is verified here.

pub mod address;
pub mod controls;
pub mod deployment;
pub mod errors;
pub mod hashlist;
pub mod inscriptions;
pub mod legacy;
pub mod lifecycle;
pub mod metadata;
pub mod mint_engine;
pub mod tags;
