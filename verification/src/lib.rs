//! Core of a shielded-wallet daemon: resolution of caller-supplied account
//! references to canonical account identifiers, deterministic derivation of
//! multi-receiver unified addresses, and a registry of asynchronous wallet
//! operations, together with the daemon's configuration sections.

pub mod account;
pub mod address_book;
pub mod config;
pub mod diversifier;
pub mod errors;
pub mod ops;
pub mod receiver;
pub mod resolver;
