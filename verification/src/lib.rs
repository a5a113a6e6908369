//! Note-based asset transfer protocol layer.
//!
//! The crate builds cryptographically committed transfer notes (pay-to-id
//! notes and faucet issuance notes), assembles transaction requests around
//! them, and tracks a submitted transaction through a confirmation state
//! machine until it is committed or discarded.  Network transport, key
//! storage and process bootstrapping are external collaborators and stay
//! outside this crate.

pub mod account;
pub mod asset;
pub mod crypto;
pub mod errors;
pub mod field;
pub mod hexfmt;
pub mod note;
pub mod request;
pub mod serial;
pub mod tracker;
