//! Inventory of cryptographic key objects held by a key-custody backend.
//!
//! The library parses connection descriptors, resolves client credentials,
//! normalizes backend attribute sets into one key-record model, and builds
//! the deterministically sorted inventory. Backend I/O (the network protocol
//! client and the hardware-token driver) lives outside the library and hands
//! plain values in and out.

pub mod config;
pub mod error;
pub mod inventory;
pub mod key;
pub mod kmip;
pub mod pkcs11;
pub mod text;
pub mod util;
