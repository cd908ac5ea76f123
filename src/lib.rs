//! Resolves a compact channel identifier to the transaction output it names.
//!
//! The identifier is decoded into a block height, a transaction position and an
//! output index; the transaction fetched from a data gateway is decoded from hex
//! text and its consensus encoding; the requested output is then handed back by
//! value.

pub mod adapter;
pub mod gateway;
pub mod scid;
pub mod transaction;
