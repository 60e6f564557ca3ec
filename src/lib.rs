//! Batch transfers of a fixed native-token amount from a pool of senders to a
//! list of recipients: configuration checks, key decoding, sender assignment
//! and the per-transfer decision machine. Network I/O is left to the caller.

pub mod base58;
pub mod config;
pub mod dispatch;
pub mod keys;
