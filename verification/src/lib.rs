//! Error normalization for a serial-port access library.
//!
//! Platform failures — POSIX error codes, wrapped input/output failures, and
//! device-enumeration failures — are folded into a single error value that
//! carries a kind out of a closed set and a human-readable message.

pub mod error;
pub mod posix;
