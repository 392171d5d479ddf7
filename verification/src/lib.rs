//! A library for working with Linux DVB (Digital Video Broadcasting)
//! receivers: frequency band enumeration, MPEG PSI/SI section decoding,
//! transponder scanning decisions, and VDR-style channel list handling.
//!
//! The hardware-facing pieces (frontend and demux device drivers) live
//! outside this crate; everything here is pure computation over plain
//! values, specified and verified.

pub mod bands;
pub mod conf;
pub mod demux;
pub mod error;
pub mod frontend;
pub mod interpret;
pub mod mpeg;
pub mod scan;
pub mod si;
pub mod utils;
