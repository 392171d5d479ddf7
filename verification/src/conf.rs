//! Channel configuration files for use with other programs or with
//! this library.

pub mod vdr;
