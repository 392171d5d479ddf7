//! Typed views of the frontend property interface, split into queries
//! that read values back and properties that are set.

pub mod get;
pub mod set;
