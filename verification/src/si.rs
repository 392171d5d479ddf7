//! Service information tables: PAT, PMT, NIT and SDT.

pub mod nit;
pub mod pat;
pub mod pmt;
pub mod sdt;
