//! Private data specifier descriptor.

use vstd::prelude::*;

use crate::error::DecodeError;
use crate::utils::{be32, spec_be32};

verus! {

pub const DESCRIPTOR_ID: u8 = 0x5f;

#[derive(Debug, Copy, Clone, PartialEq, Eq, Structural)]
pub struct PrivateDataSpecifier {
    pub specifier: u32,
}

/// What [`PrivateDataSpecifier::from_buf`] decodes: one big-endian
/// 32-bit value.
pub open spec fn spec_private_data_specifier(
    b: Seq<u8>,
) -> Result<PrivateDataSpecifier, DecodeError> {
    if b.len() < 4 {
        Err(DecodeError::ShortBuffer)
    } else {
        Ok(PrivateDataSpecifier { specifier: spec_be32(b[0], b[1], b[2], b[3]) })
    }
}

impl PrivateDataSpecifier {
    pub fn from_buf(buf: &[u8]) -> (r: Result<PrivateDataSpecifier, DecodeError>)
        ensures
            r == spec_private_data_specifier(buf@),
    {
        if buf.len() < 4 {
            return Err(DecodeError::ShortBuffer);
        }
        Ok(PrivateDataSpecifier { specifier: be32(buf[0], buf[1], buf[2], buf[3]) })
    }
}

} // verus!
