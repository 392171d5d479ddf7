//! Terrestrial delivery system descriptor.

use vstd::prelude::*;

use crate::error::DecodeError;
use crate::utils::{be32, spec_be32};

verus! {

pub const DESCRIPTOR_ID: u8 = 0x5a;

#[derive(Debug, Copy, Clone, PartialEq, Eq, Structural)]
pub struct TerrestrialDeliverySystem {
    pub center_frequency: i32,
    pub bandwidth: u8,
    pub priority: bool,
    pub time_slicing_indicator: bool,
    pub mpe_fec_indicator: bool,
    pub constellation: u8,
    pub hierarchy_information: u8,
    pub code_rate_hp_stream: u8,
    pub code_rate_lp_stream: u8,
    pub guard_interval: u8,
    pub transmission_mode: u8,
    pub other_frequency_flag: bool,
}

/// What [`TerrestrialDeliverySystem::from_buf`] decodes: a fixed 11-byte
/// layout of packed fields, the centre frequency a plain big-endian
/// 32-bit value.
pub open spec fn spec_terrestrial_delivery_system(
    b: Seq<u8>,
) -> Result<TerrestrialDeliverySystem, DecodeError> {
    if b.len() < 11 {
        Err(DecodeError::ShortBuffer)
    } else {
        Ok(TerrestrialDeliverySystem {
            center_frequency: spec_be32(b[0], b[1], b[2], b[3]) as i32,
            bandwidth: (b[4] & 0xe0) >> 5,
            priority: (b[4] & 0x10) != 0,
            time_slicing_indicator: (b[4] & 0x08) != 0,
            mpe_fec_indicator: (b[4] & 0x04) != 0,
            constellation: (b[5] & 0xc0) >> 6,
            hierarchy_information: (b[5] & 0x38) >> 3,
            code_rate_hp_stream: b[5] & 0x07,
            code_rate_lp_stream: (b[6] & 0xe0) >> 5,
            guard_interval: (b[6] & 0x18) >> 3,
            transmission_mode: (b[6] & 0x06) >> 1,
            other_frequency_flag: (b[6] & 0x01) != 0,
        })
    }
}

impl TerrestrialDeliverySystem {
    pub fn from_buf(buf: &[u8]) -> (r: Result<TerrestrialDeliverySystem, DecodeError>)
        ensures
            r == spec_terrestrial_delivery_system(buf@),
    {
        if buf.len() < 11 {
            return Err(DecodeError::ShortBuffer);
        }
        Ok(TerrestrialDeliverySystem {
            center_frequency: be32(buf[0], buf[1], buf[2], buf[3]) as i32,
            bandwidth: (buf[4] & 0xe0) >> 5,
            priority: (buf[4] & 0x10) != 0,
            time_slicing_indicator: (buf[4] & 0x08) != 0,
            mpe_fec_indicator: (buf[4] & 0x04) != 0,
            constellation: (buf[5] & 0xc0) >> 6,
            hierarchy_information: (buf[5] & 0x38) >> 3,
            code_rate_hp_stream: buf[5] & 0x07,
            code_rate_lp_stream: (buf[6] & 0xe0) >> 5,
            guard_interval: (buf[6] & 0x18) >> 3,
            transmission_mode: (buf[6] & 0x06) >> 1,
            other_frequency_flag: (buf[6] & 0x01) != 0,
        })
    }
}

} // verus!
