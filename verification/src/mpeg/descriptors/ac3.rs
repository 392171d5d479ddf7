//! AC-3 descriptor (ETSI EN 300 468 annex D).

use vstd::prelude::*;

use crate::error::DecodeError;
use crate::utils::decoded_as;

verus! {

pub const DESCRIPTOR_ID: u8 = 0x6a;

#[derive(Debug, Clone)]
pub struct Ac3 {
    pub component_type: Option<u8>,
    pub bsid: Option<u8>,
    pub mainid: Option<u8>,
    pub asvc: Option<u8>,
    pub additional_info_byte: Vec<u8>,
}

/// The mathematical value of an [`Ac3`].
pub struct Ac3Model {
    pub component_type: Option<u8>,
    pub bsid: Option<u8>,
    pub mainid: Option<u8>,
    pub asvc: Option<u8>,
    pub additional_info_byte: Seq<u8>,
}

impl View for Ac3 {
    type V = Ac3Model;

    open spec fn view(&self) -> Ac3Model {
        Ac3Model {
            component_type: self.component_type,
            bsid: self.bsid,
            mainid: self.mainid,
            asvc: self.asvc,
            additional_info_byte: self.additional_info_byte@,
        }
    }
}

/// What [`Ac3::from_buf`] decodes: a flag byte announces which of four
/// optional one-byte fields follow, in a fixed order; the rest of the
/// buffer is free-form additional info.
pub open spec fn spec_ac3(b: Seq<u8>) -> Result<Ac3Model, DecodeError> {
    if b.len() < 1 {
        Err(DecodeError::ShortBuffer)
    } else {
        let component_type_flag = (b[0] & 0x80) != 0;
        let bsid_flag = (b[0] & 0x40) != 0;
        let mainid_flag = (b[0] & 0x20) != 0;
        let asvc_flag = (b[0] & 0x10) != 0;
        let o1: int = 1;
        let o2: int = o1 + if component_type_flag { 1int } else { 0int };
        let o3: int = o2 + if bsid_flag { 1int } else { 0int };
        let o4: int = o3 + if mainid_flag { 1int } else { 0int };
        let end: int = o4 + if asvc_flag { 1int } else { 0int };
        if b.len() < end {
            Err(DecodeError::ShortBuffer)
        } else {
            Ok(Ac3Model {
                component_type: if component_type_flag { Some(b[o1]) } else { None },
                bsid: if bsid_flag { Some(b[o2]) } else { None },
                mainid: if mainid_flag { Some(b[o3]) } else { None },
                asvc: if asvc_flag { Some(b[o4]) } else { None },
                additional_info_byte: b.skip(end),
            })
        }
    }
}

impl Ac3 {
    pub fn from_buf(buf: &[u8]) -> (r: Result<Ac3, DecodeError>)
        ensures
            decoded_as(r, spec_ac3(buf@)),
    {
        if buf.len() < 1 {
            return Err(DecodeError::ShortBuffer);
        }
        let component_type_flag = (buf[0] & 0x80) != 0;
        let bsid_flag = (buf[0] & 0x40) != 0;
        let mainid_flag = (buf[0] & 0x20) != 0;
        let asvc_flag = (buf[0] & 0x10) != 0;

        let mut offset: usize = 1;

        let component_type = if component_type_flag {
            if offset >= buf.len() {
                return Err(DecodeError::ShortBuffer);
            }
            let r = Some(buf[offset]);
            offset = offset + 1;
            r
        } else {
            None
        };

        let bsid = if bsid_flag {
            if offset >= buf.len() {
                return Err(DecodeError::ShortBuffer);
            }
            let r = Some(buf[offset]);
            offset = offset + 1;
            r
        } else {
            None
        };

        let mainid = if mainid_flag {
            if offset >= buf.len() {
                return Err(DecodeError::ShortBuffer);
            }
            let r = Some(buf[offset]);
            offset = offset + 1;
            r
        } else {
            None
        };

        let asvc = if asvc_flag {
            if offset >= buf.len() {
                return Err(DecodeError::ShortBuffer);
            }
            let r = Some(buf[offset]);
            offset = offset + 1;
            r
        } else {
            None
        };

        let additional_info_byte = vstd::slice::slice_to_vec(
            vstd::slice::slice_subrange(buf, offset, buf.len()),
        );
        proof {
            assert(buf@.subrange(offset as int, buf@.len() as int) =~= buf@.skip(offset as int));
        }
        Ok(Ac3 { component_type, bsid, mainid, asvc, additional_info_byte })
    }
}

} // verus!
