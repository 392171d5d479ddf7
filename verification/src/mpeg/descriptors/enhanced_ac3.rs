//! Enhanced AC-3 descriptor (ETSI EN 300 468 annex D).

use vstd::prelude::*;

use crate::error::DecodeError;
use crate::utils::decoded_as;

verus! {

pub const DESCRIPTOR_ID: u8 = 0x7a;

#[derive(Debug, Clone)]
pub struct EnhancedAc3 {
    pub mixinfoexists: bool,
    pub component_type: Option<EnhancedAc3ComponentType>,
    pub bsid: Option<u8>,
    pub mainid: Option<u8>,
    pub asvc: Option<u8>,
    pub substream1: Option<u8>,
    pub substream2: Option<u8>,
    pub substream3: Option<u8>,
    pub additional_info: Vec<u8>,
}

#[derive(Debug, Copy, Clone, PartialEq, Eq, Structural)]
pub struct EnhancedAc3ComponentType {
    pub enhanced: bool,
    pub full_service: bool,
    pub service_type: EnhancedAc3ServiceType,
    pub channel_setup: EnhancedAc3ChannelSetup,
}

#[derive(Debug, Copy, Clone, PartialEq, Eq, Structural)]
pub enum EnhancedAc3ServiceType {
    CompleteMain,
    MusicAndEffects,
    VisuallyImpaired,
    HearingImpaired,
    Dialogue,
    Commentary,
    Emergency,
    Voiceover,
    Karaoke,
    _Invalid(bool, bool, bool),
}

#[derive(Debug, Copy, Clone, PartialEq, Eq, Structural)]
pub enum EnhancedAc3ChannelSetup {
    Mono,
    TwoIndependent,
    Stereo,
    SurroundStereoEncoded,
    MultichannelOver2,
    MultichannelOver5Dot1,
    Independent,
    Reserved,
}

/// The mathematical value of an [`EnhancedAc3`].
pub struct EnhancedAc3Model {
    pub mixinfoexists: bool,
    pub component_type: Option<EnhancedAc3ComponentType>,
    pub bsid: Option<u8>,
    pub mainid: Option<u8>,
    pub asvc: Option<u8>,
    pub substream1: Option<u8>,
    pub substream2: Option<u8>,
    pub substream3: Option<u8>,
    pub additional_info: Seq<u8>,
}

impl View for EnhancedAc3 {
    type V = EnhancedAc3Model;

    open spec fn view(&self) -> EnhancedAc3Model {
        EnhancedAc3Model {
            mixinfoexists: self.mixinfoexists,
            component_type: self.component_type,
            bsid: self.bsid,
            mainid: self.mainid,
            asvc: self.asvc,
            substream1: self.substream1,
            substream2: self.substream2,
            substream3: self.substream3,
            additional_info: self.additional_info@,
        }
    }
}

/// The decoded component type byte: three type bits together with the
/// full-service flag select the service type; the same three bits alone
/// select the channel setup.
pub open spec fn spec_eac3_component_type(byte: u8) -> EnhancedAc3ComponentType {
    let full_service = (byte & 0x40) != 0;
    let x = (byte & 0x20) != 0;
    let y = (byte & 0x10) != 0;
    let z = (byte & 0x08) != 0;
    EnhancedAc3ComponentType {
        enhanced: (byte & 0x80) != 0,
        full_service,
        service_type: if !x && !y && !z && full_service {
            EnhancedAc3ServiceType::CompleteMain
        } else if !x && !y && z && !full_service {
            EnhancedAc3ServiceType::MusicAndEffects
        } else if !x && y && !z {
            EnhancedAc3ServiceType::VisuallyImpaired
        } else if !x && y && z {
            EnhancedAc3ServiceType::HearingImpaired
        } else if x && !y && !z && !full_service {
            EnhancedAc3ServiceType::Dialogue
        } else if x && !y && z {
            EnhancedAc3ServiceType::Commentary
        } else if x && y && !z && full_service {
            EnhancedAc3ServiceType::Emergency
        } else if x && y && z && !full_service {
            EnhancedAc3ServiceType::Voiceover
        } else if x && y && z && full_service {
            EnhancedAc3ServiceType::Karaoke
        } else {
            EnhancedAc3ServiceType::_Invalid(x, y, z)
        },
        channel_setup: if !x && !y && !z {
            EnhancedAc3ChannelSetup::Mono
        } else if !x && !y && z {
            EnhancedAc3ChannelSetup::TwoIndependent
        } else if !x && y && !z {
            EnhancedAc3ChannelSetup::Stereo
        } else if !x && y && z {
            EnhancedAc3ChannelSetup::SurroundStereoEncoded
        } else if x && !y && !z {
            EnhancedAc3ChannelSetup::MultichannelOver2
        } else if x && !y && z {
            EnhancedAc3ChannelSetup::MultichannelOver5Dot1
        } else if x && y && !z {
            EnhancedAc3ChannelSetup::Independent
        } else {
            EnhancedAc3ChannelSetup::Reserved
        },
    }
}

/// What [`EnhancedAc3::from_buf`] decodes: a flag byte announces which
/// of seven optional one-byte fields follow, in a fixed order; the rest
/// of the buffer is free-form additional info.
pub open spec fn spec_enhanced_ac3(b: Seq<u8>) -> Result<EnhancedAc3Model, DecodeError> {
    if b.len() < 1 {
        Err(DecodeError::ShortBuffer)
    } else {
        let component_type_flag = (b[0] & 0x80) != 0;
        let bsid_flag = (b[0] & 0x40) != 0;
        let mainid_flag = (b[0] & 0x20) != 0;
        let asvc_flag = (b[0] & 0x10) != 0;
        let substream1_flag = (b[0] & 0x04) != 0;
        let substream2_flag = (b[0] & 0x02) != 0;
        let substream3_flag = (b[0] & 0x01) != 0;
        let o1: int = 1;
        let o2: int = o1 + if component_type_flag { 1int } else { 0int };
        let o3: int = o2 + if bsid_flag { 1int } else { 0int };
        let o4: int = o3 + if mainid_flag { 1int } else { 0int };
        let o5: int = o4 + if asvc_flag { 1int } else { 0int };
        let o6: int = o5 + if substream1_flag { 1int } else { 0int };
        let o7: int = o6 + if substream2_flag { 1int } else { 0int };
        let end: int = o7 + if substream3_flag { 1int } else { 0int };
        if b.len() < end {
            Err(DecodeError::ShortBuffer)
        } else {
            Ok(EnhancedAc3Model {
                mixinfoexists: (b[0] & 0x08) != 0,
                component_type: if component_type_flag {
                    Some(spec_eac3_component_type(b[o1]))
                } else {
                    None
                },
                bsid: if bsid_flag { Some(b[o2]) } else { None },
                mainid: if mainid_flag { Some(b[o3]) } else { None },
                asvc: if asvc_flag { Some(b[o4]) } else { None },
                substream1: if substream1_flag { Some(b[o5]) } else { None },
                substream2: if substream2_flag { Some(b[o6]) } else { None },
                substream3: if substream3_flag { Some(b[o7]) } else { None },
                additional_info: b.skip(end),
            })
        }
    }
}

fn eac3_component_type(byte: u8) -> (r: EnhancedAc3ComponentType)
    ensures
        r == spec_eac3_component_type(byte),
{
    let full_service = (byte & 0x40) != 0;
    let x = (byte & 0x20) != 0;
    let y = (byte & 0x10) != 0;
    let z = (byte & 0x08) != 0;
    EnhancedAc3ComponentType {
        enhanced: (byte & 0x80) != 0,
        full_service,
        service_type: match (x, y, z, full_service) {
            (false, false, false, true) => EnhancedAc3ServiceType::CompleteMain,
            (false, false, true, false) => EnhancedAc3ServiceType::MusicAndEffects,
            (false, true, false, _) => EnhancedAc3ServiceType::VisuallyImpaired,
            (false, true, true, _) => EnhancedAc3ServiceType::HearingImpaired,
            (true, false, false, false) => EnhancedAc3ServiceType::Dialogue,
            (true, false, true, _) => EnhancedAc3ServiceType::Commentary,
            (true, true, false, true) => EnhancedAc3ServiceType::Emergency,
            (true, true, true, false) => EnhancedAc3ServiceType::Voiceover,
            (true, true, true, true) => EnhancedAc3ServiceType::Karaoke,
            (a, b, c, _) => EnhancedAc3ServiceType::_Invalid(a, b, c),
        },
        channel_setup: match (x, y, z) {
            (false, false, false) => EnhancedAc3ChannelSetup::Mono,
            (false, false, true) => EnhancedAc3ChannelSetup::TwoIndependent,
            (false, true, false) => EnhancedAc3ChannelSetup::Stereo,
            (false, true, true) => EnhancedAc3ChannelSetup::SurroundStereoEncoded,
            (true, false, false) => EnhancedAc3ChannelSetup::MultichannelOver2,
            (true, false, true) => EnhancedAc3ChannelSetup::MultichannelOver5Dot1,
            (true, true, false) => EnhancedAc3ChannelSetup::Independent,
            (true, true, true) => EnhancedAc3ChannelSetup::Reserved,
        },
    }
}

impl EnhancedAc3 {
    pub fn from_buf(buf: &[u8]) -> (r: Result<EnhancedAc3, DecodeError>)
        ensures
            decoded_as(r, spec_enhanced_ac3(buf@)),
    {
        if buf.len() < 1 {
            return Err(DecodeError::ShortBuffer);
        }
        let component_type_flag = (buf[0] & 0x80) != 0;
        let bsid_flag = (buf[0] & 0x40) != 0;
        let mainid_flag = (buf[0] & 0x20) != 0;
        let asvc_flag = (buf[0] & 0x10) != 0;
        let mixinfoexists = (buf[0] & 0x08) != 0;
        let substream1_flag = (buf[0] & 0x04) != 0;
        let substream2_flag = (buf[0] & 0x02) != 0;
        let substream3_flag = (buf[0] & 0x01) != 0;

        let mut offset: usize = 1;

        let component_type = if component_type_flag {
            if offset >= buf.len() {
                return Err(DecodeError::ShortBuffer);
            }
            let r = Some(eac3_component_type(buf[offset]));
            offset = offset + 1;
            r
        } else {
            None
        };

        let bsid = if bsid_flag {
            if offset >= buf.len() {
                return Err(DecodeError::ShortBuffer);
            }
            let r = Some(buf[offset]);
            offset = offset + 1;
            r
        } else {
            None
        };

        let mainid = if mainid_flag {
            if offset >= buf.len() {
                return Err(DecodeError::ShortBuffer);
            }
            let r = Some(buf[offset]);
            offset = offset + 1;
            r
        } else {
            None
        };

        let asvc = if asvc_flag {
            if offset >= buf.len() {
                return Err(DecodeError::ShortBuffer);
            }
            let r = Some(buf[offset]);
            offset = offset + 1;
            r
        } else {
            None
        };

        let substream1 = if substream1_flag {
            if offset >= buf.len() {
                return Err(DecodeError::ShortBuffer);
            }
            let r = Some(buf[offset]);
            offset = offset + 1;
            r
        } else {
            None
        };

        let substream2 = if substream2_flag {
            if offset >= buf.len() {
                return Err(DecodeError::ShortBuffer);
            }
            let r = Some(buf[offset]);
            offset = offset + 1;
            r
        } else {
            None
        };

        let substream3 = if substream3_flag {
            if offset >= buf.len() {
                return Err(DecodeError::ShortBuffer);
            }
            let r = Some(buf[offset]);
            offset = offset + 1;
            r
        } else {
            None
        };

        let additional_info = vstd::slice::slice_to_vec(
            vstd::slice::slice_subrange(buf, offset, buf.len()),
        );
        proof {
            assert(buf@.subrange(offset as int, buf@.len() as int) =~= buf@.skip(offset as int));
        }
        Ok(EnhancedAc3 {
            mixinfoexists,
            component_type,
            bsid,
            mainid,
            asvc,
            substream1,
            substream2,
            substream3,
            additional_info,
        })
    }
}

} // verus!
