//! Logical channel descriptor (vendor extension tag 0x83): the
//! broadcaster-assigned channel numbers for services.

use vstd::prelude::*;

use crate::error::DecodeError;
use crate::utils::{be16, combine_parsed, decoded_as, spec_be16};

verus! {

pub const DESCRIPTOR_ID: u8 = 0x83;

#[derive(Debug, Clone)]
pub struct LogicalChannel {
    pub elements: Vec<LogicalChannelDescriptorElement>,
}

#[derive(Debug, Copy, Clone, PartialEq, Eq, Structural)]
pub struct LogicalChannelDescriptorElement {
    pub service_id: u16,
    pub visible_service: bool,
    pub logical_channel_number: u16,
}

impl View for LogicalChannel {
    type V = Seq<LogicalChannelDescriptorElement>;

    open spec fn view(&self) -> Seq<LogicalChannelDescriptorElement> {
        self.elements@
    }
}

/// What [`LogicalChannel::from_buf`] decodes: consecutive 4-byte entries,
/// each a 16-bit service id, a visible flag, and a 10-bit channel number
/// of which this decoder keeps the low 2 bits of the third byte and the
/// whole fourth byte.
pub open spec fn spec_logical_channel(
    b: Seq<u8>,
) -> Result<Seq<LogicalChannelDescriptorElement>, DecodeError>
    decreases b.len(),
{
    if b.len() == 0 {
        Ok(Seq::empty())
    } else if b.len() < 4 {
        Err(DecodeError::ShortBuffer)
    } else {
        let e = LogicalChannelDescriptorElement {
            service_id: spec_be16(b[0], b[1]),
            visible_service: (b[2] & 0x80) != 0,
            logical_channel_number: spec_be16(b[2] & 0x03, b[3]),
        };
        match spec_logical_channel(b.skip(4)) {
            Ok(rest) => Ok(seq![e] + rest),
            Err(err) => Err(err),
        }
    }
}

impl LogicalChannel {
    pub fn from_buf(buf: &[u8]) -> (r: Result<LogicalChannel, DecodeError>)
        ensures
            decoded_as(r, spec_logical_channel(buf@)),
    {
        let mut elements: Vec<LogicalChannelDescriptorElement> = Vec::new();

        proof {
            assert(buf@.skip(0) =~= buf@);
            assert(elements@ =~= Seq::<LogicalChannelDescriptorElement>::empty());
        }

        let mut offset: usize = 0;
        while offset < buf.len()
            invariant
                offset <= buf.len(),
                spec_logical_channel(buf@) == combine_parsed(
                    elements@,
                    spec_logical_channel(buf@.skip(offset as int)),
                ),
            decreases buf.len() - offset,
        {
            let ghost rem = buf@.skip(offset as int);
            if buf.len() - offset < 4 {
                return Err(DecodeError::ShortBuffer);
            }
            let element = LogicalChannelDescriptorElement {
                service_id: be16(buf[offset], buf[offset + 1]),
                visible_service: (buf[offset + 2] & 0x80) != 0,
                logical_channel_number: be16(buf[offset + 2] & 0x03, buf[offset + 3]),
            };
            proof {
                assert(rem[0] == buf@[offset as int]);
                assert(rem[1] == buf@[offset as int + 1]);
                assert(rem[2] == buf@[offset as int + 2]);
                assert(rem[3] == buf@[offset as int + 3]);
                assert(rem.skip(4) =~= buf@.skip(offset as int + 4));
                match spec_logical_channel(buf@.skip(offset as int + 4)) {
                    Ok(rest) => {
                        assert(elements@ + (seq![element] + rest)
                            =~= elements@.push(element) + rest);
                    },
                    Err(_) => {},
                }
            }
            elements.push(element);
            offset = offset + 4;
        }

        proof {
            assert(buf@.skip(buf@.len() as int) =~= Seq::<u8>::empty());
            assert(elements@ + Seq::<LogicalChannelDescriptorElement>::empty() =~= elements@);
        }
        Ok(LogicalChannel { elements })
    }
}

} // verus!
