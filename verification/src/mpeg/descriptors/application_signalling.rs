//! Application signalling descriptor (ETSI TS 102 809).

use vstd::prelude::*;

use crate::error::DecodeError;
use crate::utils::{be16, combine_parsed, decoded_as, spec_be16};

verus! {

pub const DESCRIPTOR_ID: u8 = 0x6f;

#[derive(Debug, Clone)]
pub struct ApplicationSignalling {
    pub elements: Vec<ApplicationSignallingElement>,
}

#[derive(Debug, Copy, Clone, PartialEq, Eq, Structural)]
pub struct ApplicationSignallingElement {
    pub application_type: u16,
    pub ait_version_number: u8,
}

impl View for ApplicationSignalling {
    type V = Seq<ApplicationSignallingElement>;

    open spec fn view(&self) -> Seq<ApplicationSignallingElement> {
        self.elements@
    }
}

/// What [`ApplicationSignalling::from_buf`] decodes: consecutive 3-byte
/// entries, each a 15-bit application type and a 5-bit AIT version.
pub open spec fn spec_application_signalling(
    b: Seq<u8>,
) -> Result<Seq<ApplicationSignallingElement>, DecodeError>
    decreases b.len(),
{
    if b.len() == 0 {
        Ok(Seq::empty())
    } else if b.len() < 3 {
        Err(DecodeError::ShortBuffer)
    } else {
        let e = ApplicationSignallingElement {
            application_type: spec_be16(b[0] & 0x7f, b[1]),
            ait_version_number: b[2] & 0x1f,
        };
        match spec_application_signalling(b.skip(3)) {
            Ok(rest) => Ok(seq![e] + rest),
            Err(err) => Err(err),
        }
    }
}

impl ApplicationSignalling {
    pub fn from_buf(buf: &[u8]) -> (r: Result<ApplicationSignalling, DecodeError>)
        ensures
            decoded_as(r, spec_application_signalling(buf@)),
    {
        let mut elements: Vec<ApplicationSignallingElement> = Vec::new();

        proof {
            assert(buf@.skip(0) =~= buf@);
            assert(elements@ =~= Seq::<ApplicationSignallingElement>::empty());
        }

        let mut offset: usize = 0;
        while offset < buf.len()
            invariant
                offset <= buf.len(),
                spec_application_signalling(buf@) == combine_parsed(
                    elements@,
                    spec_application_signalling(buf@.skip(offset as int)),
                ),
            decreases buf.len() - offset,
        {
            let ghost rem = buf@.skip(offset as int);
            if buf.len() - offset < 3 {
                return Err(DecodeError::ShortBuffer);
            }
            let element = ApplicationSignallingElement {
                application_type: be16(buf[offset] & 0x7f, buf[offset + 1]),
                ait_version_number: buf[offset + 2] & 0x1f,
            };
            proof {
                assert(rem[0] == buf@[offset as int]);
                assert(rem[1] == buf@[offset as int + 1]);
                assert(rem[2] == buf@[offset as int + 2]);
                assert(rem.skip(3) =~= buf@.skip(offset as int + 3));
                match spec_application_signalling(buf@.skip(offset as int + 3)) {
                    Ok(rest) => {
                        assert(elements@ + (seq![element] + rest)
                            =~= elements@.push(element) + rest);
                    },
                    Err(_) => {},
                }
            }
            elements.push(element);
            offset = offset + 3;
        }

        proof {
            assert(buf@.skip(buf@.len() as int) =~= Seq::<u8>::empty());
            assert(elements@ + Seq::<ApplicationSignallingElement>::empty() =~= elements@);
        }
        Ok(ApplicationSignalling { elements })
    }
}

} // verus!
