//! Service list descriptor: the services carried by a transport stream.

use vstd::prelude::*;

use crate::error::DecodeError;
use crate::mpeg::{spec_service_type, ServiceType};
use crate::utils::{be16, combine_parsed, decoded_as, spec_be16};

verus! {

pub const DESCRIPTOR_ID: u8 = 0x41;

#[derive(Debug, Clone)]
pub struct ServiceList {
    pub services: Vec<ServiceListDescriptorElement>,
}

#[derive(Debug, Copy, Clone, PartialEq, Eq, Structural)]
pub struct ServiceListDescriptorElement {
    /// Same as the program number in the program map, except for NVOD
    /// services (service types 0x04, 0x18 and 0x1B per EN 300 468).
    pub service_id: u16,
    pub service_type: ServiceType,
}

impl View for ServiceList {
    type V = Seq<ServiceListDescriptorElement>;

    open spec fn view(&self) -> Seq<ServiceListDescriptorElement> {
        self.services@
    }
}

/// What [`ServiceList::from_buf`] decodes: consecutive 3-byte entries
/// until the buffer is exhausted.
pub open spec fn spec_service_list(
    b: Seq<u8>,
) -> Result<Seq<ServiceListDescriptorElement>, DecodeError>
    decreases b.len(),
{
    if b.len() == 0 {
        Ok(Seq::empty())
    } else if b.len() < 3 {
        Err(DecodeError::ShortBuffer)
    } else {
        let e = ServiceListDescriptorElement {
            service_id: spec_be16(b[0], b[1]),
            service_type: spec_service_type(b[2]),
        };
        match spec_service_list(b.skip(3)) {
            Ok(rest) => Ok(seq![e] + rest),
            Err(err) => Err(err),
        }
    }
}

impl ServiceList {
    pub fn from_buf(buf: &[u8]) -> (r: Result<ServiceList, DecodeError>)
        ensures
            decoded_as(r, spec_service_list(buf@)),
    {
        let mut services: Vec<ServiceListDescriptorElement> = Vec::new();

        proof {
            assert(buf@.skip(0) =~= buf@);
            assert(services@ =~= Seq::<ServiceListDescriptorElement>::empty());
        }

        let mut offset: usize = 0;
        while offset < buf.len()
            invariant
                offset <= buf.len(),
                spec_service_list(buf@) == combine_parsed(
                    services@,
                    spec_service_list(buf@.skip(offset as int)),
                ),
            decreases buf.len() - offset,
        {
            let ghost rem = buf@.skip(offset as int);
            if buf.len() - offset < 3 {
                return Err(DecodeError::ShortBuffer);
            }
            let element = ServiceListDescriptorElement {
                service_id: be16(buf[offset], buf[offset + 1]),
                service_type: ServiceType::from_byte(buf[offset + 2]),
            };
            proof {
                assert(rem[0] == buf@[offset as int]);
                assert(rem[1] == buf@[offset as int + 1]);
                assert(rem[2] == buf@[offset as int + 2]);
                assert(rem.skip(3) =~= buf@.skip(offset as int + 3));
                match spec_service_list(buf@.skip(offset as int + 3)) {
                    Ok(rest) => {
                        assert(services@ + (seq![element] + rest)
                            =~= services@.push(element) + rest);
                    },
                    Err(_) => {},
                }
            }
            services.push(element);
            offset = offset + 3;
        }

        proof {
            assert(buf@.skip(buf@.len() as int) =~= Seq::<u8>::empty());
            assert(services@ + Seq::<ServiceListDescriptorElement>::empty() =~= services@);
        }
        Ok(ServiceList { services })
    }
}

} // verus!
