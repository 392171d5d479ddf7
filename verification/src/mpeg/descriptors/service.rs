//! Service descriptor: the human-readable name, provider and type of a
//! service.

use vstd::prelude::*;

use crate::error::DecodeError;
use crate::mpeg::{
    decode_stupid_string, spec_service_type, trim_controls, utf8_lossy_of, ServiceType,
};
use crate::utils::decoded_as;

verus! {

pub const DESCRIPTOR_ID: u8 = 0x48;

#[derive(Debug, Clone)]
pub struct Service {
    pub service_type: ServiceType,
    pub provider: String,
    pub service: String,
}

/// The mathematical value of a [`Service`].
pub struct ServiceModel {
    pub service_type: ServiceType,
    pub provider: Seq<char>,
    pub service: Seq<char>,
}

impl View for Service {
    type V = ServiceModel;

    open spec fn view(&self) -> ServiceModel {
        ServiceModel {
            service_type: self.service_type,
            provider: self.provider@,
            service: self.service@,
        }
    }
}

/// What [`Service::from_buf`] decodes: a service type byte, then the
/// length-prefixed provider name, then the length-prefixed service
/// name, both read with the library's best-effort text decode.
pub open spec fn spec_service(b: Seq<u8>) -> Result<ServiceModel, DecodeError> {
    if b.len() < 2 {
        Err(DecodeError::ShortBuffer)
    } else if b.len() < 2 + b[1] as int + 1 {
        Err(DecodeError::LengthOutOfRange)
    } else {
        let provider_end = 2 + b[1] as int;
        let service_len = b[provider_end] as int;
        if b.len() < provider_end + 1 + service_len {
            Err(DecodeError::LengthOutOfRange)
        } else {
            Ok(ServiceModel {
                service_type: spec_service_type(b[0]),
                provider: trim_controls(utf8_lossy_of(b.subrange(2, provider_end))),
                service: trim_controls(utf8_lossy_of(
                    b.subrange(provider_end + 1, provider_end + 1 + service_len),
                )),
            })
        }
    }
}

impl Service {
    pub fn from_buf(buf: &[u8]) -> (r: Result<Service, DecodeError>)
        ensures
            decoded_as(r, spec_service(buf@)),
    {
        if buf.len() < 2 {
            return Err(DecodeError::ShortBuffer);
        }
        let service_type = ServiceType::from_byte(buf[0]);

        let provider_length = buf[1] as usize;
        if buf.len() - 2 < provider_length || buf.len() - 2 - provider_length < 1 {
            return Err(DecodeError::LengthOutOfRange);
        }
        let provider_end = 2 + provider_length;
        let raw_provider = vstd::slice::slice_subrange(buf, 2, provider_end);

        let service_length = buf[provider_end] as usize;
        if buf.len() - provider_end - 1 < service_length {
            return Err(DecodeError::LengthOutOfRange);
        }
        let raw_service = vstd::slice::slice_subrange(
            buf,
            provider_end + 1,
            provider_end + 1 + service_length,
        );

        let provider = decode_stupid_string(raw_provider).unwrap();
        let service = decode_stupid_string(raw_service).unwrap();

        Ok(Service { service_type, provider, service })
    }
}

} // verus!
