//! Network name descriptor.

use vstd::prelude::*;

use crate::error::DecodeError;
use crate::utils::decoded_as;

verus! {

pub const DESCRIPTOR_ID: u8 = 0x40;

#[derive(Debug, Clone)]
pub struct NetworkName {
    /// The raw name bytes; DVB text fields carry their own encoding
    /// prefix, so the bytes are kept undecoded here.
    pub name: Vec<u8>,
}

/// The mathematical value of a [`NetworkName`].
pub struct NetworkNameModel {
    pub name: Seq<u8>,
}

impl View for NetworkName {
    type V = NetworkNameModel;

    open spec fn view(&self) -> NetworkNameModel {
        NetworkNameModel { name: self.name@ }
    }
}

/// What [`NetworkName::from_buf`] decodes: the whole buffer is the name.
pub open spec fn spec_network_name(b: Seq<u8>) -> Result<NetworkNameModel, DecodeError> {
    Ok(NetworkNameModel { name: b })
}

impl NetworkName {
    pub fn from_buf(buf: &[u8]) -> (r: Result<NetworkName, DecodeError>)
        ensures
            decoded_as(r, spec_network_name(buf@)),
    {
        Ok(NetworkName { name: vstd::slice::slice_to_vec(buf) })
    }
}

} // verus!
