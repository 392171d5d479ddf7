//! Data broadcast id descriptor (ETSI EN 300 468).

use vstd::prelude::*;

use crate::error::DecodeError;
use crate::utils::{be16, decoded_as, spec_be16};

verus! {

pub const DESCRIPTOR_ID: u8 = 0x66;

#[derive(Debug, Clone)]
pub struct DataBroadcastId {
    pub data_broadcast_id: u16,
    pub selector_bytes: Vec<u8>,
}

/// The mathematical value of a [`DataBroadcastId`].
pub struct DataBroadcastIdModel {
    pub data_broadcast_id: u16,
    pub selector_bytes: Seq<u8>,
}

impl View for DataBroadcastId {
    type V = DataBroadcastIdModel;

    open spec fn view(&self) -> DataBroadcastIdModel {
        DataBroadcastIdModel {
            data_broadcast_id: self.data_broadcast_id,
            selector_bytes: self.selector_bytes@,
        }
    }
}

/// What [`DataBroadcastId::from_buf`] decodes: a 16-bit id followed by
/// free-form selector bytes.
pub open spec fn spec_data_broadcast_id(b: Seq<u8>) -> Result<DataBroadcastIdModel, DecodeError> {
    if b.len() < 2 {
        Err(DecodeError::ShortBuffer)
    } else {
        Ok(DataBroadcastIdModel {
            data_broadcast_id: spec_be16(b[0], b[1]),
            selector_bytes: b.skip(2),
        })
    }
}

impl DataBroadcastId {
    pub fn from_buf(buf: &[u8]) -> (r: Result<DataBroadcastId, DecodeError>)
        ensures
            decoded_as(r, spec_data_broadcast_id(buf@)),
    {
        if buf.len() < 2 {
            return Err(DecodeError::ShortBuffer);
        }
        let selector_bytes = vstd::slice::slice_to_vec(
            vstd::slice::slice_subrange(buf, 2, buf.len()),
        );
        proof {
            assert(buf@.subrange(2, buf@.len() as int) =~= buf@.skip(2));
        }
        Ok(DataBroadcastId { data_broadcast_id: be16(buf[0], buf[1]), selector_bytes })
    }
}

} // verus!
