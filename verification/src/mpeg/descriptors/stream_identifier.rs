//! Stream identifier descriptor.

use vstd::prelude::*;

use crate::error::DecodeError;

verus! {

pub const DESCRIPTOR_ID: u8 = 0x52;

#[derive(Debug, Copy, Clone, PartialEq, Eq, Structural)]
pub struct StreamIdentifier {
    /// Identifies the component stream for associating it with a
    /// description given in a component descriptor.
    pub component_tag: u8,
}

/// What [`StreamIdentifier::from_buf`] decodes: the single tag byte.
pub open spec fn spec_stream_identifier(b: Seq<u8>) -> Result<StreamIdentifier, DecodeError> {
    if b.len() < 1 {
        Err(DecodeError::ShortBuffer)
    } else {
        Ok(StreamIdentifier { component_tag: b[0] })
    }
}

impl StreamIdentifier {
    pub fn from_buf(buf: &[u8]) -> (r: Result<StreamIdentifier, DecodeError>)
        ensures
            r == spec_stream_identifier(buf@),
    {
        if buf.len() < 1 {
            return Err(DecodeError::ShortBuffer);
        }
        Ok(StreamIdentifier { component_tag: buf[0] })
    }
}

} // verus!
