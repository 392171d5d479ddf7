//! Extension descriptor (ETSI EN 300 468).

use vstd::prelude::*;

use crate::error::DecodeError;
use crate::utils::decoded_as;

verus! {

pub const DESCRIPTOR_ID: u8 = 0x7f;

#[derive(Debug, Clone)]
pub struct Extension {
    /// Everything after the extension tag byte.
    pub selector_bytes: Vec<u8>,
}

/// The mathematical value of an [`Extension`].
pub struct ExtensionModel {
    pub selector_bytes: Seq<u8>,
}

impl View for Extension {
    type V = ExtensionModel;

    open spec fn view(&self) -> ExtensionModel {
        ExtensionModel { selector_bytes: self.selector_bytes@ }
    }
}

/// What [`Extension::from_buf`] decodes: the extension tag byte is
/// skipped, the rest is kept as selector bytes.
pub open spec fn spec_extension(b: Seq<u8>) -> Result<ExtensionModel, DecodeError> {
    if b.len() < 1 {
        Err(DecodeError::ShortBuffer)
    } else {
        Ok(ExtensionModel { selector_bytes: b.skip(1) })
    }
}

impl Extension {
    pub fn from_buf(buf: &[u8]) -> (r: Result<Extension, DecodeError>)
        ensures
            decoded_as(r, spec_extension(buf@)),
    {
        if buf.len() < 1 {
            return Err(DecodeError::ShortBuffer);
        }
        let selector_bytes = vstd::slice::slice_to_vec(
            vstd::slice::slice_subrange(buf, 1, buf.len()),
        );
        proof {
            assert(buf@.subrange(1, buf@.len() as int) =~= buf@.skip(1));
        }
        Ok(Extension { selector_bytes })
    }
}

} // verus!
