//! Component descriptor (ETSI EN 300 468).

use vstd::prelude::*;

use crate::error::DecodeError;
use crate::utils::decoded_as;

verus! {

pub const DESCRIPTOR_ID: u8 = 0x50;

#[derive(Debug, Clone)]
pub struct Component {
    pub stream_content_ext: u8,
    pub stream_content: u8,
    pub component_type: u8,
    pub component_tag: u8,
    pub language_code: [u8; 3],
    pub chars: Vec<u8>,
}

/// The mathematical value of a [`Component`].
pub struct ComponentModel {
    pub stream_content_ext: u8,
    pub stream_content: u8,
    pub component_type: u8,
    pub component_tag: u8,
    pub language_code: Seq<u8>,
    pub chars: Seq<u8>,
}

impl View for Component {
    type V = ComponentModel;

    open spec fn view(&self) -> ComponentModel {
        ComponentModel {
            stream_content_ext: self.stream_content_ext,
            stream_content: self.stream_content,
            component_type: self.component_type,
            component_tag: self.component_tag,
            language_code: self.language_code@,
            chars: self.chars@,
        }
    }
}

/// What [`Component::from_buf`] decodes: a fixed 6-byte prefix followed
/// by free-form text bytes.
pub open spec fn spec_component(b: Seq<u8>) -> Result<ComponentModel, DecodeError> {
    if b.len() < 6 {
        Err(DecodeError::ShortBuffer)
    } else {
        Ok(ComponentModel {
            stream_content_ext: b[0] & 0xf0,
            stream_content: b[0] & 0x0f,
            component_type: b[1],
            component_tag: b[2],
            language_code: b.subrange(3, 6),
            chars: b.skip(6),
        })
    }
}

impl Component {
    pub fn from_buf(buf: &[u8]) -> (r: Result<Component, DecodeError>)
        ensures
            decoded_as(r, spec_component(buf@)),
    {
        if buf.len() < 6 {
            return Err(DecodeError::ShortBuffer);
        }
        let chars = vstd::slice::slice_to_vec(vstd::slice::slice_subrange(buf, 6, buf.len()));
        let r = Component {
            stream_content_ext: buf[0] & 0xf0,
            stream_content: buf[0] & 0x0f,
            component_type: buf[1],
            component_tag: buf[2],
            language_code: [buf[3], buf[4], buf[5]],
            chars,
        };
        proof {
            assert(r.language_code@ =~= buf@.subrange(3, 6));
            assert(buf@.subrange(6, buf@.len() as int) =~= buf@.skip(6));
        }
        Ok(r)
    }
}

} // verus!
