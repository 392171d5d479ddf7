//! ISO 639 language descriptor.

use vstd::prelude::*;

use crate::error::DecodeError;
use crate::utils::decoded_as;

verus! {

pub const DESCRIPTOR_ID: u8 = 0x0a;

#[derive(Debug, Copy, Clone, PartialEq, Eq)]
pub struct Iso639Language {
    /// A 3-byte language code followed by the audio type byte.
    pub language: [u8; 4],
}

impl View for Iso639Language {
    type V = Seq<u8>;

    open spec fn view(&self) -> Seq<u8> {
        self.language@
    }
}

/// What [`Iso639Language::from_buf`] decodes: exactly the 3-byte code
/// plus the audio type byte.
pub open spec fn spec_iso639_language(b: Seq<u8>) -> Result<Seq<u8>, DecodeError> {
    if b.len() == 4 {
        Ok(b)
    } else {
        Err(DecodeError::LengthOutOfRange)
    }
}

impl Iso639Language {
    pub fn from_buf(buf: &[u8]) -> (r: Result<Iso639Language, DecodeError>)
        ensures
            decoded_as(r, spec_iso639_language(buf@)),
    {
        if buf.len() != 4 {
            return Err(DecodeError::LengthOutOfRange);
        }
        let r = Iso639Language { language: [buf[0], buf[1], buf[2], buf[3]] };
        proof {
            assert(r.language@ =~= buf@);
        }
        Ok(r)
    }
}

} // verus!
