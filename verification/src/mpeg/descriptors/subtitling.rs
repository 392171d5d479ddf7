//! Subtitling descriptor (ETSI EN 300 468).

use vstd::prelude::*;

use crate::error::DecodeError;
use crate::utils::{be16, combine_parsed, decoded_as, lemma_seq_view_push, seq_view, spec_be16};

verus! {

pub const DESCRIPTOR_ID: u8 = 0x59;

#[derive(Debug, Clone)]
pub struct Subtitling {
    pub elements: Vec<SubtitlingElement>,
}

#[derive(Debug, Copy, Clone, PartialEq, Eq)]
pub struct SubtitlingElement {
    /// ISO 639 language code.
    pub language_code: [u8; 3],
    pub subtitling_type: u8,
    pub composition_page_id: u16,
    pub ancillary_page_id: u16,
}

/// The mathematical value of a [`SubtitlingElement`].
pub struct SubtitlingElementModel {
    pub language_code: Seq<u8>,
    pub subtitling_type: u8,
    pub composition_page_id: u16,
    pub ancillary_page_id: u16,
}

impl View for SubtitlingElement {
    type V = SubtitlingElementModel;

    open spec fn view(&self) -> SubtitlingElementModel {
        SubtitlingElementModel {
            language_code: self.language_code@,
            subtitling_type: self.subtitling_type,
            composition_page_id: self.composition_page_id,
            ancillary_page_id: self.ancillary_page_id,
        }
    }
}

impl View for Subtitling {
    type V = Seq<SubtitlingElementModel>;

    open spec fn view(&self) -> Seq<SubtitlingElementModel> {
        seq_view(self.elements@)
    }
}

/// What [`Subtitling::from_buf`] decodes: consecutive 8-byte entries.
pub open spec fn spec_subtitling(
    b: Seq<u8>,
) -> Result<Seq<SubtitlingElementModel>, DecodeError>
    decreases b.len(),
{
    if b.len() == 0 {
        Ok(Seq::empty())
    } else if b.len() < 8 {
        Err(DecodeError::ShortBuffer)
    } else {
        let e = SubtitlingElementModel {
            language_code: b.subrange(0, 3),
            subtitling_type: b[3],
            composition_page_id: spec_be16(b[4], b[5]),
            ancillary_page_id: spec_be16(b[6], b[7]),
        };
        match spec_subtitling(b.skip(8)) {
            Ok(rest) => Ok(seq![e] + rest),
            Err(err) => Err(err),
        }
    }
}

impl Subtitling {
    pub fn from_buf(buf: &[u8]) -> (r: Result<Subtitling, DecodeError>)
        ensures
            decoded_as(r, spec_subtitling(buf@)),
    {
        let mut elements: Vec<SubtitlingElement> = Vec::new();

        proof {
            assert(buf@.skip(0) =~= buf@);
            assert(seq_view(elements@) =~= Seq::<SubtitlingElementModel>::empty());
        }

        let mut offset: usize = 0;
        while offset < buf.len()
            invariant
                offset <= buf.len(),
                spec_subtitling(buf@) == combine_parsed(
                    seq_view(elements@),
                    spec_subtitling(buf@.skip(offset as int)),
                ),
            decreases buf.len() - offset,
        {
            let ghost rem = buf@.skip(offset as int);
            if buf.len() - offset < 8 {
                return Err(DecodeError::ShortBuffer);
            }
            let element = SubtitlingElement {
                language_code: [buf[offset], buf[offset + 1], buf[offset + 2]],
                subtitling_type: buf[offset + 3],
                composition_page_id: be16(buf[offset + 4], buf[offset + 5]),
                ancillary_page_id: be16(buf[offset + 6], buf[offset + 7]),
            };
            proof {
                assert(rem.skip(8) =~= buf@.skip(offset as int + 8));
                assert forall|i: int| 0 <= i < 8 implies rem[i] == buf@[offset + i] by {}
                assert(element@.language_code =~= rem.subrange(0, 3));
                lemma_seq_view_push(elements@, element);
                match spec_subtitling(buf@.skip(offset as int + 8)) {
                    Ok(rest) => {
                        assert(seq_view(elements@) + (seq![element@] + rest)
                            =~= seq_view(elements@).push(element@) + rest);
                    },
                    Err(_) => {},
                }
            }
            elements.push(element);
            offset = offset + 8;
        }

        proof {
            assert(buf@.skip(buf@.len() as int) =~= Seq::<u8>::empty());
            assert(seq_view(elements@) + Seq::<SubtitlingElementModel>::empty()
                =~= seq_view(elements@));
        }
        Ok(Subtitling { elements })
    }
}

} // verus!
