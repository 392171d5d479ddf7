//! Carousel identifier descriptor (ETSI TS 102 809).

use vstd::prelude::*;

use crate::error::DecodeError;
use crate::utils::{be16, be32, decoded_as, spec_be16, spec_be32};

verus! {

pub const DESCRIPTOR_ID: u8 = 0x13;

#[derive(Debug, Clone)]
pub struct CarouselIdentifier {
    pub carousel_id: u32,
    pub identifier: Identifier,
}

#[derive(Debug, Clone)]
pub enum Identifier {
    Standard {
        private_data_bytes: Vec<u8>,
    },
    Enhanced {
        module_version: u8,
        module_id: u16,
        block_size: u16,
        module_size: u32,
        compression_method: u8,
        original_size: u32,
        time_out: u8,
        object_key_length: u8,
        object_key_data: Vec<u8>,
        private_data_byte: Vec<u8>,
    },
}

/// The mathematical value of a [`CarouselIdentifier`].
pub struct CarouselIdentifierModel {
    pub carousel_id: u32,
    pub identifier: IdentifierModel,
}

/// The mathematical value of an [`Identifier`].
pub enum IdentifierModel {
    Standard {
        private_data_bytes: Seq<u8>,
    },
    Enhanced {
        module_version: u8,
        module_id: u16,
        block_size: u16,
        module_size: u32,
        compression_method: u8,
        original_size: u32,
        time_out: u8,
        object_key_length: u8,
        object_key_data: Seq<u8>,
        private_data_byte: Seq<u8>,
    },
}

impl View for Identifier {
    type V = IdentifierModel;

    open spec fn view(&self) -> IdentifierModel {
        match self {
            Identifier::Standard { private_data_bytes } => IdentifierModel::Standard {
                private_data_bytes: private_data_bytes@,
            },
            Identifier::Enhanced {
                module_version,
                module_id,
                block_size,
                module_size,
                compression_method,
                original_size,
                time_out,
                object_key_length,
                object_key_data,
                private_data_byte,
            } => IdentifierModel::Enhanced {
                module_version: *module_version,
                module_id: *module_id,
                block_size: *block_size,
                module_size: *module_size,
                compression_method: *compression_method,
                original_size: *original_size,
                time_out: *time_out,
                object_key_length: *object_key_length,
                object_key_data: object_key_data@,
                private_data_byte: private_data_byte@,
            },
        }
    }
}

impl View for CarouselIdentifier {
    type V = CarouselIdentifierModel;

    open spec fn view(&self) -> CarouselIdentifierModel {
        CarouselIdentifierModel {
            carousel_id: self.carousel_id,
            identifier: self.identifier@,
        }
    }
}

/// What [`CarouselIdentifier::from_buf`] decodes: a 32-bit carousel id,
/// a format byte selecting the standard or enhanced layout, and the
/// layout's fields. Format ids other than 0 and 1 are undefined.
pub open spec fn spec_carousel_identifier(
    b: Seq<u8>,
) -> Result<CarouselIdentifierModel, DecodeError> {
    if b.len() < 5 {
        Err(DecodeError::ShortBuffer)
    } else {
        let carousel_id = spec_be32(b[0], b[1], b[2], b[3]);
        if b[4] == 0 {
            Ok(CarouselIdentifierModel {
                carousel_id,
                identifier: IdentifierModel::Standard { private_data_bytes: b.skip(5) },
            })
        } else if b[4] == 1 {
            if b.len() < 21 {
                Err(DecodeError::ShortBuffer)
            } else if b.len() < 21 + b[20] as int {
                Err(DecodeError::LengthOutOfRange)
            } else {
                Ok(CarouselIdentifierModel {
                    carousel_id,
                    identifier: IdentifierModel::Enhanced {
                        module_version: b[5],
                        module_id: spec_be16(b[6], b[7]),
                        block_size: spec_be16(b[8], b[9]),
                        module_size: spec_be32(b[10], b[11], b[12], b[13]),
                        compression_method: b[14],
                        original_size: spec_be32(b[15], b[16], b[17], b[18]),
                        time_out: b[19],
                        object_key_length: b[20],
                        object_key_data: b.subrange(21, 21 + b[20] as int),
                        private_data_byte: b.skip(21 + b[20] as int),
                    },
                })
            }
        } else {
            Err(DecodeError::UnexpectedValue)
        }
    }
}

impl CarouselIdentifier {
    pub fn from_buf(buf: &[u8]) -> (r: Result<CarouselIdentifier, DecodeError>)
        ensures
            decoded_as(r, spec_carousel_identifier(buf@)),
    {
        if buf.len() < 5 {
            return Err(DecodeError::ShortBuffer);
        }
        let carousel_id = be32(buf[0], buf[1], buf[2], buf[3]);
        let format_id = buf[4];

        if format_id == 0 {
            let private_data_bytes = vstd::slice::slice_to_vec(
                vstd::slice::slice_subrange(buf, 5, buf.len()),
            );
            proof {
                assert(buf@.subrange(5, buf@.len() as int) =~= buf@.skip(5));
            }
            Ok(CarouselIdentifier {
                carousel_id,
                identifier: Identifier::Standard { private_data_bytes },
            })
        } else if format_id == 1 {
            if buf.len() < 21 {
                return Err(DecodeError::ShortBuffer);
            }
            let object_key_length = buf[20];
            if buf.len() - 21 < object_key_length as usize {
                return Err(DecodeError::LengthOutOfRange);
            }
            let key_end = 21 + object_key_length as usize;
            let object_key_data = vstd::slice::slice_to_vec(
                vstd::slice::slice_subrange(buf, 21, key_end),
            );
            let private_data_byte = vstd::slice::slice_to_vec(
                vstd::slice::slice_subrange(buf, key_end, buf.len()),
            );
            proof {
                assert(buf@.subrange(key_end as int, buf@.len() as int)
                    =~= buf@.skip(21 + buf@[20] as int));
            }
            Ok(CarouselIdentifier {
                carousel_id,
                identifier: Identifier::Enhanced {
                    module_version: buf[5],
                    module_id: be16(buf[6], buf[7]),
                    block_size: be16(buf[8], buf[9]),
                    module_size: be32(buf[10], buf[11], buf[12], buf[13]),
                    compression_method: buf[14],
                    original_size: be32(buf[15], buf[16], buf[17], buf[18]),
                    time_out: buf[19],
                    object_key_length,
                    object_key_data,
                    private_data_byte,
                },
            })
        } else {
            Err(DecodeError::UnexpectedValue)
        }
    }
}

} // verus!
