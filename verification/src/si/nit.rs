//! Network Information Table (ETSI EN 300 468).

use vstd::prelude::*;

use crate::error::DecodeError;
use crate::mpeg::descriptors::{spec_descriptor_list, Descriptor, DescriptorModel};
use crate::mpeg::{Packet, PacketHeader, PacketModel};
use crate::utils::{be16, decoded_as, lemma_seq_view_push, seq_view, spec_be16};

verus! {

/// "Network information section - actual network" table id, as defined
/// in EN 300 468 V1.17.1 page 24.
pub const ACTUAL_NETWORK_TABLE_ID: u8 = 0x40;

/// The NIT describes all services available in the neighbouring area:
/// a list of transponders and associated services.
#[derive(Debug, Clone)]
pub struct NetworkInformation {
    pub network_descriptors: Vec<Descriptor>,
    pub elements: Vec<NitElement>,
}

#[derive(Debug, Clone)]
pub struct NitElement {
    pub transport_stream_id: u16,
    pub original_network_id: u16,
    pub transport_descriptors: Vec<Descriptor>,
}

/// The mathematical value of a [`NetworkInformation`].
pub struct NetworkInformationModel {
    pub network_descriptors: Seq<DescriptorModel>,
    pub elements: Seq<NitElementModel>,
}

/// The mathematical value of a [`NitElement`].
pub struct NitElementModel {
    pub transport_stream_id: u16,
    pub original_network_id: u16,
    pub transport_descriptors: Seq<DescriptorModel>,
}

impl View for NitElement {
    type V = NitElementModel;

    open spec fn view(&self) -> NitElementModel {
        NitElementModel {
            transport_stream_id: self.transport_stream_id,
            original_network_id: self.original_network_id,
            transport_descriptors: seq_view(self.transport_descriptors@),
        }
    }
}

impl View for NetworkInformation {
    type V = NetworkInformationModel;

    open spec fn view(&self) -> NetworkInformationModel {
        NetworkInformationModel {
            network_descriptors: seq_view(self.network_descriptors@),
            elements: seq_view(self.elements@),
        }
    }
}

/// Consecutive transport stream entries: the stream and network ids,
/// then a length-prefixed descriptor region.
pub open spec fn spec_nit_elements(b: Seq<u8>) -> Result<Seq<NitElementModel>, DecodeError>
    decreases b.len(),
{
    if b.len() == 0 {
        Ok(Seq::empty())
    } else if b.len() < 6 {
        Err(DecodeError::ShortBuffer)
    } else if b.len() < 6 + spec_be16(b[4] & 0x0f, b[5]) as int {
        Err(DecodeError::LengthOutOfRange)
    } else {
        let transport_descriptors_length = spec_be16(b[4] & 0x0f, b[5]) as int;
        match spec_descriptor_list(b.subrange(6, 6 + transport_descriptors_length)) {
            Err(e) => Err(e),
            Ok(ds) => {
                let e = NitElementModel {
                    transport_stream_id: spec_be16(b[0], b[1]),
                    original_network_id: spec_be16(b[2], b[3]),
                    transport_descriptors: ds,
                };
                match spec_nit_elements(b.skip(6 + transport_descriptors_length)) {
                    Ok(rest) => Ok(seq![e] + rest),
                    Err(err) => Err(err),
                }
            },
        }
    }
}

//
// ----- Law: NIT transport stream loop round trip

/// One transport stream entry to hand-encode: its ids and the bytes
/// of its descriptor region.
pub struct NitElementEncoding {
    pub transport_stream_id: u16,
    pub original_network_id: u16,
    pub descriptor_bytes: Seq<u8>,
}

/// An entry that can be written down: the descriptor region fits its
/// twelve-bit length field and holds a well-formed descriptor list.
pub open spec fn spec_nit_element_wf(e: NitElementEncoding) -> bool {
    &&& e.descriptor_bytes.len() <= 0xfff
    &&& spec_descriptor_list(e.descriptor_bytes) is Ok
}

/// A hand-encoded run of transport stream entries: the six header
/// bytes of each packed as the wire format lays them out, then its
/// descriptor region.
pub open spec fn spec_encode_nit_elements(entries: Seq<NitElementEncoding>) -> Seq<u8>
    decreases entries.len(),
{
    if entries.len() == 0 {
        Seq::empty()
    } else {
        let e = entries[0];
        seq![
            (e.transport_stream_id >> 8) as u8,
            (e.transport_stream_id & 0xff) as u8,
            (e.original_network_id >> 8) as u8,
            (e.original_network_id & 0xff) as u8,
            0xf0u8 | (((e.descriptor_bytes.len() as u16) >> 8) as u8),
            ((e.descriptor_bytes.len() as u16) & 0xff) as u8,
        ] + e.descriptor_bytes + spec_encode_nit_elements(entries.skip(1))
    }
}

/// What each encoded entry decodes to.
pub open spec fn spec_nit_element_models(entries: Seq<NitElementEncoding>) -> Seq<NitElementModel>
    decreases entries.len(),
{
    if entries.len() == 0 {
        Seq::empty()
    } else {
        let e = entries[0];
        seq![NitElementModel {
            transport_stream_id: e.transport_stream_id,
            original_network_id: e.original_network_id,
            transport_descriptors: spec_descriptor_list(e.descriptor_bytes).unwrap(),
        }] + spec_nit_element_models(entries.skip(1))
    }
}

/// Round trip on synthetic NIT transport stream loops: a buffer
/// hand-encoded from any run of writable entries decodes back to
/// exactly those elements, ids and descriptor lists included.
pub proof fn lemma_nit_elements_round_trip(entries: Seq<NitElementEncoding>)
    requires
        forall|i: int| 0 <= i < entries.len() ==> spec_nit_element_wf(#[trigger] entries[i]),
    ensures
        spec_nit_elements(spec_encode_nit_elements(entries)) == Ok::<
            Seq<NitElementModel>,
            DecodeError,
        >(spec_nit_element_models(entries)),
    decreases entries.len(),
{
    let b = spec_encode_nit_elements(entries);
    if entries.len() == 0 {
        assert(spec_nit_elements(b) == Ok::<Seq<NitElementModel>, DecodeError>(Seq::empty()));
    } else {
        let e = entries[0];
        let tsid = e.transport_stream_id;
        let onid = e.original_network_id;
        let dl: u16 = e.descriptor_bytes.len() as u16;
        let rest = spec_encode_nit_elements(entries.skip(1));

        assert(b.len() == 6 + e.descriptor_bytes.len() + rest.len());
        assert(b[0] == (tsid >> 8) as u8);
        assert(b[1] == (tsid & 0xff) as u8);
        assert(b[2] == (onid >> 8) as u8);
        assert(b[3] == (onid & 0xff) as u8);
        assert(b[4] == 0xf0u8 | ((dl >> 8) as u8));
        assert(b[5] == (dl & 0xff) as u8);

        assert(((((tsid >> 8) as u8) as u16) << 8) | (((tsid & 0xff) as u8) as u16) == tsid)
            by (bit_vector);
        assert(((((onid >> 8) as u8) as u16) << 8) | (((onid & 0xff) as u8) as u16) == onid)
            by (bit_vector);
        assert((((((0xf0u8 | ((dl >> 8) as u8)) & 0x0f) as u16) << 8) | (((dl & 0xff) as u8)
            as u16)) == dl) by (bit_vector)
            requires
                dl <= 0xfff,
        ;
        assert(spec_be16(b[0], b[1]) == tsid);
        assert(spec_be16(b[2], b[3]) == onid);
        assert(spec_be16(b[4] & 0x0f, b[5]) == dl);

        assert(b.subrange(6, 6 + dl as int) =~= e.descriptor_bytes);
        assert(b.skip(6 + dl as int) =~= rest);
        assert(forall|i: int|
            0 <= i < entries.skip(1).len() ==> spec_nit_element_wf(
                #[trigger] entries.skip(1)[i],
            ));
        lemma_nit_elements_round_trip(entries.skip(1));
    }
}

/// A hand-encoded NIT payload: the length-prefixed network descriptor
/// region, the transport stream loop length, and the transport stream
/// entries.
pub open spec fn spec_encode_nit_payload(
    network_descriptor_bytes: Seq<u8>,
    elements: Seq<NitElementEncoding>,
) -> Seq<u8> {
    seq![
        0xf0u8 | (((network_descriptor_bytes.len() as u16) >> 8) as u8),
        ((network_descriptor_bytes.len() as u16) & 0xff) as u8,
    ] + network_descriptor_bytes + seq![
        0xf0u8 | (((spec_encode_nit_elements(elements).len() as u16) >> 8) as u8),
        ((spec_encode_nit_elements(elements).len() as u16) & 0xff) as u8,
    ] + spec_encode_nit_elements(elements)
}

/// Round trip of a whole NIT section payload: a packet whose data is a
/// hand-encoded table, and whose header announces exactly that
/// payload, decodes back to the encoded network descriptors and
/// transport stream elements.
pub proof fn lemma_parse_nit_round_trip(
    h: PacketHeader,
    network_descriptor_bytes: Seq<u8>,
    elements: Seq<NitElementEncoding>,
    crc: u32,
)
    requires
        network_descriptor_bytes.len() <= 0xfff,
        spec_descriptor_list(network_descriptor_bytes) is Ok,
        forall|i: int| 0 <= i < elements.len() ==> spec_nit_element_wf(#[trigger] elements[i]),
        h.section_length == spec_encode_nit_payload(
            network_descriptor_bytes,
            elements,
        ).len() + 9,
        h.section_length <= 0x3fd,
    ensures
        spec_parse_nit(
            PacketModel {
                header: h,
                data: spec_encode_nit_payload(network_descriptor_bytes, elements),
                crc,
            },
        ) == Ok::<NetworkInformationModel, DecodeError>(NetworkInformationModel {
            network_descriptors: spec_descriptor_list(network_descriptor_bytes).unwrap(),
            elements: spec_nit_element_models(elements),
        }),
{
    let payload = spec_encode_nit_payload(network_descriptor_bytes, elements);
    let ndl: u16 = network_descriptor_bytes.len() as u16;
    let b = payload;
    assert(payload.take(h.section_length - 9) =~= payload);
    assert(b[0] == 0xf0u8 | ((ndl >> 8) as u8));
    assert(b[1] == (ndl & 0xff) as u8);

    assert((((((0xf0u8 | ((ndl >> 8) as u8)) & 0x0f) as u16) << 8) | (((ndl & 0xff) as u8)
        as u16)) == ndl) by (bit_vector)
        requires
            ndl <= 0xfff,
    ;
    assert(spec_be16(b[0] & 0x0f, b[1]) == ndl);

    assert(b.subrange(2, 2 + ndl as int) =~= network_descriptor_bytes);
    assert(b.skip(2 + ndl as int + 2) =~= spec_encode_nit_elements(elements));
    lemma_nit_elements_round_trip(elements);
}

/// What [`NetworkInformation::from_packet`] decodes: the network-level
/// descriptor region, a two-byte loop length that is read past, and
/// the transport stream entries filling the rest of the payload.
pub open spec fn spec_parse_nit(p: PacketModel) -> Result<NetworkInformationModel, DecodeError> {
    if p.header.section_length < 9 {
        Err(DecodeError::LengthOutOfRange)
    } else if p.data.len() < p.header.section_length - 9 {
        Err(DecodeError::ShortBuffer)
    } else {
        let b = p.data.take(p.header.section_length - 9);
        if b.len() < 2 {
            Err(DecodeError::ShortBuffer)
        } else if b.len() < 2 + spec_be16(b[0] & 0x0f, b[1]) as int + 2 {
            Err(DecodeError::LengthOutOfRange)
        } else {
            let network_descriptors_length = spec_be16(b[0] & 0x0f, b[1]) as int;
            match spec_descriptor_list(b.subrange(2, 2 + network_descriptors_length)) {
                Err(e) => Err(e),
                Ok(nds) => match spec_nit_elements(b.skip(2 + network_descriptors_length + 2)) {
                    Err(e) => Err(e),
                    Ok(els) => Ok(NetworkInformationModel {
                        network_descriptors: nds,
                        elements: els,
                    }),
                },
            }
        }
    }
}

impl NetworkInformation {
    /// Decodes a Network Information Table section payload.
    #[verifier::rlimit(60)]
    pub fn from_packet(packet: &Packet) -> (r: Result<NetworkInformation, DecodeError>)
        ensures
            decoded_as(r, spec_parse_nit(packet@)),
    {
        if packet.header.section_length < 9 {
            return Err(DecodeError::LengthOutOfRange);
        }
        let payload_len = packet.header.payload_len() as usize;
        if packet.data.len() < payload_len {
            return Err(DecodeError::ShortBuffer);
        }
        let ghost region = packet@.data.take(payload_len as int);

        if payload_len < 2 {
            return Err(DecodeError::ShortBuffer);
        }
        let network_descriptors_length = be16(packet.data[0] & 0x0f, packet.data[1]) as usize;
        if payload_len - 2 < network_descriptors_length
            || payload_len - 2 - network_descriptors_length < 2 {
            return Err(DecodeError::LengthOutOfRange);
        }
        let network_slice = vstd::slice::slice_subrange(
            packet.data.as_slice(),
            2,
            2 + network_descriptors_length,
        );
        proof {
            assert(network_slice@ =~= region.subrange(2, 2 + network_descriptors_length as int));
        }
        let network_descriptors = match Descriptor::read_many(network_slice) {
            Ok(ds) => ds,
            Err(e) => { return Err(e); },
        };

        // The transport stream loop length is read past: the loop runs
        // to the end of the payload region anyway.
        let mut elements: Vec<NitElement> = Vec::new();
        let mut offset: usize = 2 + network_descriptors_length + 2;

        proof {
            assert(seq_view(elements@) =~= Seq::<NitElementModel>::empty());
            if spec_nit_elements(region.skip(offset as int)) is Ok {
                let rest = spec_nit_elements(region.skip(offset as int)).unwrap();
                assert(seq_view(elements@) + rest =~= rest);
            }
        }

        while offset < payload_len
            invariant
                4 <= offset <= payload_len <= packet.data.len(),
                region == packet@.data.take(payload_len as int),
                match spec_nit_elements(region.skip(offset as int)) {
                    Ok(rest) => spec_parse_nit(packet@) == Ok::<
                        NetworkInformationModel,
                        DecodeError,
                    >(NetworkInformationModel {
                        network_descriptors: seq_view(network_descriptors@),
                        elements: seq_view(elements@) + rest,
                    }),
                    Err(e) => spec_parse_nit(packet@) == Err::<
                        NetworkInformationModel,
                        DecodeError,
                    >(e),
                },
            decreases payload_len - offset,
        {
            let ghost rem = region.skip(offset as int);
            proof {
                assert(rem.len() == payload_len - offset);
                assert forall|i: int| 0 <= i < rem.len() implies rem[i] == packet@.data[offset + i]
                by {}
            }
            if payload_len - offset < 6 {
                return Err(DecodeError::ShortBuffer);
            }
            let transport_stream_id = be16(packet.data[offset], packet.data[offset + 1]);
            let original_network_id = be16(packet.data[offset + 2], packet.data[offset + 3]);
            let transport_descriptors_length = be16(
                packet.data[offset + 4] & 0x0f,
                packet.data[offset + 5],
            ) as usize;
            if payload_len - offset - 6 < transport_descriptors_length {
                return Err(DecodeError::LengthOutOfRange);
            }
            let transport_slice = vstd::slice::slice_subrange(
                packet.data.as_slice(),
                offset + 6,
                offset + 6 + transport_descriptors_length,
            );
            proof {
                assert(transport_slice@ =~= rem.subrange(
                    6,
                    6 + spec_be16(rem[4] & 0x0f, rem[5]) as int,
                ));
            }
            let transport_descriptors = match Descriptor::read_many(transport_slice) {
                Ok(ds) => ds,
                Err(e) => { return Err(e); },
            };
            let element = NitElement {
                transport_stream_id,
                original_network_id,
                transport_descriptors,
            };
            proof {
                assert(rem.skip(6 + spec_be16(rem[4] & 0x0f, rem[5]) as int)
                    =~= region.skip(offset as int + 6 + transport_descriptors_length as int));
                lemma_seq_view_push(elements@, element);
                match spec_nit_elements(
                    region.skip(offset as int + 6 + transport_descriptors_length as int),
                ) {
                    Ok(rest) => {
                        assert(seq_view(elements@) + (seq![element@] + rest)
                            =~= seq_view(elements@).push(element@) + rest);
                    },
                    Err(_) => {},
                }
            }
            elements.push(element);
            offset = offset + 6 + transport_descriptors_length;
        }

        proof {
            assert(region.skip(payload_len as int) =~= Seq::<u8>::empty());
            assert(seq_view(elements@) + Seq::<NitElementModel>::empty() =~= seq_view(elements@));
        }
        Ok(NetworkInformation { network_descriptors, elements })
    }
}

} // verus!
