//! Service Description Table (ETSI EN 300 468).

use vstd::prelude::*;

use crate::error::DecodeError;
use crate::mpeg::descriptors::{spec_descriptor_list, Descriptor, DescriptorModel};
use crate::mpeg::{Packet, PacketHeader, PacketModel};
use crate::utils::{be16, decoded_as, lemma_seq_view_push, seq_view, spec_be16};

verus! {

/// "Service description table" fixed packet id, as defined in
/// EN 300 468 V1.17.1 page 23.
pub const PID: u16 = 0x0011;

/// "Service description section - actual transport stream" table id, as
/// defined in EN 300 468 V1.17.1 page 24.
pub const ACTUAL_TRANSPORT_TABLE_ID: u8 = 0x42;

#[derive(Debug, Clone)]
pub struct ServiceDescription {
    pub original_network_id: u16,
    pub services: Vec<Service>,
}

#[derive(Debug, Clone)]
pub struct Service {
    pub service_id: u16,
    pub eit_schedule: bool,
    pub eit_present_following: bool,
    pub running_status: u8,
    pub free_ca_mode: bool,
    pub descriptors: Vec<Descriptor>,
}

/// The mathematical value of a [`ServiceDescription`].
pub struct ServiceDescriptionModel {
    pub original_network_id: u16,
    pub services: Seq<ServiceModel>,
}

/// The mathematical value of a [`Service`].
pub struct ServiceModel {
    pub service_id: u16,
    pub eit_schedule: bool,
    pub eit_present_following: bool,
    pub running_status: u8,
    pub free_ca_mode: bool,
    pub descriptors: Seq<DescriptorModel>,
}

impl View for Service {
    type V = ServiceModel;

    open spec fn view(&self) -> ServiceModel {
        ServiceModel {
            service_id: self.service_id,
            eit_schedule: self.eit_schedule,
            eit_present_following: self.eit_present_following,
            running_status: self.running_status,
            free_ca_mode: self.free_ca_mode,
            descriptors: seq_view(self.descriptors@),
        }
    }
}

impl View for ServiceDescription {
    type V = ServiceDescriptionModel;

    open spec fn view(&self) -> ServiceDescriptionModel {
        ServiceDescriptionModel {
            original_network_id: self.original_network_id,
            services: seq_view(self.services@),
        }
    }
}

/// Consecutive service entries: the service id, EIT flags, the 3-bit
/// running status, the free-CA flag, and a length-prefixed descriptor
/// region.
pub open spec fn spec_sdt_services(b: Seq<u8>) -> Result<Seq<ServiceModel>, DecodeError>
    decreases b.len(),
{
    if b.len() == 0 {
        Ok(Seq::empty())
    } else if b.len() < 5 {
        Err(DecodeError::ShortBuffer)
    } else if b.len() < 5 + spec_be16(b[3] & 0x0f, b[4]) as int {
        Err(DecodeError::LengthOutOfRange)
    } else {
        let descriptors_length = spec_be16(b[3] & 0x0f, b[4]) as int;
        match spec_descriptor_list(b.subrange(5, 5 + descriptors_length)) {
            Err(e) => Err(e),
            Ok(ds) => {
                let e = ServiceModel {
                    service_id: spec_be16(b[0], b[1]),
                    eit_schedule: (b[2] & 0x02) != 0,
                    eit_present_following: (b[2] & 0x01) != 0,
                    running_status: (b[3] & 0xe0) >> 5,
                    free_ca_mode: (b[3] & 0x10) != 0,
                    descriptors: ds,
                };
                match spec_sdt_services(b.skip(5 + descriptors_length)) {
                    Ok(rest) => Ok(seq![e] + rest),
                    Err(err) => Err(err),
                }
            },
        }
    }
}

/// What [`ServiceDescription::from_packet`] decodes: the original
/// network id, a reserved byte, and the service entries filling the
/// rest of the payload region.
pub open spec fn spec_parse_sdt(p: PacketModel) -> Result<ServiceDescriptionModel, DecodeError> {
    if p.header.section_length < 9 {
        Err(DecodeError::LengthOutOfRange)
    } else if p.data.len() < p.header.section_length - 9 {
        Err(DecodeError::ShortBuffer)
    } else {
        let b = p.data.take(p.header.section_length - 9);
        if b.len() < 3 {
            Err(DecodeError::ShortBuffer)
        } else {
            match spec_sdt_services(b.skip(3)) {
                Err(e) => Err(e),
                Ok(services) => Ok(ServiceDescriptionModel {
                    original_network_id: spec_be16(b[0], b[1]),
                    services,
                }),
            }
        }
    }
}

//
// ----- Law: SDT service loop round trip

/// One service entry to hand-encode: its plain fields and the bytes
/// of its descriptor region.
pub struct SdtServiceEncoding {
    pub service_id: u16,
    pub eit_schedule: bool,
    pub eit_present_following: bool,
    pub running_status: u8,
    pub free_ca_mode: bool,
    pub descriptor_bytes: Seq<u8>,
}

/// A service entry that can be written down: the running status fits
/// its three bits, the descriptor region fits its twelve-bit length
/// field and holds a well-formed descriptor list.
pub open spec fn spec_sdt_service_wf(e: SdtServiceEncoding) -> bool {
    &&& e.running_status < 8
    &&& e.descriptor_bytes.len() <= 0xfff
    &&& spec_descriptor_list(e.descriptor_bytes) is Ok
}

/// A hand-encoded run of service entries: the five header bytes of
/// each packed as the wire format lays them out, then its descriptor
/// region.
pub open spec fn spec_encode_sdt_services(entries: Seq<SdtServiceEncoding>) -> Seq<u8>
    decreases entries.len(),
{
    if entries.len() == 0 {
        Seq::empty()
    } else {
        let e = entries[0];
        seq![
            (e.service_id >> 8) as u8,
            (e.service_id & 0xff) as u8,
            0xfcu8 | (if e.eit_schedule { 2u8 } else { 0u8 }) | (if e.eit_present_following {
                1u8
            } else {
                0u8
            }),
            ((e.running_status << 5) as u8) | (if e.free_ca_mode { 0x10u8 } else { 0u8 }) | ((
            (e.descriptor_bytes.len() as u16) >> 8) as u8),
            ((e.descriptor_bytes.len() as u16) & 0xff) as u8,
        ] + e.descriptor_bytes + spec_encode_sdt_services(entries.skip(1))
    }
}

/// What each encoded entry decodes to.
pub open spec fn spec_sdt_service_models(entries: Seq<SdtServiceEncoding>) -> Seq<ServiceModel>
    decreases entries.len(),
{
    if entries.len() == 0 {
        Seq::empty()
    } else {
        let e = entries[0];
        seq![ServiceModel {
            service_id: e.service_id,
            eit_schedule: e.eit_schedule,
            eit_present_following: e.eit_present_following,
            running_status: e.running_status,
            free_ca_mode: e.free_ca_mode,
            descriptors: spec_descriptor_list(e.descriptor_bytes).unwrap(),
        }] + spec_sdt_service_models(entries.skip(1))
    }
}

/// Round trip on synthetic SDT service loops: a buffer hand-encoded
/// from any run of writable entries decodes back to exactly those
/// services, flags, running status and descriptor lists included.
pub proof fn lemma_sdt_services_round_trip(entries: Seq<SdtServiceEncoding>)
    requires
        forall|i: int| 0 <= i < entries.len() ==> spec_sdt_service_wf(#[trigger] entries[i]),
    ensures
        spec_sdt_services(spec_encode_sdt_services(entries)) == Ok::<Seq<ServiceModel>, DecodeError>(
            spec_sdt_service_models(entries),
        ),
    decreases entries.len(),
{
    let b = spec_encode_sdt_services(entries);
    if entries.len() == 0 {
        assert(spec_sdt_services(b) == Ok::<Seq<ServiceModel>, DecodeError>(Seq::empty()));
    } else {
        let e = entries[0];
        let sid = e.service_id;
        let rs = e.running_status;
        let dl: u16 = e.descriptor_bytes.len() as u16;
        let es: u8 = if e.eit_schedule { 2 } else { 0 };
        let epf: u8 = if e.eit_present_following { 1 } else { 0 };
        let ca: u8 = if e.free_ca_mode { 0x10 } else { 0 };
        let rest = spec_encode_sdt_services(entries.skip(1));

        assert(b.len() == 5 + e.descriptor_bytes.len() + rest.len());
        assert(b[0] == (sid >> 8) as u8);
        assert(b[1] == (sid & 0xff) as u8);
        assert(b[2] == 0xfcu8 | es | epf);
        assert(b[3] == ((rs << 5) as u8) | ca | ((dl >> 8) as u8));
        assert(b[4] == (dl & 0xff) as u8);

        assert(((((sid >> 8) as u8) as u16) << 8) | (((sid & 0xff) as u8) as u16) == sid)
            by (bit_vector);
        assert((((0xfcu8 | es | epf) & 0x02) != 0) == (es == 2)) by (bit_vector)
            requires
                (es == 2 || es == 0) && (epf == 1 || epf == 0),
        ;
        assert((((0xfcu8 | es | epf) & 0x01) != 0) == (epf == 1)) by (bit_vector)
            requires
                (es == 2 || es == 0) && (epf == 1 || epf == 0),
        ;
        let b3: u8 = ((rs << 5) as u8) | ca | ((dl >> 8) as u8);
        assert((b3 & 0xe0) >> 5 == rs) by (bit_vector)
            requires
                b3 == ((rs << 5) as u8) | ca | ((dl >> 8) as u8),
                rs < 8,
                dl <= 0xfff,
                ca == 0x10 || ca == 0,
        ;
        assert(((b3 & 0x10) != 0) == (ca == 0x10)) by (bit_vector)
            requires
                b3 == ((rs << 5) as u8) | ca | ((dl >> 8) as u8),
                rs < 8,
                dl <= 0xfff,
                ca == 0x10 || ca == 0,
        ;
        assert(((((b3 & 0x0f) as u16) << 8) | (((dl & 0xff) as u8) as u16)) == dl) by (bit_vector)
            requires
                b3 == ((rs << 5) as u8) | ca | ((dl >> 8) as u8),
                rs < 8,
                dl <= 0xfff,
                ca == 0x10 || ca == 0,
        ;
        assert(spec_be16(b[0], b[1]) == sid);
        assert(spec_be16(b[3] & 0x0f, b[4]) == dl);

        assert(b.subrange(5, 5 + dl as int) =~= e.descriptor_bytes);
        assert(b.skip(5 + dl as int) =~= rest);
        assert(forall|i: int|
            0 <= i < entries.skip(1).len() ==> spec_sdt_service_wf(
                #[trigger] entries.skip(1)[i],
            ));
        lemma_sdt_services_round_trip(entries.skip(1));
    }
}

/// A hand-encoded SDT payload: the original network id, the reserved
/// byte, and the service entries.
pub open spec fn spec_encode_sdt_payload(
    original_network_id: u16,
    services: Seq<SdtServiceEncoding>,
) -> Seq<u8> {
    seq![
        (original_network_id >> 8) as u8,
        (original_network_id & 0xff) as u8,
        0xffu8,
    ] + spec_encode_sdt_services(services)
}

/// Round trip of a whole SDT section payload: a packet whose data is a
/// hand-encoded table, and whose header announces exactly that
/// payload, decodes back to the encoded network id and services.
pub proof fn lemma_parse_sdt_round_trip(
    h: PacketHeader,
    original_network_id: u16,
    services: Seq<SdtServiceEncoding>,
    crc: u32,
)
    requires
        forall|i: int| 0 <= i < services.len() ==> spec_sdt_service_wf(#[trigger] services[i]),
        h.section_length == spec_encode_sdt_payload(original_network_id, services).len() + 9,
        h.section_length <= 0x3fd,
    ensures
        spec_parse_sdt(
            PacketModel {
                header: h,
                data: spec_encode_sdt_payload(original_network_id, services),
                crc,
            },
        ) == Ok::<ServiceDescriptionModel, DecodeError>(ServiceDescriptionModel {
            original_network_id,
            services: spec_sdt_service_models(services),
        }),
{
    let payload = spec_encode_sdt_payload(original_network_id, services);
    let onid = original_network_id;
    assert(payload.take(h.section_length - 9) =~= payload);
    assert(payload[0] == (onid >> 8) as u8);
    assert(payload[1] == (onid & 0xff) as u8);
    assert(((((onid >> 8) as u8) as u16) << 8) | (((onid & 0xff) as u8) as u16) == onid)
        by (bit_vector);
    assert(spec_be16(payload[0], payload[1]) == onid);
    assert(payload.skip(3) =~= spec_encode_sdt_services(services));
    lemma_sdt_services_round_trip(services);
}

impl ServiceDescription {
    /// Decodes a Service Description Table section payload.
    pub fn from_packet(packet: &Packet) -> (r: Result<ServiceDescription, DecodeError>)
        ensures
            decoded_as(r, spec_parse_sdt(packet@)),
    {
        if packet.header.section_length < 9 {
            return Err(DecodeError::LengthOutOfRange);
        }
        let payload_len = packet.header.payload_len() as usize;
        if packet.data.len() < payload_len {
            return Err(DecodeError::ShortBuffer);
        }
        let ghost region = packet@.data.take(payload_len as int);

        if payload_len < 3 {
            return Err(DecodeError::ShortBuffer);
        }
        let original_network_id = be16(packet.data[0], packet.data[1]);

        let mut services: Vec<Service> = Vec::new();
        let mut offset: usize = 3;

        proof {
            assert(seq_view(services@) =~= Seq::<ServiceModel>::empty());
            if spec_sdt_services(region.skip(offset as int)) is Ok {
                let rest = spec_sdt_services(region.skip(offset as int)).unwrap();
                assert(seq_view(services@) + rest =~= rest);
            }
        }

        while offset < payload_len
            invariant
                3 <= offset <= payload_len <= packet.data.len(),
                region == packet@.data.take(payload_len as int),
                original_network_id == spec_be16(region[0], region[1]),
                match spec_sdt_services(region.skip(offset as int)) {
                    Ok(rest) => spec_parse_sdt(packet@) == Ok::<
                        ServiceDescriptionModel,
                        DecodeError,
                    >(ServiceDescriptionModel {
                        original_network_id: original_network_id,
                        services: seq_view(services@) + rest,
                    }),
                    Err(e) => spec_parse_sdt(packet@) == Err::<
                        ServiceDescriptionModel,
                        DecodeError,
                    >(e),
                },
            decreases payload_len - offset,
        {
            let ghost rem = region.skip(offset as int);
            proof {
                assert(rem.len() == payload_len - offset);
                assert forall|i: int| 0 <= i < rem.len() implies rem[i] == packet@.data[offset + i]
                by {}
            }
            if payload_len - offset < 5 {
                return Err(DecodeError::ShortBuffer);
            }
            let service_id = be16(packet.data[offset], packet.data[offset + 1]);
            let eit_schedule = (packet.data[offset + 2] & 0x02) != 0;
            let eit_present_following = (packet.data[offset + 2] & 0x01) != 0;
            let running_status = (packet.data[offset + 3] & 0xe0) >> 5;
            let free_ca_mode = (packet.data[offset + 3] & 0x10) != 0;
            let descriptors_length = be16(
                packet.data[offset + 3] & 0x0f,
                packet.data[offset + 4],
            ) as usize;
            if payload_len - offset - 5 < descriptors_length {
                return Err(DecodeError::LengthOutOfRange);
            }
            let descriptors_slice = vstd::slice::slice_subrange(
                packet.data.as_slice(),
                offset + 5,
                offset + 5 + descriptors_length,
            );
            proof {
                assert(descriptors_slice@ =~= rem.subrange(
                    5,
                    5 + spec_be16(rem[3] & 0x0f, rem[4]) as int,
                ));
            }
            let descriptors = match Descriptor::read_many(descriptors_slice) {
                Ok(ds) => ds,
                Err(e) => { return Err(e); },
            };
            let element = Service {
                service_id,
                eit_schedule,
                eit_present_following,
                running_status,
                free_ca_mode,
                descriptors,
            };
            proof {
                assert(rem.skip(5 + spec_be16(rem[3] & 0x0f, rem[4]) as int)
                    =~= region.skip(offset as int + 5 + descriptors_length as int));
                lemma_seq_view_push(services@, element);
                match spec_sdt_services(
                    region.skip(offset as int + 5 + descriptors_length as int),
                ) {
                    Ok(rest) => {
                        assert(seq_view(services@) + (seq![element@] + rest)
                            =~= seq_view(services@).push(element@) + rest);
                    },
                    Err(_) => {},
                }
            }
            services.push(element);
            offset = offset + 5 + descriptors_length;
        }

        proof {
            assert(region.skip(payload_len as int) =~= Seq::<u8>::empty());
            assert(seq_view(services@) + Seq::<ServiceModel>::empty() =~= seq_view(services@));
        }
        Ok(ServiceDescription { original_network_id, services })
    }
}

} // verus!
