//! Program Map Table (ISO/IEC 13818-1).

use vstd::prelude::*;

use crate::error::DecodeError;
use crate::mpeg::descriptors::{spec_descriptor_list, Descriptor, DescriptorModel};
use crate::mpeg::{Packet, PacketHeader, PacketModel};
use crate::utils::{be16, decoded_as, lemma_seq_view_push, seq_view, spec_be16};

verus! {

/// "Program map section" table id.
pub const TABLE_ID: u8 = 0x02;

#[derive(Debug, Clone)]
pub struct ProgramMapTable {
    pub program_number: u16,
    pub pcr_pid: u16,
    pub program_info_descriptors: Vec<Descriptor>,
    pub elementary_streams: Vec<ElementaryStream>,
}

#[derive(Debug, Clone)]
pub struct ElementaryStream {
    pub stream_type: StreamType,
    pub elementary_pid: u16,
    pub descriptors: Vec<Descriptor>,
}

/// The mathematical value of a [`ProgramMapTable`].
pub struct ProgramMapTableModel {
    pub program_number: u16,
    pub pcr_pid: u16,
    pub program_info_descriptors: Seq<DescriptorModel>,
    pub elementary_streams: Seq<ElementaryStreamModel>,
}

/// The mathematical value of an [`ElementaryStream`].
pub struct ElementaryStreamModel {
    pub stream_type: StreamType,
    pub elementary_pid: u16,
    pub descriptors: Seq<DescriptorModel>,
}

impl View for ElementaryStream {
    type V = ElementaryStreamModel;

    open spec fn view(&self) -> ElementaryStreamModel {
        ElementaryStreamModel {
            stream_type: self.stream_type,
            elementary_pid: self.elementary_pid,
            descriptors: seq_view(self.descriptors@),
        }
    }
}

impl View for ProgramMapTable {
    type V = ProgramMapTableModel;

    open spec fn view(&self) -> ProgramMapTableModel {
        ProgramMapTableModel {
            program_number: self.program_number,
            pcr_pid: self.pcr_pid,
            program_info_descriptors: seq_view(self.program_info_descriptors@),
            elementary_streams: seq_view(self.elementary_streams@),
        }
    }
}

/// Elementary stream types, from ISO/IEC 13818-1 table 2-29.
#[derive(Debug, Copy, Clone, PartialEq, Eq, Structural)]
pub enum StreamType {
    ItuTIsoIecReserved,
    IsoIec11172Video,
    ItuTRecH262IsoIec13818_2VideoOrIsoIec11172_2ConstrainedParameterVideoStream,
    IsoIec11172Audio,
    IsoIec13818_3Audio,
    ItuTRecH2220IsoIec13818_1PrivateSections,
    ItuTRecH2220IsoIec13818_1PESPacketsContainingPrivateData,
    IsoIec13522Mheg,
    ItuTRecH2220IsoIec13818_1AnnexADsmCC,
    ItuTRecH2221,
    IsoIec13818_6TypeA,
    IsoIec13818_6TypeB,
    IsoIec13818_6TypeC,
    IsoIec13818_6TypeD,
    ItuTRecH2220IsoIec13818_1Auxiliary,
    IsoIec13818_7AudioWithAdtsTransportSyntax,
    IsoIec14496_2Visual,
    IsoIec14496_3AudioWithTheLatmTransportSyntaxAsDefinedInIsoIec14496_3Amd1,
    IsoIec14496_1SlPacketizedStreamOrFlexMuxStreamCarriedInPesPackets,
    IsoIec14496_1SlPacketizedStreamOrFlexMusStreamCarriedInIsoIec14496Sections,
    IsoIec13818_6SynchronizedDownloadProtocol,
    IsoIec14496_10AVCVideo,
    IsoIec23008_2H265,
    ItuTRecH2220IsoIec13818_1Reserved(u8),
    UserPrivate(u8),
}

/// What [`StreamType::from_u8`] returns for each stream type code.
pub open spec fn spec_stream_type(value: u8) -> StreamType {
    if value == 0x00 { StreamType::ItuTIsoIecReserved }
    else if value == 0x01 { StreamType::IsoIec11172Video }
    else if value == 0x02 {
        StreamType::ItuTRecH262IsoIec13818_2VideoOrIsoIec11172_2ConstrainedParameterVideoStream
    }
    else if value == 0x03 { StreamType::IsoIec11172Audio }
    else if value == 0x04 { StreamType::IsoIec13818_3Audio }
    else if value == 0x05 { StreamType::ItuTRecH2220IsoIec13818_1PrivateSections }
    else if value == 0x06 { StreamType::ItuTRecH2220IsoIec13818_1PESPacketsContainingPrivateData }
    else if value == 0x07 { StreamType::IsoIec13522Mheg }
    else if value == 0x08 { StreamType::ItuTRecH2220IsoIec13818_1AnnexADsmCC }
    else if value == 0x09 { StreamType::ItuTRecH2221 }
    else if value == 0x0a { StreamType::IsoIec13818_6TypeA }
    else if value == 0x0b { StreamType::IsoIec13818_6TypeB }
    else if value == 0x0c { StreamType::IsoIec13818_6TypeC }
    else if value == 0x0d { StreamType::IsoIec13818_6TypeD }
    else if value == 0x0e { StreamType::ItuTRecH2220IsoIec13818_1Auxiliary }
    else if value == 0x0f { StreamType::IsoIec13818_7AudioWithAdtsTransportSyntax }
    else if value == 0x10 { StreamType::IsoIec14496_2Visual }
    else if value == 0x11 {
        StreamType::IsoIec14496_3AudioWithTheLatmTransportSyntaxAsDefinedInIsoIec14496_3Amd1
    }
    else if value == 0x12 {
        StreamType::IsoIec14496_1SlPacketizedStreamOrFlexMuxStreamCarriedInPesPackets
    }
    else if value == 0x13 {
        StreamType::IsoIec14496_1SlPacketizedStreamOrFlexMusStreamCarriedInIsoIec14496Sections
    }
    else if value == 0x14 { StreamType::IsoIec13818_6SynchronizedDownloadProtocol }
    else if value == 0x1b { StreamType::IsoIec14496_10AVCVideo }
    else if value == 0x24 { StreamType::IsoIec23008_2H265 }
    else if 0x15 <= value && value < 0x7f { StreamType::ItuTRecH2220IsoIec13818_1Reserved(value) }
    else { StreamType::UserPrivate(value) }
}

/// The code each stream type is written as; the inverse of
/// [`spec_stream_type`] on the codes the table defines.
pub open spec fn spec_stream_type_code(t: StreamType) -> u8 {
    match t {
        StreamType::ItuTIsoIecReserved => 0x00,
        StreamType::IsoIec11172Video => 0x01,
        StreamType::ItuTRecH262IsoIec13818_2VideoOrIsoIec11172_2ConstrainedParameterVideoStream => 0x02,
        StreamType::IsoIec11172Audio => 0x03,
        StreamType::IsoIec13818_3Audio => 0x04,
        StreamType::ItuTRecH2220IsoIec13818_1PrivateSections => 0x05,
        StreamType::ItuTRecH2220IsoIec13818_1PESPacketsContainingPrivateData => 0x06,
        StreamType::IsoIec13522Mheg => 0x07,
        StreamType::ItuTRecH2220IsoIec13818_1AnnexADsmCC => 0x08,
        StreamType::ItuTRecH2221 => 0x09,
        StreamType::IsoIec13818_6TypeA => 0x0a,
        StreamType::IsoIec13818_6TypeB => 0x0b,
        StreamType::IsoIec13818_6TypeC => 0x0c,
        StreamType::IsoIec13818_6TypeD => 0x0d,
        StreamType::ItuTRecH2220IsoIec13818_1Auxiliary => 0x0e,
        StreamType::IsoIec13818_7AudioWithAdtsTransportSyntax => 0x0f,
        StreamType::IsoIec14496_2Visual => 0x10,
        StreamType::IsoIec14496_3AudioWithTheLatmTransportSyntaxAsDefinedInIsoIec14496_3Amd1 => 0x11,
        StreamType::IsoIec14496_1SlPacketizedStreamOrFlexMuxStreamCarriedInPesPackets => 0x12,
        StreamType::IsoIec14496_1SlPacketizedStreamOrFlexMusStreamCarriedInIsoIec14496Sections => 0x13,
        StreamType::IsoIec13818_6SynchronizedDownloadProtocol => 0x14,
        StreamType::IsoIec14496_10AVCVideo => 0x1b,
        StreamType::IsoIec23008_2H265 => 0x24,
        StreamType::ItuTRecH2220IsoIec13818_1Reserved(x) => x,
        StreamType::UserPrivate(x) => x,
    }
}

/// The stream types carrying video, per the downstream channel
/// projection.
pub open spec fn spec_is_video(t: StreamType) -> bool {
    t == StreamType::IsoIec11172Video
        || t == StreamType::ItuTRecH262IsoIec13818_2VideoOrIsoIec11172_2ConstrainedParameterVideoStream
        || t == StreamType::IsoIec14496_10AVCVideo
        || t == StreamType::IsoIec23008_2H265
}

impl StreamType {
    pub fn from_u8(value: u8) -> (r: StreamType)
        ensures
            r == spec_stream_type(value),
    {
        match value {
            0x00 => Self::ItuTIsoIecReserved,
            0x01 => Self::IsoIec11172Video,
            0x02 => {
                Self::ItuTRecH262IsoIec13818_2VideoOrIsoIec11172_2ConstrainedParameterVideoStream
            },
            0x03 => Self::IsoIec11172Audio,
            0x04 => Self::IsoIec13818_3Audio,
            0x05 => Self::ItuTRecH2220IsoIec13818_1PrivateSections,
            0x06 => Self::ItuTRecH2220IsoIec13818_1PESPacketsContainingPrivateData,
            0x07 => Self::IsoIec13522Mheg,
            0x08 => Self::ItuTRecH2220IsoIec13818_1AnnexADsmCC,
            0x09 => Self::ItuTRecH2221,
            0x0a => Self::IsoIec13818_6TypeA,
            0x0b => Self::IsoIec13818_6TypeB,
            0x0c => Self::IsoIec13818_6TypeC,
            0x0d => Self::IsoIec13818_6TypeD,
            0x0e => Self::ItuTRecH2220IsoIec13818_1Auxiliary,
            0x0f => Self::IsoIec13818_7AudioWithAdtsTransportSyntax,
            0x10 => Self::IsoIec14496_2Visual,
            0x11 => Self::IsoIec14496_3AudioWithTheLatmTransportSyntaxAsDefinedInIsoIec14496_3Amd1,
            0x12 => Self::IsoIec14496_1SlPacketizedStreamOrFlexMuxStreamCarriedInPesPackets,
            0x13 => {
                Self::IsoIec14496_1SlPacketizedStreamOrFlexMusStreamCarriedInIsoIec14496Sections
            },
            0x14 => Self::IsoIec13818_6SynchronizedDownloadProtocol,
            0x1b => Self::IsoIec14496_10AVCVideo,
            0x24 => Self::IsoIec23008_2H265,
            _ => {
                if 0x15 <= value && value < 0x7f {
                    Self::ItuTRecH2220IsoIec13818_1Reserved(value)
                } else {
                    Self::UserPrivate(value)
                }
            },
        }
    }

    pub fn to_u8(self) -> (r: u8)
        ensures
            r == spec_stream_type_code(self),
    {
        match self {
            StreamType::ItuTIsoIecReserved => 0x00,
            StreamType::IsoIec11172Video => 0x01,
            StreamType::ItuTRecH262IsoIec13818_2VideoOrIsoIec11172_2ConstrainedParameterVideoStream => 0x02,
            StreamType::IsoIec11172Audio => 0x03,
            StreamType::IsoIec13818_3Audio => 0x04,
            StreamType::ItuTRecH2220IsoIec13818_1PrivateSections => 0x05,
            StreamType::ItuTRecH2220IsoIec13818_1PESPacketsContainingPrivateData => 0x06,
            StreamType::IsoIec13522Mheg => 0x07,
            StreamType::ItuTRecH2220IsoIec13818_1AnnexADsmCC => 0x08,
            StreamType::ItuTRecH2221 => 0x09,
            StreamType::IsoIec13818_6TypeA => 0x0a,
            StreamType::IsoIec13818_6TypeB => 0x0b,
            StreamType::IsoIec13818_6TypeC => 0x0c,
            StreamType::IsoIec13818_6TypeD => 0x0d,
            StreamType::ItuTRecH2220IsoIec13818_1Auxiliary => 0x0e,
            StreamType::IsoIec13818_7AudioWithAdtsTransportSyntax => 0x0f,
            StreamType::IsoIec14496_2Visual => 0x10,
            StreamType::IsoIec14496_3AudioWithTheLatmTransportSyntaxAsDefinedInIsoIec14496_3Amd1 => 0x11,
            StreamType::IsoIec14496_1SlPacketizedStreamOrFlexMuxStreamCarriedInPesPackets => 0x12,
            StreamType::IsoIec14496_1SlPacketizedStreamOrFlexMusStreamCarriedInIsoIec14496Sections => 0x13,
            StreamType::IsoIec13818_6SynchronizedDownloadProtocol => 0x14,
            StreamType::IsoIec14496_10AVCVideo => 0x1b,
            StreamType::IsoIec23008_2H265 => 0x24,
            StreamType::ItuTRecH2220IsoIec13818_1Reserved(x) => x,
            StreamType::UserPrivate(x) => x,
        }
    }

    /// Whether this stream type carries video.
    pub fn is_video(self) -> (r: bool)
        ensures
            r == spec_is_video(self),
    {
        match self {
            StreamType::IsoIec11172Video => true,
            StreamType::ItuTRecH262IsoIec13818_2VideoOrIsoIec11172_2ConstrainedParameterVideoStream => true,
            StreamType::IsoIec14496_10AVCVideo => true,
            StreamType::IsoIec23008_2H265 => true,
            _ => false,
        }
    }
}

/// Consecutive elementary stream entries: a stream type byte, a 13-bit
/// PID, and a length-prefixed descriptor region.
pub open spec fn spec_pmt_streams(b: Seq<u8>) -> Result<Seq<ElementaryStreamModel>, DecodeError>
    decreases b.len(),
{
    if b.len() == 0 {
        Ok(Seq::empty())
    } else if b.len() < 5 {
        Err(DecodeError::ShortBuffer)
    } else if b[3] & 0x0c != 0 {
        Err(DecodeError::ReservedBitsSet)
    } else if b.len() < 5 + spec_be16(b[3] & 0x03, b[4]) as int {
        Err(DecodeError::LengthOutOfRange)
    } else {
        let es_info_length = spec_be16(b[3] & 0x03, b[4]) as int;
        match spec_descriptor_list(b.subrange(5, 5 + es_info_length)) {
            Err(e) => Err(e),
            Ok(ds) => {
                let e = ElementaryStreamModel {
                    stream_type: spec_stream_type(b[0]),
                    elementary_pid: spec_be16(b[1] & 0x1f, b[2]),
                    descriptors: ds,
                };
                match spec_pmt_streams(b.skip(5 + es_info_length)) {
                    Ok(rest) => Ok(seq![e] + rest),
                    Err(err) => Err(err),
                }
            },
        }
    }
}

//
// ----- Law: PMT elementary stream loop round trip

/// One elementary stream entry to hand-encode: its raw stream type
/// byte, its PID, and the bytes of its descriptor region.
pub struct PmtStreamEncoding {
    pub stream_type: u8,
    pub elementary_pid: u16,
    pub descriptor_bytes: Seq<u8>,
}

/// An entry that can be written down: the PID fits its thirteen bits,
/// the descriptor region fits its ten-bit length field and holds a
/// well-formed descriptor list.
pub open spec fn spec_pmt_stream_wf(e: PmtStreamEncoding) -> bool {
    &&& e.elementary_pid <= 0x1fff
    &&& e.descriptor_bytes.len() <= 0x3ff
    &&& spec_descriptor_list(e.descriptor_bytes) is Ok
}

/// A hand-encoded run of elementary stream entries: the five header
/// bytes of each packed as the wire format lays them out, then its
/// descriptor region.
pub open spec fn spec_encode_pmt_streams(entries: Seq<PmtStreamEncoding>) -> Seq<u8>
    decreases entries.len(),
{
    if entries.len() == 0 {
        Seq::empty()
    } else {
        let e = entries[0];
        seq![
            e.stream_type,
            0xe0u8 | ((e.elementary_pid >> 8) as u8),
            (e.elementary_pid & 0xff) as u8,
            0xf0u8 | (((e.descriptor_bytes.len() as u16) >> 8) as u8),
            ((e.descriptor_bytes.len() as u16) & 0xff) as u8,
        ] + e.descriptor_bytes + spec_encode_pmt_streams(entries.skip(1))
    }
}

/// What each encoded entry decodes to.
pub open spec fn spec_pmt_stream_models(entries: Seq<PmtStreamEncoding>) -> Seq<
    ElementaryStreamModel,
>
    decreases entries.len(),
{
    if entries.len() == 0 {
        Seq::empty()
    } else {
        let e = entries[0];
        seq![ElementaryStreamModel {
            stream_type: spec_stream_type(e.stream_type),
            elementary_pid: e.elementary_pid,
            descriptors: spec_descriptor_list(e.descriptor_bytes).unwrap(),
        }] + spec_pmt_stream_models(entries.skip(1))
    }
}

/// Round trip on synthetic PMT stream loops: a buffer hand-encoded
/// from any run of writable entries decodes back to exactly those
/// streams, types, PIDs and descriptor lists included.
pub proof fn lemma_pmt_streams_round_trip(entries: Seq<PmtStreamEncoding>)
    requires
        forall|i: int| 0 <= i < entries.len() ==> spec_pmt_stream_wf(#[trigger] entries[i]),
    ensures
        spec_pmt_streams(spec_encode_pmt_streams(entries)) == Ok::<
            Seq<ElementaryStreamModel>,
            DecodeError,
        >(spec_pmt_stream_models(entries)),
    decreases entries.len(),
{
    let b = spec_encode_pmt_streams(entries);
    if entries.len() == 0 {
        assert(spec_pmt_streams(b) == Ok::<Seq<ElementaryStreamModel>, DecodeError>(Seq::empty()));
    } else {
        let e = entries[0];
        let pid = e.elementary_pid;
        let el: u16 = e.descriptor_bytes.len() as u16;
        let rest = spec_encode_pmt_streams(entries.skip(1));

        assert(b.len() == 5 + e.descriptor_bytes.len() + rest.len());
        assert(b[0] == e.stream_type);
        assert(b[1] == 0xe0u8 | ((pid >> 8) as u8));
        assert(b[2] == (pid & 0xff) as u8);
        assert(b[3] == 0xf0u8 | ((el >> 8) as u8));
        assert(b[4] == (el & 0xff) as u8);

        assert((0xf0u8 | ((el >> 8) as u8)) & 0x0c == 0) by (bit_vector)
            requires
                el <= 0x3ff,
        ;
        assert((((((0xe0u8 | ((pid >> 8) as u8)) & 0x1f) as u16) << 8) | (((pid & 0xff) as u8)
            as u16)) == pid) by (bit_vector)
            requires
                pid <= 0x1fff,
        ;
        assert((((((0xf0u8 | ((el >> 8) as u8)) & 0x03) as u16) << 8) | (((el & 0xff) as u8)
            as u16)) == el) by (bit_vector)
            requires
                el <= 0x3ff,
        ;
        assert(spec_be16(b[1] & 0x1f, b[2]) == pid);
        assert(spec_be16(b[3] & 0x03, b[4]) == el);

        assert(b.subrange(5, 5 + el as int) =~= e.descriptor_bytes);
        assert(b.skip(5 + el as int) =~= rest);
        assert(forall|i: int|
            0 <= i < entries.skip(1).len() ==> spec_pmt_stream_wf(
                #[trigger] entries.skip(1)[i],
            ));
        lemma_pmt_streams_round_trip(entries.skip(1));
    }
}

/// A hand-encoded PMT payload: the PCR PID, the length-prefixed
/// program-level descriptor region, and the elementary stream entries.
pub open spec fn spec_encode_pmt_payload(
    pcr_pid: u16,
    program_info_bytes: Seq<u8>,
    streams: Seq<PmtStreamEncoding>,
) -> Seq<u8> {
    seq![
        0xe0u8 | ((pcr_pid >> 8) as u8),
        (pcr_pid & 0xff) as u8,
        0xf0u8 | (((program_info_bytes.len() as u16) >> 8) as u8),
        ((program_info_bytes.len() as u16) & 0xff) as u8,
    ] + program_info_bytes + spec_encode_pmt_streams(streams)
}

/// Round trip of a whole PMT section payload: a packet whose data is a
/// hand-encoded table, and whose header announces exactly that
/// payload, decodes back to the encoded PCR PID, program descriptors
/// and elementary streams; the program number is the header's
/// identifier.
pub proof fn lemma_parse_pmt_round_trip(
    h: PacketHeader,
    pcr_pid: u16,
    program_info_bytes: Seq<u8>,
    streams: Seq<PmtStreamEncoding>,
    crc: u32,
)
    requires
        pcr_pid <= 0x1fff,
        program_info_bytes.len() <= 0x3ff,
        spec_descriptor_list(program_info_bytes) is Ok,
        forall|i: int| 0 <= i < streams.len() ==> spec_pmt_stream_wf(#[trigger] streams[i]),
        h.section_length == spec_encode_pmt_payload(pcr_pid, program_info_bytes, streams).len()
            + 9,
        h.section_length <= 0x3fd,
    ensures
        spec_parse_pmt(
            PacketModel {
                header: h,
                data: spec_encode_pmt_payload(pcr_pid, program_info_bytes, streams),
                crc,
            },
        ) == Ok::<ProgramMapTableModel, DecodeError>(ProgramMapTableModel {
            program_number: h.identifier,
            pcr_pid,
            program_info_descriptors: spec_descriptor_list(program_info_bytes).unwrap(),
            elementary_streams: spec_pmt_stream_models(streams),
        }),
{
    let payload = spec_encode_pmt_payload(pcr_pid, program_info_bytes, streams);
    let pil: u16 = program_info_bytes.len() as u16;
    let b = payload;
    assert(payload.take(h.section_length - 9) =~= payload);
    assert(b[0] == 0xe0u8 | ((pcr_pid >> 8) as u8));
    assert(b[1] == (pcr_pid & 0xff) as u8);
    assert(b[2] == 0xf0u8 | ((pil >> 8) as u8));
    assert(b[3] == (pil & 0xff) as u8);

    assert((0xf0u8 | ((pil >> 8) as u8)) & 0x0c == 0) by (bit_vector)
        requires
            pil <= 0x3ff,
    ;
    assert((((((0xe0u8 | ((pcr_pid >> 8) as u8)) & 0x1f) as u16) << 8) | (((pcr_pid & 0xff)
        as u8) as u16)) == pcr_pid) by (bit_vector)
        requires
            pcr_pid <= 0x1fff,
    ;
    assert((((((0xf0u8 | ((pil >> 8) as u8)) & 0x03) as u16) << 8) | (((pil & 0xff) as u8)
        as u16)) == pil) by (bit_vector)
        requires
            pil <= 0x3ff,
    ;
    assert(spec_be16(b[0] & 0x1f, b[1]) == pcr_pid);
    assert(spec_be16(b[2] & 0x03, b[3]) == pil);

    assert(b.subrange(4, 4 + pil as int) =~= program_info_bytes);
    assert(b.skip(4 + pil as int) =~= spec_encode_pmt_streams(streams));
    lemma_pmt_streams_round_trip(streams);
}

/// What [`parse_pmt`] decodes from a whole section: the PCR PID, the
/// program-level descriptor region, and the elementary stream entries
/// that fill the rest of the payload region.
pub open spec fn spec_parse_pmt(p: PacketModel) -> Result<ProgramMapTableModel, DecodeError> {
    if p.header.section_length < 9 {
        Err(DecodeError::LengthOutOfRange)
    } else if p.data.len() < p.header.section_length - 9 {
        Err(DecodeError::ShortBuffer)
    } else {
        let b = p.data.take(p.header.section_length - 9);
        if b.len() < 4 {
            Err(DecodeError::ShortBuffer)
        } else if b[2] & 0x0c != 0 {
            Err(DecodeError::ReservedBitsSet)
        } else if b.len() < 4 + spec_be16(b[2] & 0x03, b[3]) as int {
            Err(DecodeError::LengthOutOfRange)
        } else {
            let program_info_length = spec_be16(b[2] & 0x03, b[3]) as int;
            match spec_descriptor_list(b.subrange(4, 4 + program_info_length)) {
                Err(e) => Err(e),
                Ok(pds) => match spec_pmt_streams(b.skip(4 + program_info_length)) {
                    Err(e) => Err(e),
                    Ok(streams) => Ok(ProgramMapTableModel {
                        program_number: p.header.identifier,
                        pcr_pid: spec_be16(b[0] & 0x1f, b[1]),
                        program_info_descriptors: pds,
                        elementary_streams: streams,
                    }),
                },
            }
        }
    }
}

/// Decodes a Program Map Table section payload; the section header's
/// identifier is the program number.
pub fn parse_pmt(packet: &Packet) -> (r: Result<ProgramMapTable, DecodeError>)
    ensures
        decoded_as(r, spec_parse_pmt(packet@)),
{
    if packet.header.section_length < 9 {
        return Err(DecodeError::LengthOutOfRange);
    }
    let payload_len = packet.header.payload_len() as usize;
    if packet.data.len() < payload_len {
        return Err(DecodeError::ShortBuffer);
    }
    let ghost region = packet@.data.take(payload_len as int);

    if payload_len < 4 {
        return Err(DecodeError::ShortBuffer);
    }
    if packet.data[2] & 0x0c != 0 {
        return Err(DecodeError::ReservedBitsSet);
    }
    let program_info_length = be16(packet.data[2] & 0x03, packet.data[3]) as usize;
    if payload_len - 4 < program_info_length {
        return Err(DecodeError::LengthOutOfRange);
    }
    let pcr_pid = be16(packet.data[0] & 0x1f, packet.data[1]);

    let info_slice = vstd::slice::slice_subrange(
        packet.data.as_slice(),
        4,
        4 + program_info_length,
    );
    proof {
        assert(info_slice@ =~= region.subrange(4, 4 + program_info_length as int));
    }
    let program_info_descriptors = match Descriptor::read_many(info_slice) {
        Ok(ds) => ds,
        Err(e) => { return Err(e); },
    };

    let mut elementary_streams: Vec<ElementaryStream> = Vec::new();
    let mut offset: usize = 4 + program_info_length;

    proof {
        assert(seq_view(elementary_streams@) =~= Seq::<ElementaryStreamModel>::empty());
        if spec_pmt_streams(region.skip(offset as int)) is Ok {
            let rest = spec_pmt_streams(region.skip(offset as int)).unwrap();
            assert(seq_view(elementary_streams@) + rest =~= rest);
        }
    }

    while offset < payload_len
        invariant
            4 <= offset <= payload_len <= packet.data.len(),
            region == packet@.data.take(payload_len as int),
            match spec_pmt_streams(region.skip(offset as int)) {
                Ok(rest) => spec_parse_pmt(packet@) == Ok::<ProgramMapTableModel, DecodeError>(
                    ProgramMapTableModel {
                        program_number: packet@.header.identifier,
                        pcr_pid: pcr_pid,
                        program_info_descriptors: seq_view(program_info_descriptors@),
                        elementary_streams: seq_view(elementary_streams@) + rest,
                    },
                ),
                Err(e) => spec_parse_pmt(packet@) == Err::<ProgramMapTableModel, DecodeError>(e),
            },
        decreases payload_len - offset,
    {
        let ghost rem = region.skip(offset as int);
        proof {
            assert(rem.len() == payload_len - offset);
            assert forall|i: int| 0 <= i < rem.len() implies rem[i] == packet@.data[offset + i] by {}
        }
        if payload_len - offset < 5 {
            return Err(DecodeError::ShortBuffer);
        }
        let stream_type_byte = packet.data[offset];
        let elementary_pid = be16(packet.data[offset + 1] & 0x1f, packet.data[offset + 2]);
        if packet.data[offset + 3] & 0x0c != 0 {
            return Err(DecodeError::ReservedBitsSet);
        }
        let es_info_length = be16(packet.data[offset + 3] & 0x03, packet.data[offset + 4]) as usize;
        if payload_len - offset - 5 < es_info_length {
            return Err(DecodeError::LengthOutOfRange);
        }
        let es_slice = vstd::slice::slice_subrange(
            packet.data.as_slice(),
            offset + 5,
            offset + 5 + es_info_length,
        );
        proof {
            assert(es_slice@ =~= rem.subrange(5, 5 + spec_be16(rem[3] & 0x03, rem[4]) as int));
        }
        let descriptors = match Descriptor::read_many(es_slice) {
            Ok(ds) => ds,
            Err(e) => { return Err(e); },
        };
        let element = ElementaryStream {
            stream_type: StreamType::from_u8(stream_type_byte),
            elementary_pid,
            descriptors,
        };
        proof {
            assert(element@ == ElementaryStreamModel {
                stream_type: spec_stream_type(rem[0]),
                elementary_pid: spec_be16(rem[1] & 0x1f, rem[2]),
                descriptors: seq_view(descriptors@),
            });
            assert(rem.skip(5 + spec_be16(rem[3] & 0x03, rem[4]) as int)
                =~= region.skip(offset as int + 5 + es_info_length as int));
            lemma_seq_view_push(elementary_streams@, element);
            match spec_pmt_streams(region.skip(offset as int + 5 + es_info_length as int)) {
                Ok(rest) => {
                    assert(seq_view(elementary_streams@) + (seq![element@] + rest)
                        =~= seq_view(elementary_streams@).push(element@) + rest);
                },
                Err(_) => {},
            }
        }
        elementary_streams.push(element);
        offset = offset + 5 + es_info_length;
    }

    proof {
        assert(region.skip(payload_len as int) =~= Seq::<u8>::empty());
        assert(seq_view(elementary_streams@) + Seq::<ElementaryStreamModel>::empty()
            =~= seq_view(elementary_streams@));
    }
    Ok(ProgramMapTable {
        program_number: packet.header.identifier,
        pcr_pid,
        program_info_descriptors,
        elementary_streams,
    })
}

} // verus!
