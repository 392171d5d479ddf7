//! MPEG transport stream section framing.
//!
//! A section arrives from the demultiplexer as one byte buffer: an 8-byte
//! header, a table-specific payload, and a trailing 4-byte CRC. Decoding
//! is purely positional, and every malformed shape yields a
//! [`DecodeError`](crate::error::DecodeError) instead of a panic, since
//! broadcast bytes are untrusted input.

pub mod descriptors;

use vstd::prelude::*;

use crate::error::DecodeError;

verus! {

/// Flag for the demultiplexer: verify the CRC of filtered sections.
pub const DMX_CHECK_CRC: u32 = 1;
/// Flag for the demultiplexer: deliver a single section, then stop.
pub const DMX_ONESHOT: u32 = 2;
/// Flag for the demultiplexer: start filtering as soon as the filter is set.
pub const DMX_IMMEDIATE_START: u32 = 4;

/// Number of bytes of the fixed section header.
pub const PACKET_HEADER_LENGTH: usize = 8;

// -----

/// One decoded section: header, payload bytes, and the trailing CRC32.
pub struct Packet {
    pub header: PacketHeader,
    pub data: Vec<u8>,
    pub crc: u32,
}

/// The mathematical value of a [`Packet`].
pub struct PacketModel {
    pub header: PacketHeader,
    pub data: Seq<u8>,
    pub crc: u32,
}

impl View for Packet {
    type V = PacketModel;

    open spec fn view(&self) -> PacketModel {
        PacketModel { header: self.header, data: self.data@, crc: self.crc }
    }
}

/// The fixed 8-byte header of a section.
///
/// The 16-bit `identifier` is used differently depending on the section:
/// it is the transport stream id for PAT, NIT and SDT sections, and the
/// program number for PMT sections.
#[derive(Debug, Copy, Clone, PartialEq, Eq, Structural)]
pub struct PacketHeader {
    pub table_id: u8,
    pub section_syntax_indicator: bool,
    pub section_length: u16,
    /// May be used differently depending on section.
    pub identifier: u16,
    pub version_number: u8,
    pub current_next_indicator: bool,
    pub section_number: u8,
    pub last_section_number: u8,
}

/// What [`PacketHeader::from_buf`] returns for a given buffer.
///
/// The section length occupies the low 2 bits of the second byte and the
/// whole third byte; its two neighbouring reserved bits must be clear and
/// the length itself may not exceed 0x3FD.
pub open spec fn spec_packet_header(b: Seq<u8>) -> Result<PacketHeader, DecodeError> {
    if b.len() < 8 {
        Err(DecodeError::ShortBuffer)
    } else if b[1] & 0x0c != 0 {
        Err(DecodeError::ReservedBitsSet)
    } else {
        let section_length = (((b[1] & 0x03) as u16) << 8) | (b[2] as u16);
        if section_length > 0x3fd {
            Err(DecodeError::LengthOutOfRange)
        } else {
            Ok(PacketHeader {
                table_id: b[0],
                section_syntax_indicator: (b[1] & 0x80) != 0,
                section_length,
                identifier: ((b[3] as u16) << 8) | (b[4] as u16),
                version_number: b[5] & 0x3e,
                current_next_indicator: (b[5] & 0x01) != 0,
                section_number: b[6],
                last_section_number: b[7],
            })
        }
    }
}

impl PacketHeader {
    pub fn from_buf(buf: &[u8]) -> (r: Result<PacketHeader, DecodeError>)
        ensures
            r == spec_packet_header(buf@),
    {
        if buf.len() < PACKET_HEADER_LENGTH {
            return Err(DecodeError::ShortBuffer);
        }
        if buf[1] & 0x0c != 0 {
            return Err(DecodeError::ReservedBitsSet);
        }
        let section_length: u16 = (((buf[1] & 0x03) as u16) << 8) | (buf[2] as u16);
        if section_length > 0x3fd {
            return Err(DecodeError::LengthOutOfRange);
        }
        Ok(PacketHeader {
            table_id: buf[0],
            section_syntax_indicator: (buf[1] & 0x80) != 0,
            section_length,
            identifier: ((buf[3] as u16) << 8) | (buf[4] as u16),
            version_number: buf[5] & 0x3e,
            current_next_indicator: (buf[5] & 0x01) != 0,
            section_number: buf[6],
            last_section_number: buf[7],
        })
    }

    /// Number of payload bytes the section length announces: the length
    /// counts everything after its own field, which is 5 more header
    /// bytes, the payload, and the 4 CRC bytes.
    pub fn payload_len(&self) -> (r: u16)
        requires
            self.section_length >= 9,
        ensures
            r == self.section_length - 9,
    {
        self.section_length - 9
    }
}

/// What [`Packet::from_buf`] returns for a given buffer.
pub open spec fn spec_packet(b: Seq<u8>) -> Result<PacketModel, DecodeError> {
    match spec_packet_header(b) {
        Err(e) => Err(e),
        Ok(header) => {
            if b.len() < 12 {
                Err(DecodeError::ShortBuffer)
            } else {
                Ok(PacketModel {
                    header,
                    data: b.subrange(8, b.len() - 4),
                    crc: ((b[b.len() - 4] as u32) << 24) | ((b[b.len() - 3] as u32) << 16)
                        | ((b[b.len() - 2] as u32) << 8) | (b[b.len() - 1] as u32),
                })
            }
        },
    }
}

impl Packet {
    pub fn from_buf(buf: &[u8]) -> (r: Result<Packet, DecodeError>)
        ensures
            match r {
                Ok(p) => spec_packet(buf@) == Ok::<PacketModel, DecodeError>(p@),
                Err(e) => spec_packet(buf@) == Err::<PacketModel, DecodeError>(e),
            },
    {
        let header = match PacketHeader::from_buf(buf) {
            Ok(h) => h,
            Err(e) => { return Err(e); },
        };
        if buf.len() < 12 {
            return Err(DecodeError::ShortBuffer);
        }

        let payload_start = PACKET_HEADER_LENGTH;
        let payload_end = buf.len() - 4;
        let data = vstd::slice::slice_to_vec(vstd::slice::slice_subrange(buf, payload_start, payload_end));

        let crc_start = buf.len() - 4;
        let crc: u32 = ((buf[crc_start] as u32) << 24) | ((buf[crc_start + 1] as u32) << 16)
            | ((buf[crc_start + 2] as u32) << 8) | (buf[crc_start + 3] as u32);

        Ok(Packet { header, data, crc })
    }
}

//
// ----- Law: section framing round trip

/// A hand-encoded section: the eight header bytes packed as the wire
/// format lays them out, the payload, and the CRC32 trailer.
pub open spec fn spec_encode_section(h: PacketHeader, payload: Seq<u8>, crc: u32) -> Seq<u8> {
    seq![
        h.table_id,
        (if h.section_syntax_indicator { 0x80u8 } else { 0u8 }) | ((h.section_length >> 8) as u8),
        (h.section_length & 0xff) as u8,
        (h.identifier >> 8) as u8,
        (h.identifier & 0xff) as u8,
        h.version_number | (if h.current_next_indicator { 1u8 } else { 0u8 }),
        h.section_number,
        h.last_section_number,
    ] + payload + seq![
        (crc >> 24) as u8,
        ((crc >> 16) & 0xff) as u8,
        ((crc >> 8) & 0xff) as u8,
        (crc & 0xff) as u8,
    ]
}

/// Round trip of the section framing: a buffer hand-encoded from any
/// header, payload and CRC decodes back to exactly those values. The
/// header must be encodable: its length field counts the payload plus
/// nine as the wire format requires, stays within the allowed
/// maximum, and its version field fits its five bits.
pub proof fn lemma_section_round_trip(h: PacketHeader, payload: Seq<u8>, crc: u32)
    requires
        h.section_length == payload.len() + 9,
        h.section_length <= 0x3fd,
        h.version_number & 0xc1 == 0,
    ensures
        spec_packet(spec_encode_section(h, payload, crc)) == Ok::<PacketModel, DecodeError>(
            PacketModel { header: h, data: payload, crc },
        ),
{
    let b = spec_encode_section(h, payload, crc);
    let sl = h.section_length;
    let id = h.identifier;
    let ver = h.version_number;
    let sb: u8 = if h.section_syntax_indicator { 0x80 } else { 0 };
    let cb: u8 = if h.current_next_indicator { 1 } else { 0 };

    assert(b.len() == payload.len() + 12);
    assert(b[0] == h.table_id);
    assert(b[1] == sb | ((sl >> 8) as u8));
    assert(b[2] == (sl & 0xff) as u8);
    assert(b[3] == (id >> 8) as u8);
    assert(b[4] == (id & 0xff) as u8);
    assert(b[5] == ver | cb);
    assert(b[6] == h.section_number);
    assert(b[7] == h.last_section_number);

    assert((sb | ((sl >> 8) as u8)) & 0x0c == 0) by (bit_vector)
        requires
            sl <= 0x3fd,
            sb == 0x80 || sb == 0,
    ;
    assert((((((sb | ((sl >> 8) as u8)) & 0x03) as u16) << 8) | (((sl & 0xff) as u8) as u16))
        == sl) by (bit_vector)
        requires
            sl <= 0x3fd,
            sb == 0x80 || sb == 0,
    ;
    assert(((sb | ((sl >> 8) as u8)) & 0x80 != 0) == (sb == 0x80)) by (bit_vector)
        requires
            sl <= 0x3fd,
            sb == 0x80 || sb == 0,
    ;
    assert(((((id >> 8) as u8) as u16) << 8) | (((id & 0xff) as u8) as u16) == id)
        by (bit_vector);
    assert((ver | cb) & 0x3e == ver) by (bit_vector)
        requires
            ver & 0xc1 == 0,
            cb == 0 || cb == 1,
    ;
    assert(((ver | cb) & 0x01 != 0) == (cb == 1)) by (bit_vector)
        requires
            ver & 0xc1 == 0,
            cb == 0 || cb == 1,
    ;

    assert(spec_packet_header(b) == Ok::<PacketHeader, DecodeError>(h));

    let n = b.len() as int;
    assert(b[n - 4] == (crc >> 24) as u8);
    assert(b[n - 3] == ((crc >> 16) & 0xff) as u8);
    assert(b[n - 2] == ((crc >> 8) & 0xff) as u8);
    assert(b[n - 1] == (crc & 0xff) as u8);
    assert(((((crc >> 24) as u8) as u32) << 24) | (((((crc >> 16) & 0xff) as u8) as u32) << 16)
        | (((((crc >> 8) & 0xff) as u8) as u32) << 8) | (((crc & 0xff) as u8) as u32) == crc)
        by (bit_vector);

    assert(b.subrange(8, n - 4) =~= payload);
}

//
// -----

/// Table of all possible service types, from ETSI EN 300 468 table 89.
#[derive(Debug, Copy, Clone, PartialEq, Eq, Structural)]
pub enum ServiceType {
    DigitalTelevision,
    DigitalRadioSound,
    Teletext,
    NvodReference,
    NvodTimeShifted,
    Mosaic,
    FmRadio,
    DvbSrmService,
    AdvancedCodecDigitalRadioSound,
    H264Mosaic,
    DataBroadcast,
    CiReserved,
    RcsMap,
    RcsForwardLinkSignalling,
    DvbMultimediaHomePlatform,
    Mpeg2HdDigitalTelevision,
    H264SdDigitalTelevision,
    H264SdnvodTimeShifted,
    H264SdnvodReference,
    H264HdDigitalTelevision,
    H264HdnvodTimeShifted,
    H264HdnvodReference,
    H264FrameCompatiblePlanoStereoscopicHdDigitalTelevision,
    H264FrameCompatiblePlanoStereoscopicHdnvodTimeShifted,
    H264FrameCompatiblePlanoStereoscopicHdnvodReference,
    HevcDigitalTelevision,
    HevcUhdDigitalTelevision,
    UserDefined(u8),
    Reserved(u8),
}

/// What [`ServiceType::from_byte`] returns for each service type code.
pub open spec fn spec_service_type(byte: u8) -> ServiceType {
    if byte == 0x01 { ServiceType::DigitalTelevision }
    else if byte == 0x02 { ServiceType::DigitalRadioSound }
    else if byte == 0x03 { ServiceType::Teletext }
    else if byte == 0x04 { ServiceType::NvodReference }
    else if byte == 0x05 { ServiceType::NvodTimeShifted }
    else if byte == 0x06 { ServiceType::Mosaic }
    else if byte == 0x07 { ServiceType::FmRadio }
    else if byte == 0x08 { ServiceType::DvbSrmService }
    else if byte == 0x0a { ServiceType::AdvancedCodecDigitalRadioSound }
    else if byte == 0x0b { ServiceType::H264Mosaic }
    else if byte == 0x0c { ServiceType::DataBroadcast }
    else if byte == 0x0d { ServiceType::CiReserved }
    else if byte == 0x0e { ServiceType::RcsMap }
    else if byte == 0x0f { ServiceType::RcsForwardLinkSignalling }
    else if byte == 0x10 { ServiceType::DvbMultimediaHomePlatform }
    else if byte == 0x11 { ServiceType::Mpeg2HdDigitalTelevision }
    else if byte == 0x16 { ServiceType::H264SdDigitalTelevision }
    else if byte == 0x17 { ServiceType::H264SdnvodTimeShifted }
    else if byte == 0x18 { ServiceType::H264SdnvodReference }
    else if byte == 0x19 { ServiceType::H264HdDigitalTelevision }
    else if byte == 0x1a { ServiceType::H264HdnvodTimeShifted }
    else if byte == 0x1b { ServiceType::H264HdnvodReference }
    else if byte == 0x1c { ServiceType::H264FrameCompatiblePlanoStereoscopicHdDigitalTelevision }
    else if byte == 0x1d { ServiceType::H264FrameCompatiblePlanoStereoscopicHdnvodTimeShifted }
    else if byte == 0x1e { ServiceType::H264FrameCompatiblePlanoStereoscopicHdnvodReference }
    else if byte == 0x1f { ServiceType::HevcDigitalTelevision }
    else if byte == 0x20 { ServiceType::HevcUhdDigitalTelevision }
    else if 0x80 <= byte && byte <= 0xfe { ServiceType::UserDefined(byte) }
    else { ServiceType::Reserved(byte) }
}

impl ServiceType {
    pub fn from_byte(byte: u8) -> (r: ServiceType)
        ensures
            r == spec_service_type(byte),
    {
        match byte {
            0x01 => Self::DigitalTelevision,
            0x02 => Self::DigitalRadioSound,
            0x03 => Self::Teletext,
            0x04 => Self::NvodReference,
            0x05 => Self::NvodTimeShifted,
            0x06 => Self::Mosaic,
            0x07 => Self::FmRadio,
            0x08 => Self::DvbSrmService,
            0x0a => Self::AdvancedCodecDigitalRadioSound,
            0x0b => Self::H264Mosaic,
            0x0c => Self::DataBroadcast,
            0x0d => Self::CiReserved,
            0x0e => Self::RcsMap,
            0x0f => Self::RcsForwardLinkSignalling,
            0x10 => Self::DvbMultimediaHomePlatform,
            0x11 => Self::Mpeg2HdDigitalTelevision,
            0x16 => Self::H264SdDigitalTelevision,
            0x17 => Self::H264SdnvodTimeShifted,
            0x18 => Self::H264SdnvodReference,
            0x19 => Self::H264HdDigitalTelevision,
            0x1a => Self::H264HdnvodTimeShifted,
            0x1b => Self::H264HdnvodReference,
            0x1c => Self::H264FrameCompatiblePlanoStereoscopicHdDigitalTelevision,
            0x1d => Self::H264FrameCompatiblePlanoStereoscopicHdnvodTimeShifted,
            0x1e => Self::H264FrameCompatiblePlanoStereoscopicHdnvodReference,
            0x1f => Self::HevcDigitalTelevision,
            0x20 => Self::HevcUhdDigitalTelevision,
            0x80..=0xfe => Self::UserDefined(byte),
            _ => Self::Reserved(byte),
        }
    }
}

//
// -----

/// The sequence of characters that a best-effort text decode of the given
/// bytes yields, before control characters are trimmed.
///
/// DVB text fields use a per-field character-table-prefix encoding (ETSI
/// EN 300 468 annex A); this library deliberately keeps the best-effort
/// lossy UTF-8 reading of the bytes instead of a full table decode. That
/// simplification is a known limitation, not an accident.
pub uninterp spec fn utf8_lossy_of(b: Seq<u8>) -> Seq<char>;

/// Relies on String::from_utf8_lossy: the result depends on the input
/// bytes alone.
#[verifier::external_body]
fn utf8_lossy(raw: &[u8]) -> (r: String)
    ensures
        r@ == utf8_lossy_of(raw@),
{
    String::from_utf8_lossy(raw).into_owned()
}

/// True for the characters `char::is_control` reports: the C0 controls
/// and delete, and the C1 controls.
pub open spec fn spec_is_control(c: char) -> bool {
    (c as u32) <= 0x1f || (0x7f <= c as u32 && c as u32 <= 0x9f)
}

fn is_control_char(c: char) -> (r: bool)
    ensures
        r == spec_is_control(c),
{
    let u = c as u32;
    u <= 0x1f || (0x7f <= u && u <= 0x9f)
}

/// The given characters with leading control characters removed.
pub open spec fn trim_start_controls(s: Seq<char>) -> Seq<char>
    decreases s.len(),
{
    if s.len() > 0 && spec_is_control(s[0]) {
        trim_start_controls(s.drop_first())
    } else {
        s
    }
}

/// The given characters with trailing control characters removed.
pub open spec fn trim_end_controls(s: Seq<char>) -> Seq<char>
    decreases s.len(),
{
    if s.len() > 0 && spec_is_control(s[s.len() - 1]) {
        trim_end_controls(s.drop_last())
    } else {
        s
    }
}

/// The given characters with control characters removed from both ends.
pub open spec fn trim_controls(s: Seq<char>) -> Seq<char> {
    trim_end_controls(trim_start_controls(s))
}

/// Best-effort decode of a DVB text field: lossy UTF-8 reading of the
/// bytes with control characters stripped from both ends.
pub fn decode_stupid_string(raw_text: &[u8]) -> (r: Option<String>)
    ensures
        r matches Some(s) && s@ == trim_controls(utf8_lossy_of(raw_text@)),
{
    let converted = utf8_lossy(raw_text);
    let text = converted.as_str();
    let len = text.unicode_len();

    let ghost full: Seq<char> = text@;

    proof {
        assert(full.skip(0) =~= full);
    }

    let mut start: usize = 0;
    while start < len && is_control_char(text.get_char(start))
        invariant
            text@ == full,
            len == full.len(),
            start <= len,
            trim_start_controls(full) == trim_start_controls(full.skip(start as int)),
        decreases len - start,
    {
        proof {
            assert(full.skip(start as int).drop_first() =~= full.skip(start as int + 1));
        }
        start = start + 1;
    }

    proof {
        if start < len {
            assert(full.skip(start as int)[0] == full[start as int]);
            assert(trim_start_controls(full.skip(start as int)) == full.skip(start as int));
        } else {
            assert(full.skip(start as int) =~= Seq::<char>::empty());
            assert(trim_start_controls(full) == full.skip(start as int));
        }
    }

    let mut end: usize = len;
    while end > start && is_control_char(text.get_char(end - 1))
        invariant
            text@ == full,
            len == full.len(),
            start <= end <= len,
            trim_start_controls(full) == full.skip(start as int),
            trim_end_controls(full.skip(start as int))
                == trim_end_controls(full.subrange(start as int, end as int)),
        decreases end,
    {
        proof {
            assert(full.subrange(start as int, end as int).drop_last()
                =~= full.subrange(start as int, end as int - 1));
            assert(full.subrange(start as int, end as int)[end - start - 1]
                == full[end as int - 1]);
        }
        end = end - 1;
    }

    proof {
        let mid = full.subrange(start as int, end as int);
        if end > start {
            assert(mid[mid.len() - 1] == full[end as int - 1]);
            assert(trim_end_controls(mid) == mid);
        } else {
            assert(mid =~= Seq::<char>::empty());
        }
        assert(full.skip(start as int) =~= full.subrange(start as int, len as int));
    }

    let trimmed = text.substring_char(start, end);
    Some(String::from_str(trimmed))
}

} // verus!
