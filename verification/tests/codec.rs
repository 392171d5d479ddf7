//! Section framing and table decoding against hand-encoded buffers.

use rdvb::error::DecodeError;
use rdvb::mpeg::{Packet, PacketHeader};
use rdvb::si::nit::NetworkInformation;
use rdvb::si::pat::{parse_pat, PatValue};
use rdvb::si::pmt::{parse_pmt, StreamType};
use rdvb::si::sdt::ServiceDescription;

/// Encodes a whole section: the 8-byte header, the payload, and a
/// 4-byte CRC trailer.
fn section(table_id: u8, identifier: u16, payload: &[u8]) -> Vec<u8> {
    let section_length = (payload.len() + 9) as u16;
    let mut buf = vec![
        table_id,
        0x80 | ((section_length >> 8) as u8),
        (section_length & 0xff) as u8,
        (identifier >> 8) as u8,
        (identifier & 0xff) as u8,
        0x01, // version 0, current
        0x00, // section number
        0x00, // last section number
    ];
    buf.extend_from_slice(payload);
    buf.extend_from_slice(&[0xde, 0xad, 0xbe, 0xef]);
    buf
}

#[test]
fn header_round_trip() {
    let buf = section(0x42, 0x1234, &[0xaa, 0xbb]);
    let header = PacketHeader::from_buf(&buf).unwrap();
    assert_eq!(header.table_id, 0x42);
    assert!(header.section_syntax_indicator);
    assert_eq!(header.section_length, 11);
    assert_eq!(header.identifier, 0x1234);
    assert_eq!(header.version_number, 0);
    assert!(header.current_next_indicator);
    assert_eq!(header.section_number, 0);
    assert_eq!(header.last_section_number, 0);
}

#[test]
fn header_rejects_malformed() {
    assert_eq!(PacketHeader::from_buf(&[0x00; 4]), Err(DecodeError::ShortBuffer));

    // Reserved bits of the length byte set.
    let mut buf = section(0x00, 0, &[]);
    buf[1] |= 0x0c;
    assert_eq!(PacketHeader::from_buf(&buf), Err(DecodeError::ReservedBitsSet));

    // A section length over the allowed maximum.
    let long = [0x00, 0x83, 0xfe, 0, 0, 0, 0, 0];
    assert_eq!(PacketHeader::from_buf(&long), Err(DecodeError::LengthOutOfRange));
}

#[test]
fn packet_round_trip() {
    let buf = section(0x00, 7, &[0x11, 0x22, 0x33]);
    let packet = Packet::from_buf(&buf).unwrap();
    assert_eq!(packet.header.table_id, 0x00);
    assert_eq!(packet.header.identifier, 7);
    assert_eq!(packet.data, vec![0x11, 0x22, 0x33]);
    assert_eq!(packet.crc, 0xdeadbeef);
}

#[test]
fn pat_decode() {
    // Program 0 maps to the network PID 0x0010, program 1 to the
    // program map PID 0x0020.
    let payload = [0x00, 0x00, 0xe0, 0x10, 0x00, 0x01, 0xe0, 0x20];
    let packet = Packet::from_buf(&section(0x00, 42, &payload)).unwrap();
    let entries = parse_pat(&packet).unwrap();
    assert_eq!(entries.len(), 2);
    assert_eq!(entries[0].program_number, 0);
    assert_eq!(entries[0].value, PatValue::Network(0x10));
    assert_eq!(entries[1].program_number, 1);
    assert_eq!(entries[1].value, PatValue::ProgramMap(0x20));
}

#[test]
fn pat_rejects_ragged_entries() {
    let payload = [0x00, 0x00, 0xe0];
    let packet = Packet::from_buf(&section(0x00, 42, &payload)).unwrap();
    assert_eq!(parse_pat(&packet), Err(DecodeError::ShortBuffer));
}

#[test]
fn pmt_decode() {
    // PCR PID 0x0100, no program descriptors, one H.264 video stream
    // on PID 0x0101 and one MPEG audio stream on PID 0x0102.
    let payload = [
        0xe1, 0x00, // PCR PID
        0xf0, 0x00, // program info length 0
        0x1b, 0xe1, 0x01, 0xf0, 0x00, // video stream, no descriptors
        0x03, 0xe1, 0x02, 0xf0, 0x00, // audio stream, no descriptors
    ];
    let packet = Packet::from_buf(&section(0x02, 5, &payload)).unwrap();
    let pmt = parse_pmt(&packet).unwrap();
    assert_eq!(pmt.program_number, 5);
    assert_eq!(pmt.pcr_pid, 0x100);
    assert!(pmt.program_info_descriptors.is_empty());
    assert_eq!(pmt.elementary_streams.len(), 2);
    assert_eq!(pmt.elementary_streams[0].stream_type, StreamType::IsoIec14496_10AVCVideo);
    assert_eq!(pmt.elementary_streams[0].elementary_pid, 0x101);
    assert_eq!(pmt.elementary_streams[1].stream_type, StreamType::IsoIec11172Audio);
    assert_eq!(pmt.elementary_streams[1].elementary_pid, 0x102);
}

#[test]
fn pmt_rejects_reserved_bits() {
    let payload = [0xe1, 0x00, 0xfc, 0x00];
    let packet = Packet::from_buf(&section(0x02, 5, &payload)).unwrap();
    assert!(matches!(parse_pmt(&packet), Err(DecodeError::ReservedBitsSet)));
}

#[test]
fn nit_decode() {
    // No network descriptors; one transport stream with a service
    // list naming service 1 as digital television.
    let payload = [
        0xf0, 0x00, // network descriptors length 0
        0xf0, 0x09, // transport stream loop length
        0x00, 0x2a, // transport stream id 42
        0x00, 0x01, // original network id 1
        0xf0, 0x05, // transport descriptors length
        0x41, 0x03, 0x00, 0x01, 0x01, // service list: service 1, type 1
    ];
    let packet = Packet::from_buf(&section(0x40, 9, &payload)).unwrap();
    let nit = NetworkInformation::from_packet(&packet).unwrap();
    assert!(nit.network_descriptors.is_empty());
    assert_eq!(nit.elements.len(), 1);
    assert_eq!(nit.elements[0].transport_stream_id, 42);
    assert_eq!(nit.elements[0].original_network_id, 1);
    assert_eq!(nit.elements[0].transport_descriptors.len(), 1);
}

#[test]
fn sdt_decode() {
    // One running, free-to-air service with a service descriptor
    // naming provider "AB" and service "CDE".
    let payload = [
        0x00, 0x05, // original network id
        0xff, // reserved
        0x00, 0x01, // service id
        0xfc, // no EIT flags
        0x80, 0x0a, // running status 4, descriptors length 10
        0x48, 0x08, 0x01, 0x02, b'A', b'B', 0x03, b'C', b'D', b'E',
    ];
    let packet = Packet::from_buf(&section(0x42, 42, &payload)).unwrap();
    let sdt = ServiceDescription::from_packet(&packet).unwrap();
    assert_eq!(sdt.original_network_id, 5);
    assert_eq!(sdt.services.len(), 1);
    assert_eq!(sdt.services[0].service_id, 1);
    assert_eq!(sdt.services[0].running_status, 4);
    assert!(!sdt.services[0].free_ca_mode);
    assert_eq!(sdt.services[0].descriptors.len(), 1);
}
