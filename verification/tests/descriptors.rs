//! Descriptor dispatch: every known tag yields its typed variant, and
//! unknown tags keep their bytes.

use rdvb::mpeg::descriptors::carousel_identifier::Identifier;
use rdvb::mpeg::descriptors::Descriptor;
use rdvb::mpeg::{decode_stupid_string, ServiceType};

#[test]
fn dispatch_iso639_language() {
    let d = Descriptor::read(0x0a, &[b'd', b'e', b'u', 0x00]).unwrap();
    match d {
        Descriptor::Iso639Language(l) => assert_eq!(l.language, [b'd', b'e', b'u', 0x00]),
        _ => panic!("wrong variant"),
    }
}

#[test]
fn dispatch_carousel_identifier() {
    let d = Descriptor::read(0x13, &[0, 0, 0, 9, 0x00, 0xaa]).unwrap();
    match d {
        Descriptor::CarouselIdentifier(c) => {
            assert_eq!(c.carousel_id, 9);
            match c.identifier {
                Identifier::Standard { private_data_bytes } => {
                    assert_eq!(private_data_bytes, vec![0xaa])
                },
                _ => panic!("wrong identifier format"),
            }
        },
        _ => panic!("wrong variant"),
    }
}

#[test]
fn dispatch_network_name() {
    let d = Descriptor::read(0x40, b"Network").unwrap();
    match d {
        Descriptor::NetworkName(n) => assert_eq!(n.name, b"Network".to_vec()),
        _ => panic!("wrong variant"),
    }
}

#[test]
fn dispatch_service_list() {
    let d = Descriptor::read(0x41, &[0x00, 0x07, 0x01]).unwrap();
    match d {
        Descriptor::ServiceList(l) => {
            assert_eq!(l.services.len(), 1);
            assert_eq!(l.services[0].service_id, 7);
            assert_eq!(l.services[0].service_type, ServiceType::DigitalTelevision);
        },
        _ => panic!("wrong variant"),
    }
}

#[test]
fn dispatch_service() {
    let d = Descriptor::read(0x48, &[0x01, 0x02, b'A', b'B', 0x03, b'C', b'D', b'E']).unwrap();
    match d {
        Descriptor::Service(s) => {
            assert_eq!(s.service_type, ServiceType::DigitalTelevision);
            assert_eq!(s.provider, "AB");
            assert_eq!(s.service, "CDE");
        },
        _ => panic!("wrong variant"),
    }
}

#[test]
fn dispatch_component() {
    let d = Descriptor::read(0x50, &[0x01, 0x02, 0x03, b'd', b'e', b'u', b'x']).unwrap();
    match d {
        Descriptor::Component(c) => {
            assert_eq!(c.stream_content, 1);
            assert_eq!(c.component_type, 2);
            assert_eq!(c.component_tag, 3);
            assert_eq!(c.language_code, [b'd', b'e', b'u']);
            assert_eq!(c.chars, vec![b'x']);
        },
        _ => panic!("wrong variant"),
    }
}

#[test]
fn dispatch_stream_identifier() {
    let d = Descriptor::read(0x52, &[0x21]).unwrap();
    assert!(matches!(d, Descriptor::StreamIdentifier(s) if s.component_tag == 0x21));
}

#[test]
fn dispatch_terrestrial_delivery_system() {
    let d = Descriptor::read(
        0x5a,
        &[0x00, 0x01, 0x02, 0x03, 0x20, 0x40, 0x20, 0, 0, 0, 0],
    ).unwrap();
    match d {
        Descriptor::TerrestrialDeliverySystem(t) => {
            // The centre frequency is a plain big-endian 32-bit value.
            assert_eq!(t.center_frequency, 0x0001_0203);
            assert_eq!(t.bandwidth, 1);
            assert_eq!(t.constellation, 1);
            assert_eq!(t.guard_interval, 0);
        },
        _ => panic!("wrong variant"),
    }
}

#[test]
fn dispatch_private_data_specifier() {
    let d = Descriptor::read(0x5f, &[0x00, 0x00, 0x00, 0x28]).unwrap();
    assert!(matches!(d, Descriptor::PrivateDataSpecifier(p) if p.specifier == 0x28));
}

#[test]
fn dispatch_subtitling() {
    let d = Descriptor::read(
        0x59,
        &[b'd', b'e', b'u', 0x10, 0x00, 0x01, 0x00, 0x02],
    ).unwrap();
    match d {
        Descriptor::Subtitling(s) => {
            assert_eq!(s.elements.len(), 1);
            assert_eq!(s.elements[0].language_code, [b'd', b'e', b'u']);
            assert_eq!(s.elements[0].subtitling_type, 0x10);
            assert_eq!(s.elements[0].composition_page_id, 1);
            assert_eq!(s.elements[0].ancillary_page_id, 2);
        },
        _ => panic!("wrong variant"),
    }
}

#[test]
fn dispatch_data_broadcast_id() {
    let d = Descriptor::read(0x66, &[0x00, 0x05, 0xaa]).unwrap();
    match d {
        Descriptor::DataBroadcastId(b) => {
            assert_eq!(b.data_broadcast_id, 5);
            assert_eq!(b.selector_bytes, vec![0xaa]);
        },
        _ => panic!("wrong variant"),
    }
}

#[test]
fn dispatch_ac3() {
    // Only the component type flag set, so exactly one optional byte
    // follows, and one free byte of additional info.
    let d = Descriptor::read(0x6a, &[0x80, 0x42, 0x99]).unwrap();
    match d {
        Descriptor::Ac3(a) => {
            assert_eq!(a.component_type, Some(0x42));
            assert_eq!(a.bsid, None);
            assert_eq!(a.mainid, None);
            assert_eq!(a.asvc, None);
            assert_eq!(a.additional_info_byte, vec![0x99]);
        },
        _ => panic!("wrong variant"),
    }
}

#[test]
fn dispatch_application_signalling() {
    let d = Descriptor::read(0x6f, &[0x00, 0x10, 0x03]).unwrap();
    match d {
        Descriptor::ApplicationSignalling(a) => {
            assert_eq!(a.elements.len(), 1);
            assert_eq!(a.elements[0].application_type, 0x10);
            assert_eq!(a.elements[0].ait_version_number, 3);
        },
        _ => panic!("wrong variant"),
    }
}

#[test]
fn dispatch_enhanced_ac3() {
    let d = Descriptor::read(0x7a, &[0x40, 0x07]).unwrap();
    match d {
        Descriptor::EnhancedAc3(e) => {
            assert_eq!(e.bsid, Some(0x07));
            assert_eq!(e.component_type, None);
            assert!(!e.mixinfoexists);
            assert!(e.additional_info.is_empty());
        },
        _ => panic!("wrong variant"),
    }
}

#[test]
fn dispatch_extension() {
    let d = Descriptor::read(0x7f, &[0x04, 0xaa, 0xbb]).unwrap();
    match d {
        Descriptor::Extension(e) => assert_eq!(e.selector_bytes, vec![0xaa, 0xbb]),
        _ => panic!("wrong variant"),
    }
}

#[test]
fn dispatch_logical_channel() {
    let d = Descriptor::read(0x83, &[0x00, 0x01, 0x80 | 0x01, 0x2a]).unwrap();
    match d {
        Descriptor::LogicalChannel(l) => {
            assert_eq!(l.elements.len(), 1);
            assert_eq!(l.elements[0].service_id, 1);
            assert!(l.elements[0].visible_service);
            assert_eq!(l.elements[0].logical_channel_number, 0x12a);
        },
        _ => panic!("wrong variant"),
    }
}

#[test]
fn unknown_tag_keeps_bytes() {
    let bytes = [0x01, 0x02, 0x03];
    let d = Descriptor::read(0x99, &bytes).unwrap();
    match d {
        Descriptor::_Unknown(u) => {
            assert_eq!(u.descriptor_id, 0x99);
            assert_eq!(u.raw_data, bytes.to_vec());
        },
        _ => panic!("an unknown tag must keep its bytes"),
    }
}

#[test]
fn descriptor_ids_round_trip() {
    let d = Descriptor::read(0x52, &[0x21]).unwrap();
    assert_eq!(d.descriptor_id(), 0x52);
    let d = Descriptor::read(0x83, &[0x00, 0x01, 0x81, 0x2a]).unwrap();
    assert_eq!(d.descriptor_id(), 0x83);
    let d = Descriptor::read(0x99, &[]).unwrap();
    assert_eq!(d.descriptor_id(), 0x99);
}

#[test]
fn read_many_walks_whole_buffer() {
    // A stream identifier followed by an unknown descriptor.
    let buf = [0x52, 0x01, 0x21, 0x99, 0x02, 0xaa, 0xbb];
    let ds = Descriptor::read_many(&buf).unwrap();
    assert_eq!(ds.len(), 2);
    assert!(matches!(&ds[0], Descriptor::StreamIdentifier(s) if s.component_tag == 0x21));
    assert!(matches!(&ds[1], Descriptor::_Unknown(u) if u.raw_data == vec![0xaa, 0xbb]));
}

#[test]
fn read_many_rejects_overrun() {
    let buf = [0x52, 0x05, 0x21];
    assert!(Descriptor::read_many(&buf).is_err());
}

#[test]
fn text_decode_trims_controls() {
    let decoded = decode_stupid_string(&[0x05, b'a', b'b', b'c', 0x00]).unwrap();
    assert_eq!(decoded, "abc");
    let decoded = decode_stupid_string(b"plain").unwrap();
    assert_eq!(decoded, "plain");
}

#[test]
fn text_decode_is_lossy_utf8() {
    // An invalid byte becomes the replacement character, which is not
    // a control character and is kept.
    let decoded = decode_stupid_string(&[0xff, b'a']).unwrap();
    assert_eq!(decoded, "\u{fffd}a");
}
