//! Channel projection and ordering.

use rdvb::conf::vdr::audio_pid::AudioPIDList;
use rdvb::conf::vdr::video_pid::VideoPID;
use rdvb::frontend::properties::get::SignalStrength;
use rdvb::frontend::properties::set::Bandwidth;
use rdvb::frontend::sys::FeDeliverySystem;
use rdvb::interpret::{sort_by_lcn, to_channels, ChannelInformation};
use rdvb::mpeg::descriptors::ac3::Ac3;
use rdvb::mpeg::descriptors::iso639_language::Iso639Language;
use rdvb::mpeg::descriptors::logical_channel::{
    LogicalChannel, LogicalChannelDescriptorElement,
};
use rdvb::mpeg::descriptors::service::Service as ServiceDescriptor;
use rdvb::mpeg::descriptors::service_list::{ServiceList, ServiceListDescriptorElement};
use rdvb::mpeg::descriptors::Descriptor;
use rdvb::mpeg::ServiceType;
use rdvb::scan::Transponder;
use rdvb::si::nit::{NetworkInformation, NitElement};
use rdvb::si::pmt::{ElementaryStream, ProgramMapTable, StreamType};
use rdvb::si::sdt::{Service, ServiceDescription};

fn sample_transponder() -> Transponder {
    let service_descriptor = Descriptor::Service(ServiceDescriptor {
        service_type: ServiceType::DigitalTelevision,
        provider: "Prov".to_string(),
        service: "One".to_string(),
    });

    let nit_element = NitElement {
        transport_stream_id: 42,
        original_network_id: 1,
        transport_descriptors: vec![
            Descriptor::ServiceList(ServiceList {
                services: vec![ServiceListDescriptorElement {
                    service_id: 100,
                    service_type: ServiceType::DigitalTelevision,
                }],
            }),
            Descriptor::LogicalChannel(LogicalChannel {
                elements: vec![LogicalChannelDescriptorElement {
                    service_id: 100,
                    visible_service: true,
                    logical_channel_number: 3,
                }],
            }),
        ],
    };

    let pmt = ProgramMapTable {
        program_number: 100,
        pcr_pid: 0x100,
        program_info_descriptors: Vec::new(),
        elementary_streams: vec![
            ElementaryStream {
                stream_type: StreamType::IsoIec14496_10AVCVideo,
                elementary_pid: 0x101,
                descriptors: Vec::new(),
            },
            ElementaryStream {
                stream_type: StreamType::IsoIec11172Audio,
                elementary_pid: 0x102,
                descriptors: vec![Descriptor::Iso639Language(Iso639Language {
                    language: [b'd', b'e', b'u', 0x00],
                })],
            },
            ElementaryStream {
                stream_type: StreamType::ItuTRecH2220IsoIec13818_1PESPacketsContainingPrivateData,
                elementary_pid: 0x103,
                descriptors: vec![Descriptor::Ac3(Ac3 {
                    component_type: None,
                    bsid: None,
                    mainid: None,
                    asvc: None,
                    additional_info_byte: Vec::new(),
                })],
            },
            ElementaryStream {
                stream_type: StreamType::ItuTRecH2220IsoIec13818_1PESPacketsContainingPrivateData,
                elementary_pid: 0x104,
                descriptors: Vec::new(),
            },
        ],
    };

    Transponder {
        frequency: 474_166_000,
        system: FeDeliverySystem::DVBT,
        bandwidth: Bandwidth::_8MHz,
        strength: SignalStrength(None),
        program_map: vec![pmt],
        service_description: ServiceDescription {
            original_network_id: 1,
            services: vec![
                Service {
                    service_id: 100,
                    eit_schedule: false,
                    eit_present_following: false,
                    running_status: 4,
                    free_ca_mode: false,
                    descriptors: vec![service_descriptor],
                },
                // A service without a service descriptor is skipped.
                Service {
                    service_id: 200,
                    eit_schedule: false,
                    eit_present_following: false,
                    running_status: 4,
                    free_ca_mode: false,
                    descriptors: Vec::new(),
                },
            ],
        },
        network_information: NetworkInformation {
            network_descriptors: Vec::new(),
            elements: vec![nit_element],
        },
    }
}

#[test]
fn projects_one_channel_per_resolvable_service() {
    let transponder = sample_transponder();
    let channels = ChannelInformation::from_transponder(&transponder);

    assert_eq!(channels.len(), 1);
    let channel = &channels[0];
    assert_eq!(channel.name, "One");
    assert_eq!(channel.frequency, 474_166_000);
    assert_eq!(channel.logical_channel_number, Some(3));
    assert_eq!(channel.service_id, 100);
    assert_eq!(channel.original_network_id, 1);
    assert_eq!(channel.transport_stream_id, 42);

    // The video PID differs from the PCR PID, so both are kept, and
    // the video mode is the stream type code.
    assert_eq!(channel.video_pid.pcr_pid, 0x100);
    assert_eq!(channel.video_pid.video_pid, Some(0x101));
    assert_eq!(channel.video_pid.video_mode, 0x1b);

    // One regular MPEG audio stream, tagged with its language; one
    // Dolby stream carrying an AC-3 descriptor. The private stream
    // without one is not audio and is skipped.
    assert_eq!(channel.audio_pid_list.regular_pids.len(), 1);
    assert_eq!(channel.audio_pid_list.regular_pids[0].pid, 0x102);
    assert_eq!(channel.audio_pid_list.regular_pids[0].language_code, "deu");
    assert_eq!(channel.audio_pid_list.regular_pids[0].audio_type, Some(0x03));
    assert_eq!(channel.audio_pid_list.dolby_pids.len(), 1);
    assert_eq!(channel.audio_pid_list.dolby_pids[0].pid, 0x103);
    assert_eq!(channel.audio_pid_list.dolby_pids[0].audio_type, Some(0x6a));
}

#[test]
fn to_channels_flattens_all_transponders() {
    let transponders = vec![sample_transponder(), sample_transponder()];
    let channels = to_channels(&transponders);
    assert_eq!(channels.len(), 2);
}

fn channel_with_lcn(name: &str, lcn: Option<u16>) -> ChannelInformation {
    ChannelInformation {
        frequency: 474_166_000,
        bandwidth: Bandwidth::_8MHz,
        delivery_system: FeDeliverySystem::DVBT,
        symbol_rate: None,
        name: name.to_string(),
        logical_channel_number: lcn,
        service_id: 1,
        original_network_id: 1,
        transport_stream_id: 1,
        video_pid: VideoPID { pcr_pid: 0x100, video_pid: None, video_mode: 0 },
        audio_pid_list: AudioPIDList { regular_pids: Vec::new(), dolby_pids: Vec::new() },
    }
}

#[test]
fn sort_orders_by_lcn_with_none_trailing() {
    let mut channels = vec![
        channel_with_lcn("d", None),
        channel_with_lcn("b", Some(7)),
        channel_with_lcn("a", Some(1)),
        channel_with_lcn("c", None),
        channel_with_lcn("e", Some(3)),
    ];
    sort_by_lcn(&mut channels);

    let order: Vec<(&str, Option<u16>)> = channels
        .iter()
        .map(|c| (c.name.as_str(), c.logical_channel_number))
        .collect();
    assert_eq!(
        order,
        vec![
            ("a", Some(1)),
            ("e", Some(3)),
            ("b", Some(7)),
            ("d", None),
            ("c", None),
        ]
    );
}

#[test]
fn sort_is_stable_and_idempotent() {
    let mut channels = vec![
        channel_with_lcn("first", Some(5)),
        channel_with_lcn("second", Some(5)),
        channel_with_lcn("third", Some(2)),
    ];
    sort_by_lcn(&mut channels);
    let once: Vec<String> = channels.iter().map(|c| c.name.clone()).collect();
    assert_eq!(once, vec!["third", "first", "second"]);

    sort_by_lcn(&mut channels);
    let twice: Vec<String> = channels.iter().map(|c| c.name.clone()).collect();
    assert_eq!(once, twice);
}
