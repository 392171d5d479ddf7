//! Interpret the data received from SI tables into usable channels.
//!
//! The projector walks the services a transponder announced, matches
//! them against the network information and the program maps, and
//! yields one flat channel record per service it can resolve.

use vstd::prelude::*;

use crate::conf::vdr::audio_pid::{AudioPID, AudioPIDList, AudioPIDListModel, AudioPIDModel};
use crate::conf::vdr::video_pid::VideoPID;
use crate::frontend::properties::set::Bandwidth;
use crate::frontend::sys::FeDeliverySystem;
use crate::mpeg::descriptors::service::ServiceModel as ServiceDescriptorModel;
use crate::mpeg::descriptors::{Descriptor, DescriptorModel};
use crate::mpeg::{trim_controls, utf8_lossy_of};
use crate::scan::{Transponder, TransponderModel};
use crate::si::nit::{NetworkInformation, NitElement, NitElementModel};
use crate::si::pmt::{
    spec_is_video, spec_stream_type_code, ElementaryStreamModel, ProgramMapTable,
    ProgramMapTableModel, StreamType,
};
use crate::si::sdt::ServiceModel;
use crate::utils::{lemma_seq_view_push, seq_view};

verus! {

/// A single logical channel, as in an actual TV channel, derived from
/// the transponder data received over the air.
#[derive(Clone, Debug)]
pub struct ChannelInformation {
    pub frequency: u32,
    pub bandwidth: Bandwidth,
    pub delivery_system: FeDeliverySystem,
    pub symbol_rate: Option<u32>,
    pub name: String,
    pub logical_channel_number: Option<u16>,
    pub service_id: u16,
    pub original_network_id: u16,
    pub transport_stream_id: u16,
    pub video_pid: VideoPID,
    pub audio_pid_list: AudioPIDList,
}

/// The mathematical value of a [`ChannelInformation`].
pub struct ChannelInformationModel {
    pub frequency: u32,
    pub bandwidth: Bandwidth,
    pub delivery_system: FeDeliverySystem,
    pub symbol_rate: Option<u32>,
    pub name: Seq<char>,
    pub logical_channel_number: Option<u16>,
    pub service_id: u16,
    pub original_network_id: u16,
    pub transport_stream_id: u16,
    pub video_pid: VideoPID,
    pub audio_pid_list: AudioPIDListModel,
}

impl View for ChannelInformation {
    type V = ChannelInformationModel;

    open spec fn view(&self) -> ChannelInformationModel {
        ChannelInformationModel {
            frequency: self.frequency,
            bandwidth: self.bandwidth,
            delivery_system: self.delivery_system,
            symbol_rate: self.symbol_rate,
            name: self.name@,
            logical_channel_number: self.logical_channel_number,
            service_id: self.service_id,
            original_network_id: self.original_network_id,
            transport_stream_id: self.transport_stream_id,
            video_pid: self.video_pid,
            audio_pid_list: self.audio_pid_list@,
        }
    }
}

//
// ----- Finding the pieces of one service

/// The first service descriptor of a descriptor list, if any.
pub open spec fn spec_first_service_descriptor(ds: Seq<DescriptorModel>) -> Option<
    ServiceDescriptorModel,
>
    decreases ds.len(),
{
    if ds.len() == 0 {
        None
    } else if ds[0] is Service {
        Some(ds[0]->Service_0)
    } else {
        spec_first_service_descriptor(ds.skip(1))
    }
}

/// Whether a service list entry for the service id occurs.
pub open spec fn spec_service_list_contains(
    els: Seq<crate::mpeg::descriptors::service_list::ServiceListDescriptorElement>,
    service_id: u16,
) -> bool
    decreases els.len(),
{
    if els.len() == 0 {
        false
    } else {
        els[0].service_id == service_id || spec_service_list_contains(els.skip(1), service_id)
    }
}

/// Whether any service list descriptor of the list references the
/// service id.
pub open spec fn spec_descriptors_reference(ds: Seq<DescriptorModel>, service_id: u16) -> bool
    decreases ds.len(),
{
    if ds.len() == 0 {
        false
    } else {
        (ds[0] is ServiceList && spec_service_list_contains(ds[0]->ServiceList_0, service_id))
            || spec_descriptors_reference(ds.skip(1), service_id)
    }
}

/// The first NIT element whose service list references the service id.
pub open spec fn spec_find_nit_element(els: Seq<NitElementModel>, service_id: u16) -> Option<
    NitElementModel,
>
    decreases els.len(),
{
    if els.len() == 0 {
        None
    } else if spec_descriptors_reference(els[0].transport_descriptors, service_id) {
        Some(els[0])
    } else {
        spec_find_nit_element(els.skip(1), service_id)
    }
}

/// The first logical channel number an element list assigns to the
/// service id.
pub open spec fn spec_lcn_in_elements(
    els: Seq<crate::mpeg::descriptors::logical_channel::LogicalChannelDescriptorElement>,
    service_id: u16,
) -> Option<u16>
    decreases els.len(),
{
    if els.len() == 0 {
        None
    } else if els[0].service_id == service_id {
        Some(els[0].logical_channel_number)
    } else {
        spec_lcn_in_elements(els.skip(1), service_id)
    }
}

/// The logical channel number the element's descriptors assign to the
/// service id, if any.
pub open spec fn spec_find_lcn(ds: Seq<DescriptorModel>, service_id: u16) -> Option<u16>
    decreases ds.len(),
{
    if ds.len() == 0 {
        None
    } else if ds[0] is LogicalChannel && spec_lcn_in_elements(
        ds[0]->LogicalChannel_0,
        service_id,
    ) is Some {
        spec_lcn_in_elements(ds[0]->LogicalChannel_0, service_id)
    } else {
        spec_find_lcn(ds.skip(1), service_id)
    }
}

/// The first program map whose program number is the service id.
pub open spec fn spec_find_pmt(pmts: Seq<ProgramMapTableModel>, service_id: u16) -> Option<
    ProgramMapTableModel,
>
    decreases pmts.len(),
{
    if pmts.len() == 0 {
        None
    } else if pmts[0].program_number == service_id {
        Some(pmts[0])
    } else {
        spec_find_pmt(pmts.skip(1), service_id)
    }
}

/// The video assignment of a program map: the first video stream,
/// paired with the PCR PID; the video PID is kept only when it differs
/// from the PCR PID. A program without a video stream yields nothing.
pub open spec fn spec_video_of_pmt_streams(
    pcr_pid: u16,
    streams: Seq<ElementaryStreamModel>,
) -> Option<VideoPID>
    decreases streams.len(),
{
    if streams.len() == 0 {
        None
    } else if spec_is_video(streams[0].stream_type) {
        Some(VideoPID {
            pcr_pid,
            video_pid: if pcr_pid != streams[0].elementary_pid {
                Some(streams[0].elementary_pid)
            } else {
                None
            },
            video_mode: spec_stream_type_code(streams[0].stream_type) as u16,
        })
    } else {
        spec_video_of_pmt_streams(pcr_pid, streams.skip(1))
    }
}

/// The language of a stream: the last ISO 639 language descriptor's
/// bytes, read with the library's best-effort text decode; empty when
/// there is none.
pub open spec fn spec_stream_language(ds: Seq<DescriptorModel>) -> Seq<char>
    decreases ds.len(),
{
    if ds.len() == 0 {
        Seq::empty()
    } else if ds.last() is Iso639Language {
        trim_controls(utf8_lossy_of(ds.last()->Iso639Language_0))
    } else {
        spec_stream_language(ds.drop_last())
    }
}

/// The pseudo audio type of a private stream: the tag of its first
/// AC-3 descriptor, or, failing that, of an Enhanced AC-3 descriptor;
/// a private stream with neither carries no audio.
pub open spec fn spec_private_audio_type(ds: Seq<DescriptorModel>) -> Option<u16>
    decreases ds.len(),
{
    if ds.len() == 0 {
        None
    } else if ds[0] is Ac3 {
        Some(0x6a as u16)
    } else {
        match spec_private_audio_type(ds.skip(1)) {
            Some(t) => Some(t),
            None => if ds[0] is EnhancedAc3 {
                Some(0x7a as u16)
            } else {
                None
            },
        }
    }
}

/// Whether a stream type carries regular audio.
pub open spec fn spec_is_regular_audio(t: StreamType) -> bool {
    t == StreamType::IsoIec11172Audio || t == StreamType::IsoIec13818_3Audio
}

/// Whether a stream type may carry enhanced (Dolby) audio.
pub open spec fn spec_is_private_stream(t: StreamType) -> bool {
    t == StreamType::ItuTRecH2220IsoIec13818_1PrivateSections
        || t == StreamType::ItuTRecH2220IsoIec13818_1PESPacketsContainingPrivateData
}

/// The regular audio PIDs of a program map, in stream order, each
/// tagged with its stream language and its stream type code.
pub open spec fn spec_regular_audio(streams: Seq<ElementaryStreamModel>) -> Seq<AudioPIDModel>
    decreases streams.len(),
{
    if streams.len() == 0 {
        Seq::empty()
    } else {
        spec_regular_audio(streams.drop_last()) + (if spec_is_regular_audio(
            streams.last().stream_type,
        ) {
            seq![AudioPIDModel {
                pid: streams.last().elementary_pid,
                language_code: spec_stream_language(streams.last().descriptors),
                second_language_code: Seq::empty(),
                audio_type: Some(spec_stream_type_code(streams.last().stream_type) as u16),
            }]
        } else {
            Seq::<AudioPIDModel>::empty()
        })
    }
}

/// The enhanced (Dolby) audio PIDs of a program map, in stream order:
/// the private streams that carry an AC-3 or Enhanced AC-3 descriptor,
/// each tagged with that descriptor's tag as its pseudo audio type.
pub open spec fn spec_dolby_audio(streams: Seq<ElementaryStreamModel>) -> Seq<AudioPIDModel>
    decreases streams.len(),
{
    if streams.len() == 0 {
        Seq::empty()
    } else {
        spec_dolby_audio(streams.drop_last()) + (if spec_is_private_stream(
            streams.last().stream_type,
        ) && spec_private_audio_type(streams.last().descriptors) is Some {
            seq![AudioPIDModel {
                pid: streams.last().elementary_pid,
                language_code: spec_stream_language(streams.last().descriptors),
                second_language_code: Seq::empty(),
                audio_type: spec_private_audio_type(streams.last().descriptors),
            }]
        } else {
            Seq::<AudioPIDModel>::empty()
        })
    }
}

/// The channel record one service of a transponder projects to, or
/// nothing when the service carries no service descriptor, is not
/// referenced by the NIT, has no program map, or has no video stream.
pub open spec fn spec_channel_of_service(t: TransponderModel, svc: ServiceModel)
    -> Option<ChannelInformationModel> {
    match spec_first_service_descriptor(svc.descriptors) {
        None => None,
        Some(sd) => match spec_find_nit_element(
            t.network_information.elements,
            svc.service_id,
        ) {
            None => None,
            Some(el) => match spec_find_pmt(t.program_map, svc.service_id) {
                None => None,
                Some(pmt) => match spec_video_of_pmt_streams(
                    pmt.pcr_pid,
                    pmt.elementary_streams,
                ) {
                    None => None,
                    Some(video_pid) => Some(ChannelInformationModel {
                        frequency: t.frequency,
                        bandwidth: t.bandwidth,
                        delivery_system: t.system,
                        symbol_rate: None,
                        name: sd.service,
                        logical_channel_number: spec_find_lcn(
                            el.transport_descriptors,
                            svc.service_id,
                        ),
                        service_id: svc.service_id,
                        original_network_id: t.service_description.original_network_id,
                        transport_stream_id: el.transport_stream_id,
                        video_pid,
                        audio_pid_list: AudioPIDListModel {
                            regular_pids: spec_regular_audio(pmt.elementary_streams),
                            dolby_pids: spec_dolby_audio(pmt.elementary_streams),
                        },
                    }),
                },
            },
        },
    }
}

/// The channels a run of services projects to, in order, skipping the
/// services that resolve to nothing.
pub open spec fn spec_channels_of_services(t: TransponderModel, svcs: Seq<ServiceModel>)
    -> Seq<ChannelInformationModel>
    decreases svcs.len(),
{
    if svcs.len() == 0 {
        Seq::empty()
    } else {
        spec_channels_of_services(t, svcs.drop_last()) + (match spec_channel_of_service(
            t,
            svcs.last(),
        ) {
            Some(c) => seq![c],
            None => Seq::<ChannelInformationModel>::empty(),
        })
    }
}

/// What [`ChannelInformation::from_transponder`] yields: one channel
/// per resolvable service of the transponder's service table.
pub open spec fn spec_channels_of_transponder(t: TransponderModel)
    -> Seq<ChannelInformationModel> {
    spec_channels_of_services(t, t.service_description.services)
}

//
// ----- Executable projection

/// The first service descriptor of a service's descriptor list.
fn first_service_descriptor(ds: &Vec<Descriptor>) -> (r: Option<
    &crate::mpeg::descriptors::service::Service,
>)
    ensures
        match r {
            Some(sd) => spec_first_service_descriptor(seq_view(ds@)) == Some(sd@),
            None => spec_first_service_descriptor(seq_view(ds@)) is None,
        },
{
    let ghost views = seq_view(ds@);
    proof {
        assert(views.skip(0) =~= views);
    }
    let mut i: usize = 0;
    while i < ds.len()
        invariant
            i <= ds@.len(),
            views == seq_view(ds@),
            spec_first_service_descriptor(views) == spec_first_service_descriptor(
                views.skip(i as int),
            ),
        decreases ds@.len() - i,
    {
        proof {
            assert(views.skip(i as int)[0] == views[i as int]);
            assert(views.skip(i as int).skip(1) =~= views.skip(i as int + 1));
            assert(views[i as int] == ds@[i as int]@);
        }
        if let Descriptor::Service(sd) = &ds[i] {
            return Some(sd);
        }
        i = i + 1;
    }
    proof {
        assert(views.skip(views.len() as int) =~= Seq::<DescriptorModel>::empty());
    }
    None
}

/// Whether a service list element for the service id occurs.
fn service_list_contains(
    els: &Vec<crate::mpeg::descriptors::service_list::ServiceListDescriptorElement>,
    service_id: u16,
) -> (r: bool)
    ensures
        r == spec_service_list_contains(els@, service_id),
{
    let ghost all = els@;
    proof {
        assert(all.skip(0) =~= all);
    }
    let mut i: usize = 0;
    while i < els.len()
        invariant
            i <= all.len(),
            all == els@,
            spec_service_list_contains(all, service_id) == spec_service_list_contains(
                all.skip(i as int),
                service_id,
            ),
        decreases all.len() - i,
    {
        proof {
            assert(all.skip(i as int)[0] == all[i as int]);
            assert(all.skip(i as int).skip(1) =~= all.skip(i as int + 1));
        }
        if els[i].service_id == service_id {
            return true;
        }
        i = i + 1;
    }
    proof {
        assert(all.skip(all.len() as int)
            =~= Seq::<crate::mpeg::descriptors::service_list::ServiceListDescriptorElement>::empty());
    }
    false
}

/// Whether any service list descriptor of the list references the
/// service id.
fn descriptors_reference(ds: &Vec<Descriptor>, service_id: u16) -> (r: bool)
    ensures
        r == spec_descriptors_reference(seq_view(ds@), service_id),
{
    let ghost views = seq_view(ds@);
    proof {
        assert(views.skip(0) =~= views);
    }
    let mut i: usize = 0;
    while i < ds.len()
        invariant
            i <= ds@.len(),
            views == seq_view(ds@),
            spec_descriptors_reference(views, service_id) == spec_descriptors_reference(
                views.skip(i as int),
                service_id,
            ),
        decreases ds@.len() - i,
    {
        proof {
            assert(views.skip(i as int)[0] == views[i as int]);
            assert(views.skip(i as int).skip(1) =~= views.skip(i as int + 1));
            assert(views[i as int] == ds@[i as int]@);
        }
        if let Descriptor::ServiceList(service_list) = &ds[i] {
            if service_list_contains(&service_list.services, service_id) {
                return true;
            }
        }
        i = i + 1;
    }
    proof {
        assert(views.skip(views.len() as int) =~= Seq::<DescriptorModel>::empty());
    }
    false
}

/// The first NIT element whose service list references the service.
pub fn find_nit_element_by_service_id(nit: &NetworkInformation, service_id: u16) -> (r: Option<
    &NitElement,
>)
    ensures
        match r {
            Some(el) => spec_find_nit_element(nit@.elements, service_id) == Some(el@),
            None => spec_find_nit_element(nit@.elements, service_id) is None,
        },
{
    let ghost views = seq_view(nit.elements@);
    proof {
        assert(views.skip(0) =~= views);
    }
    let mut i: usize = 0;
    while i < nit.elements.len()
        invariant
            i <= nit.elements@.len(),
            views == seq_view(nit.elements@),
            spec_find_nit_element(views, service_id) == spec_find_nit_element(
                views.skip(i as int),
                service_id,
            ),
        decreases nit.elements@.len() - i,
    {
        proof {
            assert(views.skip(i as int)[0] == views[i as int]);
            assert(views.skip(i as int).skip(1) =~= views.skip(i as int + 1));
            assert(views[i as int] == nit.elements@[i as int]@);
        }
        if descriptors_reference(&nit.elements[i].transport_descriptors, service_id) {
            return Some(&nit.elements[i]);
        }
        i = i + 1;
    }
    proof {
        assert(views.skip(views.len() as int) =~= Seq::<NitElementModel>::empty());
    }
    None
}

/// The logical channel number an element list assigns to the service.
fn lcn_in_elements(
    els: &Vec<crate::mpeg::descriptors::logical_channel::LogicalChannelDescriptorElement>,
    service_id: u16,
) -> (r: Option<u16>)
    ensures
        r == spec_lcn_in_elements(els@, service_id),
{
    let ghost all = els@;
    proof {
        assert(all.skip(0) =~= all);
    }
    let mut i: usize = 0;
    while i < els.len()
        invariant
            i <= all.len(),
            all == els@,
            spec_lcn_in_elements(all, service_id) == spec_lcn_in_elements(
                all.skip(i as int),
                service_id,
            ),
        decreases all.len() - i,
    {
        proof {
            assert(all.skip(i as int)[0] == all[i as int]);
            assert(all.skip(i as int).skip(1) =~= all.skip(i as int + 1));
        }
        if els[i].service_id == service_id {
            return Some(els[i].logical_channel_number);
        }
        i = i + 1;
    }
    proof {
        assert(all.skip(all.len() as int)
            =~= Seq::<crate::mpeg::descriptors::logical_channel::LogicalChannelDescriptorElement>::empty());
    }
    None
}

/// The logical channel number the element's descriptors assign to the
/// service, if any.
pub fn find_lcn_from_nit_element_by_service_id(nit_element: &NitElement, service_id: u16) -> (r:
    Option<u16>)
    ensures
        r == spec_find_lcn(nit_element@.transport_descriptors, service_id),
{
    let ds = &nit_element.transport_descriptors;
    let ghost views = seq_view(ds@);
    proof {
        assert(views.skip(0) =~= views);
    }
    let mut i: usize = 0;
    while i < ds.len()
        invariant
            i <= ds@.len(),
            views == seq_view(ds@),
            views == nit_element@.transport_descriptors,
            spec_find_lcn(views, service_id) == spec_find_lcn(views.skip(i as int), service_id),
        decreases ds@.len() - i,
    {
        proof {
            assert(views.skip(i as int)[0] == views[i as int]);
            assert(views.skip(i as int).skip(1) =~= views.skip(i as int + 1));
            assert(views[i as int] == ds@[i as int]@);
        }
        if let Descriptor::LogicalChannel(logical_channel) = &ds[i] {
            if let Some(lcn) = lcn_in_elements(&logical_channel.elements, service_id) {
                return Some(lcn);
            }
        }
        i = i + 1;
    }
    proof {
        assert(views.skip(views.len() as int) =~= Seq::<DescriptorModel>::empty());
    }
    None
}

/// The first program map whose program number is the service id.
pub fn find_pmt_by_service_id(program_map: &Vec<ProgramMapTable>, service_id: u16) -> (r: Option<
    &ProgramMapTable,
>)
    ensures
        match r {
            Some(p) => spec_find_pmt(seq_view(program_map@), service_id) == Some(p@),
            None => spec_find_pmt(seq_view(program_map@), service_id) is None,
        },
{
    let ghost views = seq_view(program_map@);
    proof {
        assert(views.skip(0) =~= views);
    }
    let mut i: usize = 0;
    while i < program_map.len()
        invariant
            i <= program_map@.len(),
            views == seq_view(program_map@),
            spec_find_pmt(views, service_id) == spec_find_pmt(views.skip(i as int), service_id),
        decreases program_map@.len() - i,
    {
        proof {
            assert(views.skip(i as int)[0] == views[i as int]);
            assert(views.skip(i as int).skip(1) =~= views.skip(i as int + 1));
            assert(views[i as int] == program_map@[i as int]@);
        }
        if program_map[i].program_number == service_id {
            return Some(&program_map[i]);
        }
        i = i + 1;
    }
    proof {
        assert(views.skip(views.len() as int) =~= Seq::<ProgramMapTableModel>::empty());
    }
    None
}

/// The video assignment of a program map, from its first video stream.
pub fn pmt_to_video_pid(pmt_element: &ProgramMapTable) -> (r: Option<VideoPID>)
    ensures
        r == spec_video_of_pmt_streams(pmt_element.pcr_pid, seq_view(pmt_element.elementary_streams@)),
{
    let streams = &pmt_element.elementary_streams;
    let ghost views = seq_view(streams@);
    proof {
        assert(views.skip(0) =~= views);
    }
    let mut i: usize = 0;
    while i < streams.len()
        invariant
            i <= streams@.len(),
            views == seq_view(streams@),
            views == seq_view(pmt_element.elementary_streams@),
            spec_video_of_pmt_streams(pmt_element.pcr_pid, views) == spec_video_of_pmt_streams(
                pmt_element.pcr_pid,
                views.skip(i as int),
            ),
        decreases streams@.len() - i,
    {
        proof {
            assert(views.skip(i as int)[0] == views[i as int]);
            assert(views.skip(i as int).skip(1) =~= views.skip(i as int + 1));
            assert(views[i as int] == streams@[i as int]@);
        }
        if streams[i].stream_type.is_video() {
            let video_pid = if pmt_element.pcr_pid != streams[i].elementary_pid {
                Some(streams[i].elementary_pid)
            } else {
                None
            };
            return Some(VideoPID {
                pcr_pid: pmt_element.pcr_pid,
                video_pid,
                video_mode: streams[i].stream_type.to_u8() as u16,
            });
        }
        i = i + 1;
    }
    proof {
        assert(views.skip(views.len() as int) =~= Seq::<ElementaryStreamModel>::empty());
    }
    None
}

/// Whether any AC-3 descriptor occurs.
spec fn spec_has_ac3(ds: Seq<DescriptorModel>) -> bool {
    exists|i: int| 0 <= i < ds.len() && (#[trigger] ds[i]) is Ac3
}

proof fn lemma_private_audio_type(ds: Seq<DescriptorModel>)
    ensures
        spec_has_ac3(ds) ==> spec_private_audio_type(ds) == Some(0x6a as u16),
        !spec_has_ac3(ds) && spec_private_audio_type(ds) is Some ==> spec_private_audio_type(ds)
            == Some(0x7a as u16),
    decreases ds.len(),
{
    if ds.len() > 0 {
        lemma_private_audio_type(ds.skip(1));
        if spec_has_ac3(ds) && !(ds[0] is Ac3) {
            let i = choose|i: int| 0 <= i < ds.len() && (#[trigger] ds[i]) is Ac3;
            assert(ds.skip(1)[i - 1] is Ac3);
            assert(spec_has_ac3(ds.skip(1)));
        }
        if spec_has_ac3(ds.skip(1)) {
            let i = choose|i: int| 0 <= i < ds.skip(1).len() && (#[trigger] ds.skip(1)[i]) is Ac3;
            assert(ds[i + 1] is Ac3);
            assert(spec_has_ac3(ds));
        }
    }
}

/// The pseudo audio type of a private stream: its first AC-3
/// descriptor's tag wins over any Enhanced AC-3 descriptor's.
fn private_audio_type(ds: &Vec<Descriptor>) -> (r: Option<u16>)
    ensures
        r == spec_private_audio_type(seq_view(ds@)),
{
    let ghost views = seq_view(ds@);
    proof {
        assert(views.skip(0) =~= views);
    }
    let mut audio_type: Option<u16> = None;
    let mut i: usize = 0;
    while i < ds.len()
        invariant
            i <= ds@.len(),
            views == seq_view(ds@),
            spec_private_audio_type(views) == (match spec_private_audio_type(
                views.skip(i as int),
            ) {
                Some(t) => Some(t),
                None => audio_type,
            }),
            audio_type is Some ==> audio_type == Some(0x7a as u16),
        decreases ds@.len() - i,
    {
        proof {
            assert(views.skip(i as int)[0] == views[i as int]);
            assert(views.skip(i as int).skip(1) =~= views.skip(i as int + 1));
            assert(views[i as int] == ds@[i as int]@);
            lemma_private_audio_type(views.skip(i as int + 1));
        }
        match &ds[i] {
            Descriptor::Ac3(_) => {
                return Some(0x6a);
            },
            Descriptor::EnhancedAc3(_) => {
                audio_type = Some(0x7a);
            },
            _ => {},
        }
        i = i + 1;
    }
    proof {
        assert(views.skip(views.len() as int) =~= Seq::<DescriptorModel>::empty());
    }
    audio_type
}

/// The language of a stream, from its last ISO 639 language
/// descriptor.
fn stream_language(ds: &Vec<Descriptor>) -> (r: String)
    ensures
        r@ == spec_stream_language(seq_view(ds@)),
{
    let ghost views = seq_view(ds@);
    let mut language = String::new();
    proof {
        assert(views.take(0) =~= Seq::<DescriptorModel>::empty());
    }
    let mut i: usize = 0;
    while i < ds.len()
        invariant
            i <= ds@.len(),
            views == seq_view(ds@),
            language@ == spec_stream_language(views.take(i as int)),
        decreases ds@.len() - i,
    {
        proof {
            assert(views.take(i as int + 1).drop_last() =~= views.take(i as int));
            assert(views.take(i as int + 1).last() == views[i as int]);
            assert(views[i as int] == ds@[i as int]@);
        }
        if let Descriptor::Iso639Language(lang) = &ds[i] {
            language = crate::mpeg::decode_stupid_string(
                vstd::array::array_as_slice(&lang.language),
            ).unwrap();
        }
        i = i + 1;
    }
    proof {
        assert(views.take(views.len() as int) =~= views);
    }
    language
}

/// The audio assignment of a program map: its regular audio streams,
/// and the private streams that carry AC-3 or Enhanced AC-3 audio.
pub fn pmt_to_audio_pids(pmt_element: &ProgramMapTable) -> (r: AudioPIDList)
    ensures
        r@.regular_pids == spec_regular_audio(seq_view(pmt_element.elementary_streams@)),
        r@.dolby_pids == spec_dolby_audio(seq_view(pmt_element.elementary_streams@)),
{
    let streams = &pmt_element.elementary_streams;
    let ghost views = seq_view(streams@);
    let mut regular_pids: Vec<AudioPID> = Vec::new();
    let mut dolby_pids: Vec<AudioPID> = Vec::new();

    proof {
        assert(views.take(0) =~= Seq::<ElementaryStreamModel>::empty());
        assert(seq_view(regular_pids@) =~= Seq::<AudioPIDModel>::empty());
        assert(seq_view(dolby_pids@) =~= Seq::<AudioPIDModel>::empty());
    }

    let mut i: usize = 0;
    while i < streams.len()
        invariant
            i <= streams@.len(),
            views == seq_view(streams@),
            seq_view(regular_pids@) == spec_regular_audio(views.take(i as int)),
            seq_view(dolby_pids@) == spec_dolby_audio(views.take(i as int)),
        decreases streams@.len() - i,
    {
        proof {
            assert(views.take(i as int + 1).drop_last() =~= views.take(i as int));
            assert(views.take(i as int + 1).last() == views[i as int]);
            assert(views[i as int] == streams@[i as int]@);
        }
        let stream = &streams[i];
        match stream.stream_type {
            StreamType::IsoIec11172Audio | StreamType::IsoIec13818_3Audio => {
                let language_code = stream_language(&stream.descriptors);
                let entry = AudioPID {
                    pid: stream.elementary_pid,
                    language_code,
                    second_language_code: String::new(),
                    audio_type: Some(stream.stream_type.to_u8() as u16),
                };
                proof {
                    lemma_seq_view_push(regular_pids@, entry);
                    assert(seq_view(regular_pids@) + seq![entry@] =~= seq_view(
                        regular_pids@,
                    ).push(entry@));
                    assert(seq_view(dolby_pids@) + Seq::<AudioPIDModel>::empty() =~= seq_view(
                        dolby_pids@,
                    ));
                }
                regular_pids.push(entry);
            },
            StreamType::ItuTRecH2220IsoIec13818_1PrivateSections
            | StreamType::ItuTRecH2220IsoIec13818_1PESPacketsContainingPrivateData => {
                match private_audio_type(&stream.descriptors) {
                    Some(audio_type) => {
                        let language_code = stream_language(&stream.descriptors);
                        let entry = AudioPID {
                            pid: stream.elementary_pid,
                            language_code,
                            second_language_code: String::new(),
                            audio_type: Some(audio_type),
                        };
                        proof {
                            lemma_seq_view_push(dolby_pids@, entry);
                            assert(seq_view(dolby_pids@) + seq![entry@] =~= seq_view(
                                dolby_pids@,
                            ).push(entry@));
                            assert(seq_view(regular_pids@) + Seq::<AudioPIDModel>::empty()
                                =~= seq_view(regular_pids@));
                        }
                        dolby_pids.push(entry);
                    },
                    None => {
                        proof {
                            assert(seq_view(regular_pids@) + Seq::<AudioPIDModel>::empty()
                                =~= seq_view(regular_pids@));
                            assert(seq_view(dolby_pids@) + Seq::<AudioPIDModel>::empty()
                                =~= seq_view(dolby_pids@));
                        }
                    },
                }
            },
            _ => {
                proof {
                    assert(seq_view(regular_pids@) + Seq::<AudioPIDModel>::empty() =~= seq_view(
                        regular_pids@,
                    ));
                    assert(seq_view(dolby_pids@) + Seq::<AudioPIDModel>::empty() =~= seq_view(
                        dolby_pids@,
                    ));
                }
            },
        }
        i = i + 1;
    }
    proof {
        assert(views.take(views.len() as int) =~= views);
    }
    AudioPIDList { regular_pids, dolby_pids }
}

impl ChannelInformation {
    /// Projects all channels of a single transponder.
    #[verifier::rlimit(60)]
    pub fn from_transponder(transponder: &Transponder) -> (r: Vec<ChannelInformation>)
        ensures
            seq_view(r@) == spec_channels_of_transponder(transponder@),
    {
        let mut channels: Vec<ChannelInformation> = Vec::new();
        let services = &transponder.service_description.services;
        let ghost svcs = seq_view(services@);

        proof {
            assert(svcs.take(0) =~= Seq::<ServiceModel>::empty());
            assert(seq_view(channels@) =~= Seq::<ChannelInformationModel>::empty());
        }

        let mut i: usize = 0;
        while i < services.len()
            invariant
                i <= services@.len(),
                svcs == seq_view(services@),
                svcs == transponder@.service_description.services,
                seq_view(channels@) == spec_channels_of_services(
                    transponder@,
                    svcs.take(i as int),
                ),
            decreases services@.len() - i,
        {
            proof {
                assert(svcs.take(i as int + 1).drop_last() =~= svcs.take(i as int));
                assert(svcs.take(i as int + 1).last() == svcs[i as int]);
                assert(svcs[i as int] == services@[i as int]@);
            }
            let service = &services[i];

            let resolved = Self::channel_of_service(transponder, service);
            match resolved {
                Some(channel) => {
                    proof {
                        lemma_seq_view_push(channels@, channel);
                        assert(seq_view(channels@) + seq![channel@] =~= seq_view(
                            channels@,
                        ).push(channel@));
                    }
                    channels.push(channel);
                },
                None => {
                    proof {
                        assert(seq_view(channels@) + Seq::<ChannelInformationModel>::empty()
                            =~= seq_view(channels@));
                    }
                },
            }
            i = i + 1;
        }
        proof {
            assert(svcs.take(svcs.len() as int) =~= svcs);
        }
        channels
    }

    /// Projects one service of a transponder, or nothing when it
    /// cannot be resolved.
    fn channel_of_service(transponder: &Transponder, service: &crate::si::sdt::Service) -> (r:
        Option<ChannelInformation>)
        ensures
            match r {
                Some(c) => spec_channel_of_service(transponder@, service@) == Some(c@),
                None => spec_channel_of_service(transponder@, service@) is None,
            },
    {
        // Find the service descriptor: without it there is no telling
        // what this service is about.
        let service_data = match first_service_descriptor(&service.descriptors) {
            Some(d) => d,
            None => { return None; },
        };
        let name = service_data.service.clone();

        // Match the corresponding NIT element; a service the NIT does
        // not reference is odd and skipped.
        let nit_element = match find_nit_element_by_service_id(
            &transponder.network_information,
            service.service_id,
        ) {
            Some(e) => e,
            None => { return None; },
        };

        let pmt_element = match find_pmt_by_service_id(
            &transponder.program_map,
            service.service_id,
        ) {
            Some(e) => e,
            None => { return None; },
        };

        let video_pid = match pmt_to_video_pid(pmt_element) {
            Some(v) => v,
            None => { return None; },
        };

        let logical_channel_number = find_lcn_from_nit_element_by_service_id(
            nit_element,
            service.service_id,
        );

        Some(ChannelInformation {
            frequency: transponder.frequency,
            bandwidth: transponder.bandwidth,
            delivery_system: transponder.system,
            symbol_rate: None,
            name,
            logical_channel_number,
            service_id: service.service_id,
            original_network_id: transponder.service_description.original_network_id,
            transport_stream_id: nit_element.transport_stream_id,
            video_pid,
            audio_pid_list: pmt_to_audio_pids(pmt_element),
        })
    }
}

/// The channels of a whole run of transponders, in order.
pub open spec fn spec_all_channels(ts: Seq<TransponderModel>) -> Seq<ChannelInformationModel>
    decreases ts.len(),
{
    if ts.len() == 0 {
        Seq::empty()
    } else {
        spec_all_channels(ts.drop_last()) + spec_channels_of_transponder(ts.last())
    }
}

/// Takes all transponders found during a scan and returns the flat
/// list of channels they carry.
pub fn to_channels(all_transponders: &Vec<Transponder>) -> (r: Vec<ChannelInformation>)
    ensures
        seq_view(r@) == spec_all_channels(seq_view(all_transponders@)),
{
    let ghost views = seq_view(all_transponders@);
    let mut channels: Vec<ChannelInformation> = Vec::new();
    proof {
        assert(views.take(0) =~= Seq::<TransponderModel>::empty());
        assert(seq_view(channels@) =~= Seq::<ChannelInformationModel>::empty());
    }
    let mut i: usize = 0;
    while i < all_transponders.len()
        invariant
            i <= all_transponders@.len(),
            views == seq_view(all_transponders@),
            seq_view(channels@) == spec_all_channels(views.take(i as int)),
        decreases all_transponders@.len() - i,
    {
        proof {
            assert(views.take(i as int + 1).drop_last() =~= views.take(i as int));
            assert(views.take(i as int + 1).last() == views[i as int]);
            assert(views[i as int] == all_transponders@[i as int]@);
        }
        let mut more = ChannelInformation::from_transponder(&all_transponders[i]);
        let ghost before = channels@;
        let ghost added = more@;
        channels.append(&mut more);
        proof {
            assert(seq_view(before + added) =~= seq_view(before) + seq_view(added));
        }
        i = i + 1;
    }
    proof {
        assert(views.take(views.len() as int) =~= views);
    }
    channels
}

//
// ----- Ordering channels

/// The order channels are sorted in: ascending by logical channel
/// number, with channels that have none after all channels that have
/// one.
pub open spec fn spec_lcn_le(a: Option<u16>, b: Option<u16>) -> bool {
    match (a, b) {
        (Some(x), Some(y)) => x <= y,
        (Some(_), None) => true,
        (None, Some(_)) => false,
        (None, None) => true,
    }
}

/// A channel list ordered by logical channel number.
pub open spec fn spec_sorted_by_lcn(s: Seq<ChannelInformation>) -> bool {
    forall|i: int, j: int|
        0 <= i < j < s.len() ==> spec_lcn_le(
            (#[trigger] s[i]).logical_channel_number,
            (#[trigger] s[j]).logical_channel_number,
        )
}

/// Sorts a list of channels by their logical channel number: the
/// result is ordered, holds exactly the same channels, and an already
/// ordered list comes back unchanged — so sorting twice is the same
/// as sorting once.
pub fn sort_by_lcn(channels: &mut Vec<ChannelInformation>)
    ensures
        spec_sorted_by_lcn(final(channels)@),
        final(channels)@.to_multiset() == old(channels)@.to_multiset(),
        spec_sorted_by_lcn(old(channels)@) ==> final(channels)@ == old(channels)@,
{
    let ghost input = channels@;
    let mut sorted: Vec<ChannelInformation> = Vec::new();
    let ghost n = input.len();
    let initial_len = channels.len();
    proof {
        assert(n == initial_len);
    }

    proof {
        broadcast use vstd::seq_lib::group_to_multiset_ensures;

        assert(input.take(0) =~= Seq::<ChannelInformation>::empty());
        assert(Seq::<ChannelInformation>::empty().to_multiset()
            =~= input.take(0).to_multiset());
    }

    let mut taken: usize = 0;
    while channels.len() > 0
        invariant
            n == input.len(),
            n <= usize::MAX,
            taken + channels@.len() == n,
            forall|k: int| 0 <= k < channels@.len() ==> (#[trigger] channels@[k]) == input[
                taken + k
            ],
            spec_sorted_by_lcn(sorted@),
            sorted@.to_multiset() == input.take(taken as int).to_multiset(),
            spec_sorted_by_lcn(input) ==> sorted@ == input.take(taken as int),
        decreases channels@.len(),
    {
        proof {
            broadcast use vstd::seq_lib::group_to_multiset_ensures;

        }
        let ghost channels_before = channels@;
        let element = channels.remove(0);
        proof {
            assert(channels@ =~= channels_before.skip(1));
            assert(element == input[taken as int]);
        }

        // Find the first position whose channel must come after the
        // element; inserting there keeps equal keys in arrival order.
        let mut position: usize = 0;
        while position < sorted.len() && lcn_le_exec(
            &sorted[position].logical_channel_number,
            &element.logical_channel_number,
        )
            invariant
                position <= sorted@.len(),
                forall|k: int| 0 <= k < position ==> spec_lcn_le(
                    (#[trigger] sorted@[k]).logical_channel_number,
                    element.logical_channel_number,
                ),
            decreases sorted@.len() - position,
        {
            position = position + 1;
        }

        let ghost sorted_before = sorted@;
        sorted.insert(position, element);
        proof {
            assert(sorted@ == sorted_before.insert(position as int, element));
            lemma_sorted_insert(sorted_before, position as int, element);
            assert(sorted@.remove(position as int) =~= sorted_before);
            assert(sorted@.to_multiset().remove(element) == sorted_before.to_multiset());
            assert(sorted@.to_multiset().contains(element));
            assert(sorted@.to_multiset() =~= sorted_before.to_multiset().insert(element));
            assert(input.take(taken as int + 1).drop_last() =~= input.take(taken as int));
            assert(input.take(taken as int + 1) =~= input.take(taken as int).push(element));
            if spec_sorted_by_lcn(input) {
                assert forall|k: int| 0 <= k < sorted_before.len() implies spec_lcn_le(
                    (#[trigger] sorted_before[k]).logical_channel_number,
                    element.logical_channel_number,
                ) by {
                    assert(sorted_before[k] == input[k]);
                }
                assert(position == sorted_before.len());
                assert(sorted@ =~= input.take(taken as int + 1));
            }
        }
        taken = taken + 1;
    }

    proof {
        assert(input.take(n as int) =~= input);
    }
    *channels = sorted;
}

fn lcn_le_exec(a: &Option<u16>, b: &Option<u16>) -> (r: bool)
    ensures
        r == spec_lcn_le(*a, *b),
{
    match (a, b) {
        (Some(x), Some(y)) => *x <= *y,
        (Some(_), None) => true,
        (None, Some(_)) => false,
        (None, None) => true,
    }
}

/// Inserting an element at the first position whose key exceeds it
/// keeps a list ordered.
proof fn lemma_sorted_insert(s: Seq<ChannelInformation>, p: int, e: ChannelInformation)
    requires
        spec_sorted_by_lcn(s),
        0 <= p <= s.len(),
        forall|k: int| 0 <= k < p ==> spec_lcn_le(
            (#[trigger] s[k]).logical_channel_number,
            e.logical_channel_number,
        ),
        p < s.len() ==> !spec_lcn_le(s[p].logical_channel_number, e.logical_channel_number),
    ensures
        spec_sorted_by_lcn(s.insert(p, e)),
{
    let t = s.insert(p, e);
    assert forall|i: int, j: int| 0 <= i < j < t.len() implies spec_lcn_le(
        (#[trigger] t[i]).logical_channel_number,
        (#[trigger] t[j]).logical_channel_number,
    ) by {
        if i < p && j < p {
        } else if i < p && j == p {
        } else if i == p && j > p {
            assert(t[j] == s[j - 1]);
            assert(!spec_lcn_le(s[p].logical_channel_number, e.logical_channel_number));
            assert(spec_lcn_le(s[p].logical_channel_number, s[j - 1].logical_channel_number));
        } else if i < p && j > p {
            assert(t[i] == s[i]);
            assert(t[j] == s[j - 1]);
        } else if i > p && j > p {
            assert(t[i] == s[i - 1]);
            assert(t[j] == s[j - 1]);
        } else if i == p && j == p {
        } else {
            // i < j <= p or p <= i < j within the shifted region.
            assert(t[i] == (if i < p { s[i] } else if i == p { e } else { s[i - 1] }));
        }
    }
}

} // verus!

