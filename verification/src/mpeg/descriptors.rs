//! Descriptors: tagged, length-prefixed sub-records embedded in PSI
//! tables.
//!
//! A descriptor list is a contiguous buffer of entries, each a one-byte
//! tag, a one-byte length, and exactly that many payload bytes. Known
//! tags dispatch to a typed decoder; unrecognized tags are preserved as
//! an unknown variant carrying the tag and raw bytes, never dropped,
//! since downstream logic depends on exact tag matching.

pub mod ac3;
pub mod application_signalling;
pub mod carousel_identifier;
pub mod component;
pub mod data_broadcast_id;
pub mod enhanced_ac3;
pub mod extension;
pub mod iso639_language;
pub mod logical_channel;
pub mod network_name;
pub mod private_data_specifier;
pub mod service;
pub mod service_list;
pub mod stream_identifier;
pub mod subtitling;
pub mod terrestrial_delivery_system;

use vstd::prelude::*;

use crate::error::DecodeError;
use crate::utils::{combine_parsed, decoded_as, lemma_seq_view_push, seq_view};

use ac3::{spec_ac3, Ac3, Ac3Model};
use application_signalling::{
    spec_application_signalling, ApplicationSignalling, ApplicationSignallingElement,
};
use carousel_identifier::{spec_carousel_identifier, CarouselIdentifier, CarouselIdentifierModel};
use component::{spec_component, Component, ComponentModel};
use data_broadcast_id::{spec_data_broadcast_id, DataBroadcastId, DataBroadcastIdModel};
use enhanced_ac3::{spec_enhanced_ac3, EnhancedAc3, EnhancedAc3Model};
use extension::{spec_extension, Extension, ExtensionModel};
use iso639_language::{spec_iso639_language, Iso639Language};
use logical_channel::{spec_logical_channel, LogicalChannel, LogicalChannelDescriptorElement};
use network_name::{spec_network_name, NetworkName, NetworkNameModel};
use private_data_specifier::{spec_private_data_specifier, PrivateDataSpecifier};
use service::{spec_service, Service, ServiceModel};
use service_list::{spec_service_list, ServiceList, ServiceListDescriptorElement};
use stream_identifier::{spec_stream_identifier, StreamIdentifier};
use subtitling::{spec_subtitling, Subtitling, SubtitlingElementModel};
use terrestrial_delivery_system::{
    spec_terrestrial_delivery_system, TerrestrialDeliverySystem,
};

verus! {

/// One decoded descriptor: a closed set of known variants plus an
/// unknown arm that retains the raw bytes.
#[derive(Debug, Clone)]
pub enum Descriptor {
    NetworkName(NetworkName),
    ServiceList(ServiceList),
    Service(Service),
    StreamIdentifier(StreamIdentifier),
    TerrestrialDeliverySystem(TerrestrialDeliverySystem),
    LogicalChannel(LogicalChannel),
    EnhancedAc3(EnhancedAc3),
    PrivateDataSpecifier(PrivateDataSpecifier),
    DataBroadcastId(DataBroadcastId),
    Extension(Extension),
    Subtitling(Subtitling),
    Component(Component),
    Iso639Language(Iso639Language),
    ApplicationSignalling(ApplicationSignalling),
    Ac3(Ac3),
    CarouselIdentifier(CarouselIdentifier),
    _Unknown(UnknownDescriptor),
}

/// A descriptor whose tag the library does not know: the tag and the
/// raw payload are kept unchanged.
#[derive(Debug, Clone)]
pub struct UnknownDescriptor {
    pub descriptor_id: u8,
    pub raw_data: Vec<u8>,
}

/// The mathematical value of an [`UnknownDescriptor`].
pub struct UnknownDescriptorModel {
    pub descriptor_id: u8,
    pub raw_data: Seq<u8>,
}

impl View for UnknownDescriptor {
    type V = UnknownDescriptorModel;

    open spec fn view(&self) -> UnknownDescriptorModel {
        UnknownDescriptorModel { descriptor_id: self.descriptor_id, raw_data: self.raw_data@ }
    }
}

/// The mathematical value of a [`Descriptor`].
pub enum DescriptorModel {
    NetworkName(NetworkNameModel),
    ServiceList(Seq<ServiceListDescriptorElement>),
    Service(ServiceModel),
    StreamIdentifier(StreamIdentifier),
    TerrestrialDeliverySystem(TerrestrialDeliverySystem),
    LogicalChannel(Seq<LogicalChannelDescriptorElement>),
    EnhancedAc3(EnhancedAc3Model),
    PrivateDataSpecifier(PrivateDataSpecifier),
    DataBroadcastId(DataBroadcastIdModel),
    Extension(ExtensionModel),
    Subtitling(Seq<SubtitlingElementModel>),
    Component(ComponentModel),
    Iso639Language(Seq<u8>),
    ApplicationSignalling(Seq<ApplicationSignallingElement>),
    Ac3(Ac3Model),
    CarouselIdentifier(CarouselIdentifierModel),
    Unknown(UnknownDescriptorModel),
}

impl View for Descriptor {
    type V = DescriptorModel;

    open spec fn view(&self) -> DescriptorModel {
        match self {
            Descriptor::NetworkName(d) => DescriptorModel::NetworkName(d@),
            Descriptor::ServiceList(d) => DescriptorModel::ServiceList(d@),
            Descriptor::Service(d) => DescriptorModel::Service(d@),
            Descriptor::StreamIdentifier(d) => DescriptorModel::StreamIdentifier(*d),
            Descriptor::TerrestrialDeliverySystem(d) => {
                DescriptorModel::TerrestrialDeliverySystem(*d)
            },
            Descriptor::LogicalChannel(d) => DescriptorModel::LogicalChannel(d@),
            Descriptor::EnhancedAc3(d) => DescriptorModel::EnhancedAc3(d@),
            Descriptor::PrivateDataSpecifier(d) => DescriptorModel::PrivateDataSpecifier(*d),
            Descriptor::DataBroadcastId(d) => DescriptorModel::DataBroadcastId(d@),
            Descriptor::Extension(d) => DescriptorModel::Extension(d@),
            Descriptor::Subtitling(d) => DescriptorModel::Subtitling(d@),
            Descriptor::Component(d) => DescriptorModel::Component(d@),
            Descriptor::Iso639Language(d) => DescriptorModel::Iso639Language(d@),
            Descriptor::ApplicationSignalling(d) => DescriptorModel::ApplicationSignalling(d@),
            Descriptor::Ac3(d) => DescriptorModel::Ac3(d@),
            Descriptor::CarouselIdentifier(d) => DescriptorModel::CarouselIdentifier(d@),
            Descriptor::_Unknown(d) => DescriptorModel::Unknown(d@),
        }
    }
}

/// The descriptor tags this library decodes into a typed variant.
pub open spec fn spec_is_known_tag(tag: u8) -> bool {
    tag == iso639_language::DESCRIPTOR_ID || tag == carousel_identifier::DESCRIPTOR_ID
        || tag == network_name::DESCRIPTOR_ID || tag == service_list::DESCRIPTOR_ID
        || tag == service::DESCRIPTOR_ID || tag == stream_identifier::DESCRIPTOR_ID
        || tag == component::DESCRIPTOR_ID || tag == terrestrial_delivery_system::DESCRIPTOR_ID
        || tag == subtitling::DESCRIPTOR_ID || tag == private_data_specifier::DESCRIPTOR_ID
        || tag == data_broadcast_id::DESCRIPTOR_ID || tag == ac3::DESCRIPTOR_ID
        || tag == application_signalling::DESCRIPTOR_ID || tag == enhanced_ac3::DESCRIPTOR_ID
        || tag == extension::DESCRIPTOR_ID || tag == logical_channel::DESCRIPTOR_ID
}

/// What [`Descriptor::read`] decodes for a given tag and payload: known
/// tags dispatch to their decoder, any other tag yields the unknown
/// variant with the payload unchanged.
pub open spec fn spec_read_descriptor(tag: u8, b: Seq<u8>) -> Result<DescriptorModel, DecodeError> {
    if tag == iso639_language::DESCRIPTOR_ID {
        match spec_iso639_language(b) {
            Ok(m) => Ok(DescriptorModel::Iso639Language(m)),
            Err(e) => Err(e),
        }
    } else if tag == carousel_identifier::DESCRIPTOR_ID {
        match spec_carousel_identifier(b) {
            Ok(m) => Ok(DescriptorModel::CarouselIdentifier(m)),
            Err(e) => Err(e),
        }
    } else if tag == network_name::DESCRIPTOR_ID {
        match spec_network_name(b) {
            Ok(m) => Ok(DescriptorModel::NetworkName(m)),
            Err(e) => Err(e),
        }
    } else if tag == service_list::DESCRIPTOR_ID {
        match spec_service_list(b) {
            Ok(m) => Ok(DescriptorModel::ServiceList(m)),
            Err(e) => Err(e),
        }
    } else if tag == service::DESCRIPTOR_ID {
        match spec_service(b) {
            Ok(m) => Ok(DescriptorModel::Service(m)),
            Err(e) => Err(e),
        }
    } else if tag == stream_identifier::DESCRIPTOR_ID {
        match spec_stream_identifier(b) {
            Ok(m) => Ok(DescriptorModel::StreamIdentifier(m)),
            Err(e) => Err(e),
        }
    } else if tag == component::DESCRIPTOR_ID {
        match spec_component(b) {
            Ok(m) => Ok(DescriptorModel::Component(m)),
            Err(e) => Err(e),
        }
    } else if tag == terrestrial_delivery_system::DESCRIPTOR_ID {
        match spec_terrestrial_delivery_system(b) {
            Ok(m) => Ok(DescriptorModel::TerrestrialDeliverySystem(m)),
            Err(e) => Err(e),
        }
    } else if tag == subtitling::DESCRIPTOR_ID {
        match spec_subtitling(b) {
            Ok(m) => Ok(DescriptorModel::Subtitling(m)),
            Err(e) => Err(e),
        }
    } else if tag == private_data_specifier::DESCRIPTOR_ID {
        match spec_private_data_specifier(b) {
            Ok(m) => Ok(DescriptorModel::PrivateDataSpecifier(m)),
            Err(e) => Err(e),
        }
    } else if tag == data_broadcast_id::DESCRIPTOR_ID {
        match spec_data_broadcast_id(b) {
            Ok(m) => Ok(DescriptorModel::DataBroadcastId(m)),
            Err(e) => Err(e),
        }
    } else if tag == ac3::DESCRIPTOR_ID {
        match spec_ac3(b) {
            Ok(m) => Ok(DescriptorModel::Ac3(m)),
            Err(e) => Err(e),
        }
    } else if tag == application_signalling::DESCRIPTOR_ID {
        match spec_application_signalling(b) {
            Ok(m) => Ok(DescriptorModel::ApplicationSignalling(m)),
            Err(e) => Err(e),
        }
    } else if tag == enhanced_ac3::DESCRIPTOR_ID {
        match spec_enhanced_ac3(b) {
            Ok(m) => Ok(DescriptorModel::EnhancedAc3(m)),
            Err(e) => Err(e),
        }
    } else if tag == extension::DESCRIPTOR_ID {
        match spec_extension(b) {
            Ok(m) => Ok(DescriptorModel::Extension(m)),
            Err(e) => Err(e),
        }
    } else if tag == logical_channel::DESCRIPTOR_ID {
        match spec_logical_channel(b) {
            Ok(m) => Ok(DescriptorModel::LogicalChannel(m)),
            Err(e) => Err(e),
        }
    } else {
        Ok(DescriptorModel::Unknown(UnknownDescriptorModel { descriptor_id: tag, raw_data: b }))
    }
}

/// An unrecognized descriptor tag is never dropped: decoding yields the
/// unknown variant carrying the original tag and bytes unchanged.
pub proof fn lemma_unknown_tag_preserved(tag: u8, b: Seq<u8>)
    requires
        !spec_is_known_tag(tag),
    ensures
        spec_read_descriptor(tag, b) == Ok::<DescriptorModel, DecodeError>(
            DescriptorModel::Unknown(UnknownDescriptorModel { descriptor_id: tag, raw_data: b }),
        ),
{
}

/// What [`Descriptor::read_many`] decodes: tag, length, and exactly
/// `length` payload bytes, repeated until the buffer is exhausted.
pub open spec fn spec_descriptor_list(b: Seq<u8>) -> Result<Seq<DescriptorModel>, DecodeError>
    decreases b.len(),
{
    if b.len() == 0 {
        Ok(Seq::empty())
    } else if b.len() < 2 {
        Err(DecodeError::ShortBuffer)
    } else if b.len() < 2 + b[1] as int {
        Err(DecodeError::LengthOutOfRange)
    } else {
        match spec_read_descriptor(b[0], b.subrange(2, 2 + b[1] as int)) {
            Err(e) => Err(e),
            Ok(d) => match spec_descriptor_list(b.skip(2 + b[1] as int)) {
                Ok(rest) => Ok(seq![d] + rest),
                Err(e) => Err(e),
            },
        }
    }
}

impl Descriptor {
    /// Decodes one descriptor payload, dispatching on its tag.
    pub fn read(descriptor_id: u8, buf: &[u8]) -> (r: Result<Descriptor, DecodeError>)
        ensures
            decoded_as(r, spec_read_descriptor(descriptor_id, buf@)),
    {
        match descriptor_id {
            iso639_language::DESCRIPTOR_ID => match Iso639Language::from_buf(buf) {
                Ok(d) => Ok(Descriptor::Iso639Language(d)),
                Err(e) => Err(e),
            },
            carousel_identifier::DESCRIPTOR_ID => match CarouselIdentifier::from_buf(buf) {
                Ok(d) => Ok(Descriptor::CarouselIdentifier(d)),
                Err(e) => Err(e),
            },
            network_name::DESCRIPTOR_ID => match NetworkName::from_buf(buf) {
                Ok(d) => Ok(Descriptor::NetworkName(d)),
                Err(e) => Err(e),
            },
            service_list::DESCRIPTOR_ID => match ServiceList::from_buf(buf) {
                Ok(d) => Ok(Descriptor::ServiceList(d)),
                Err(e) => Err(e),
            },
            service::DESCRIPTOR_ID => match Service::from_buf(buf) {
                Ok(d) => Ok(Descriptor::Service(d)),
                Err(e) => Err(e),
            },
            stream_identifier::DESCRIPTOR_ID => match StreamIdentifier::from_buf(buf) {
                Ok(d) => Ok(Descriptor::StreamIdentifier(d)),
                Err(e) => Err(e),
            },
            component::DESCRIPTOR_ID => match Component::from_buf(buf) {
                Ok(d) => Ok(Descriptor::Component(d)),
                Err(e) => Err(e),
            },
            terrestrial_delivery_system::DESCRIPTOR_ID => {
                match TerrestrialDeliverySystem::from_buf(buf) {
                    Ok(d) => Ok(Descriptor::TerrestrialDeliverySystem(d)),
                    Err(e) => Err(e),
                }
            },
            subtitling::DESCRIPTOR_ID => match Subtitling::from_buf(buf) {
                Ok(d) => Ok(Descriptor::Subtitling(d)),
                Err(e) => Err(e),
            },
            private_data_specifier::DESCRIPTOR_ID => match PrivateDataSpecifier::from_buf(buf) {
                Ok(d) => Ok(Descriptor::PrivateDataSpecifier(d)),
                Err(e) => Err(e),
            },
            data_broadcast_id::DESCRIPTOR_ID => match DataBroadcastId::from_buf(buf) {
                Ok(d) => Ok(Descriptor::DataBroadcastId(d)),
                Err(e) => Err(e),
            },
            ac3::DESCRIPTOR_ID => match Ac3::from_buf(buf) {
                Ok(d) => Ok(Descriptor::Ac3(d)),
                Err(e) => Err(e),
            },
            application_signalling::DESCRIPTOR_ID => match ApplicationSignalling::from_buf(buf) {
                Ok(d) => Ok(Descriptor::ApplicationSignalling(d)),
                Err(e) => Err(e),
            },
            enhanced_ac3::DESCRIPTOR_ID => match EnhancedAc3::from_buf(buf) {
                Ok(d) => Ok(Descriptor::EnhancedAc3(d)),
                Err(e) => Err(e),
            },
            extension::DESCRIPTOR_ID => match Extension::from_buf(buf) {
                Ok(d) => Ok(Descriptor::Extension(d)),
                Err(e) => Err(e),
            },
            logical_channel::DESCRIPTOR_ID => match LogicalChannel::from_buf(buf) {
                Ok(d) => Ok(Descriptor::LogicalChannel(d)),
                Err(e) => Err(e),
            },
            _ => Ok(Descriptor::_Unknown(UnknownDescriptor {
                descriptor_id,
                raw_data: vstd::slice::slice_to_vec(buf),
            })),
        }
    }

    /// Decodes a whole descriptor-list buffer; the list has no length
    /// prefix of its own, it consumes exactly the given slice.
    #[verifier::rlimit(60)]
    pub fn read_many(buf: &[u8]) -> (r: Result<Vec<Descriptor>, DecodeError>)
        ensures
            match r {
                Ok(ds) => spec_descriptor_list(buf@) == Ok::<Seq<DescriptorModel>, DecodeError>(
                    seq_view(ds@),
                ),
                Err(e) => spec_descriptor_list(buf@) == Err::<Seq<DescriptorModel>, DecodeError>(
                    e,
                ),
            },
    {
        let mut descriptors: Vec<Descriptor> = Vec::new();

        proof {
            assert(buf@.skip(0) =~= buf@);
            assert(seq_view(descriptors@) =~= Seq::<DescriptorModel>::empty());
        }

        let mut offset: usize = 0;
        while offset < buf.len()
            invariant
                offset <= buf.len(),
                spec_descriptor_list(buf@) == combine_parsed(
                    seq_view(descriptors@),
                    spec_descriptor_list(buf@.skip(offset as int)),
                ),
            decreases buf.len() - offset,
        {
            let ghost rem = buf@.skip(offset as int);
            if buf.len() - offset < 2 {
                return Err(DecodeError::ShortBuffer);
            }
            let descriptor_id = buf[offset];
            let length = buf[offset + 1] as usize;
            if buf.len() - offset - 2 < length {
                return Err(DecodeError::LengthOutOfRange);
            }
            let data = vstd::slice::slice_subrange(buf, offset + 2, offset + 2 + length);
            proof {
                assert(rem[0] == buf@[offset as int]);
                assert(rem[1] == buf@[offset as int + 1]);
                assert(data@ =~= rem.subrange(2, 2 + rem[1] as int));
            }
            let d = match Descriptor::read(descriptor_id, data) {
                Ok(d) => d,
                Err(e) => { return Err(e); },
            };
            proof {
                assert(rem.skip(2 + rem[1] as int)
                    =~= buf@.skip(offset as int + 2 + buf@[offset as int + 1] as int));
                lemma_seq_view_push(descriptors@, d);
                match spec_descriptor_list(rem.skip(2 + rem[1] as int)) {
                    Ok(rest) => {
                        assert(seq_view(descriptors@) + (seq![d@] + rest)
                            =~= seq_view(descriptors@).push(d@) + rest);
                    },
                    Err(_) => {},
                }
            }
            descriptors.push(d);
            offset = offset + 2 + length;
        }

        proof {
            assert(buf@.skip(buf@.len() as int) =~= Seq::<u8>::empty());
            assert(seq_view(descriptors@) + Seq::<DescriptorModel>::empty()
                =~= seq_view(descriptors@));
        }
        Ok(descriptors)
    }

    /// The tag this descriptor is written with on the wire.
    pub fn descriptor_id(&self) -> (r: u8)
        ensures
            r == spec_descriptor_tag(self@),
    {
        match self {
            Descriptor::Iso639Language(_) => iso639_language::DESCRIPTOR_ID,
            Descriptor::CarouselIdentifier(_) => carousel_identifier::DESCRIPTOR_ID,
            Descriptor::NetworkName(_) => network_name::DESCRIPTOR_ID,
            Descriptor::ServiceList(_) => service_list::DESCRIPTOR_ID,
            Descriptor::Service(_) => service::DESCRIPTOR_ID,
            Descriptor::Component(_) => component::DESCRIPTOR_ID,
            Descriptor::StreamIdentifier(_) => stream_identifier::DESCRIPTOR_ID,
            Descriptor::Subtitling(_) => subtitling::DESCRIPTOR_ID,
            Descriptor::TerrestrialDeliverySystem(_) => terrestrial_delivery_system::DESCRIPTOR_ID,
            Descriptor::PrivateDataSpecifier(_) => private_data_specifier::DESCRIPTOR_ID,
            Descriptor::DataBroadcastId(_) => data_broadcast_id::DESCRIPTOR_ID,
            Descriptor::Ac3(_) => ac3::DESCRIPTOR_ID,
            Descriptor::ApplicationSignalling(_) => application_signalling::DESCRIPTOR_ID,
            Descriptor::EnhancedAc3(_) => enhanced_ac3::DESCRIPTOR_ID,
            Descriptor::Extension(_) => extension::DESCRIPTOR_ID,
            Descriptor::LogicalChannel(_) => logical_channel::DESCRIPTOR_ID,
            Descriptor::_Unknown(u) => u.descriptor_id,
        }
    }
}

/// The wire tag of each descriptor variant.
pub open spec fn spec_descriptor_tag(d: DescriptorModel) -> u8 {
    match d {
        DescriptorModel::Iso639Language(_) => iso639_language::DESCRIPTOR_ID,
        DescriptorModel::CarouselIdentifier(_) => carousel_identifier::DESCRIPTOR_ID,
        DescriptorModel::NetworkName(_) => network_name::DESCRIPTOR_ID,
        DescriptorModel::ServiceList(_) => service_list::DESCRIPTOR_ID,
        DescriptorModel::Service(_) => service::DESCRIPTOR_ID,
        DescriptorModel::Component(_) => component::DESCRIPTOR_ID,
        DescriptorModel::StreamIdentifier(_) => stream_identifier::DESCRIPTOR_ID,
        DescriptorModel::Subtitling(_) => subtitling::DESCRIPTOR_ID,
        DescriptorModel::TerrestrialDeliverySystem(_) => terrestrial_delivery_system::DESCRIPTOR_ID,
        DescriptorModel::PrivateDataSpecifier(_) => private_data_specifier::DESCRIPTOR_ID,
        DescriptorModel::DataBroadcastId(_) => data_broadcast_id::DESCRIPTOR_ID,
        DescriptorModel::Ac3(_) => ac3::DESCRIPTOR_ID,
        DescriptorModel::ApplicationSignalling(_) => application_signalling::DESCRIPTOR_ID,
        DescriptorModel::EnhancedAc3(_) => enhanced_ac3::DESCRIPTOR_ID,
        DescriptorModel::Extension(_) => extension::DESCRIPTOR_ID,
        DescriptorModel::LogicalChannel(_) => logical_channel::DESCRIPTOR_ID,
        DescriptorModel::Unknown(u) => u.descriptor_id,
    }
}

} // verus!
