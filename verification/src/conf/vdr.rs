//! VDR-style channel list import/export.
//!
//! A channel list is a text file of lines, one channel each, with
//! colon-separated columns.

pub mod audio_pid;
pub mod parameters;
pub mod teletext_pid;
pub mod video_pid;

use vstd::prelude::*;

use crate::error::VdrParseError;
use crate::frontend::sys::FeDeliverySystem;
use crate::interpret::ChannelInformation;
use crate::utils::{
    format_u32, lemma_seq_view_push, parse_u16, parse_u32, rfind_char, seq_view, spec_dec_str,
    spec_parse_u16, spec_parse_u32, spec_rfind_char, spec_split, split_str, str_chars,
};
use audio_pid::{spec_audio_pid_list_format, spec_audio_pid_list_str, AudioPIDList, AudioPIDListModel};
use parameters::{
    spec_parameters_format, spec_parameters_str, DeliverySystemGeneration, Parameters,
};
use teletext_pid::{spec_teletext_list_str, TeletextPIDList, TeletextPIDListModel};
use video_pid::{spec_video_pid_format, spec_video_pid_str, VideoPID};

verus! {

/// A single line of a VDR-style channel list.
#[derive(Debug, Clone)]
pub struct ChannelDefinition {
    pub name: String,
    pub short_name: String,
    pub bouquet: String,
    pub frequency: u32,
    pub parameters: Parameters,
    /// Always `T` for DVB-T and DVB-T2.
    pub source: String,
    pub symbol_rate: u32,
    pub video_pid: VideoPID,
    pub audio_pid: AudioPIDList,
    pub teletext_pid: TeletextPIDList,
    /// `0` for free-to-air.
    pub conditional_access: String,
    /// The program number in the PMT.
    pub service_id: u16,
    pub network_id: u16,
    pub transport_stream_id: u16,
    /// `0` for television.
    pub radio_id: u16,
}

/// The mathematical value of a [`ChannelDefinition`].
pub struct ChannelDefinitionModel {
    pub name: Seq<char>,
    pub short_name: Seq<char>,
    pub bouquet: Seq<char>,
    pub frequency: u32,
    pub parameters: Parameters,
    pub source: Seq<char>,
    pub symbol_rate: u32,
    pub video_pid: VideoPID,
    pub audio_pid: AudioPIDListModel,
    pub teletext_pid: TeletextPIDListModel,
    pub conditional_access: Seq<char>,
    pub service_id: u16,
    pub network_id: u16,
    pub transport_stream_id: u16,
    pub radio_id: u16,
}

impl View for ChannelDefinition {
    type V = ChannelDefinitionModel;

    open spec fn view(&self) -> ChannelDefinitionModel {
        ChannelDefinitionModel {
            name: self.name@,
            short_name: self.short_name@,
            bouquet: self.bouquet@,
            frequency: self.frequency,
            parameters: self.parameters,
            source: self.source@,
            symbol_rate: self.symbol_rate,
            video_pid: self.video_pid,
            audio_pid: self.audio_pid@,
            teletext_pid: self.teletext_pid@,
            conditional_access: self.conditional_access@,
            service_id: self.service_id,
            network_id: self.network_id,
            transport_stream_id: self.transport_stream_id,
            radio_id: self.radio_id,
        }
    }
}

/// The channel name with every `|` put back as `:`; the separator of
/// the list cannot appear raw inside a name.
pub open spec fn spec_unescape_name(s: Seq<char>) -> Seq<char> {
    s.map_values(|c: char| if c == '|' { ':' } else { c })
}

/// The channel name with every `:` written as `|`.
pub open spec fn spec_escape_name(s: Seq<char>) -> Seq<char> {
    s.map_values(|c: char| if c == ':' { '|' } else { c })
}

/// The name, short name and bouquet taken from the first column: the
/// bouquet follows the last `;`, the short name follows the last `,`
/// of what remains, and `|` in the name stands for `:`.
pub open spec fn spec_names(names: Seq<char>) -> (Seq<char>, Seq<char>, Seq<char>) {
    let semi = spec_rfind_char(names, ';');
    let rest = if semi >= 0 { names.take(semi) } else { names };
    let bouquet = if semi >= 0 { names.skip(semi + 1) } else { Seq::<char>::empty() };
    let comma = spec_rfind_char(rest, ',');
    let raw_name = if comma >= 0 { rest.take(comma) } else { rest };
    let short_name = if comma >= 0 { rest.skip(comma + 1) } else { Seq::<char>::empty() };
    (spec_unescape_name(raw_name), short_name, bouquet)
}

/// What [`ChannelDefinition::from_str`] parses: thirteen colon-separated
/// columns, the first carrying the names, the others the channel's
/// numbers and typed columns in a fixed order. Extra columns are
/// ignored.
pub open spec fn spec_channel_definition_str(line: Seq<char>) -> Result<
    ChannelDefinitionModel,
    VdrParseError,
> {
    let cols = spec_split(line, ':');
    if cols.len() < 13 {
        Err(VdrParseError::MissingColumn)
    } else {
        match spec_parse_u32(cols[1]) {
            Err(e) => Err(e),
            Ok(frequency) => match spec_parameters_str(cols[2]) {
                Err(e) => Err(e),
                Ok(parameters) => match spec_parse_u32(cols[4]) {
                    Err(e) => Err(e),
                    Ok(symbol_rate) => match spec_video_pid_str(cols[5]) {
                        Err(e) => Err(e),
                        Ok(video_pid) => match spec_audio_pid_list_str(cols[6]) {
                            Err(e) => Err(e),
                            Ok(audio_pid) => match spec_teletext_list_str(cols[7]) {
                                Err(e) => Err(e),
                                Ok(teletext_pid) => match spec_parse_u16(cols[9]) {
                                    Err(e) => Err(e),
                                    Ok(service_id) => match spec_parse_u16(cols[10]) {
                                        Err(e) => Err(e),
                                        Ok(network_id) => match spec_parse_u16(cols[11]) {
                                            Err(e) => Err(e),
                                            Ok(transport_stream_id) => match spec_parse_u16(
                                                cols[12],
                                            ) {
                                                Err(e) => Err(e),
                                                Ok(radio_id) => Ok(ChannelDefinitionModel {
                                                    name: spec_names(cols[0]).0,
                                                    short_name: spec_names(cols[0]).1,
                                                    bouquet: spec_names(cols[0]).2,
                                                    frequency,
                                                    parameters,
                                                    source: cols[3],
                                                    symbol_rate,
                                                    video_pid,
                                                    audio_pid,
                                                    teletext_pid,
                                                    conditional_access: cols[8],
                                                    service_id,
                                                    network_id,
                                                    transport_stream_id,
                                                    radio_id,
                                                }),
                                            },
                                        },
                                    },
                                },
                            },
                        },
                    },
                },
            },
        }
    }
}

impl ChannelDefinition {
    /// Parses one channel list line.
    pub fn from_str(line: &str) -> (r: Result<ChannelDefinition, VdrParseError>)
        ensures
            match r {
                Ok(c) => spec_channel_definition_str(line@) == Ok::<
                    ChannelDefinitionModel,
                    VdrParseError,
                >(c@),
                Err(e) => spec_channel_definition_str(line@) == Err::<
                    ChannelDefinitionModel,
                    VdrParseError,
                >(e),
            },
    {
        let cols = split_str(line, ':');
        let ghost views = seq_view(cols@);
        proof {
            assert(views =~= spec_split(line@, ':'));
        }
        if cols.len() < 13 {
            return Err(VdrParseError::MissingColumn);
        }
        proof {
            assert forall|i: int| 0 <= i < 13 implies views[i] == (#[trigger] cols@[i])@ by {}
        }

        let frequency = match parse_u32(cols[1].as_str()) {
            Ok(v) => v,
            Err(e) => { return Err(e); },
        };
        let parameters = match Parameters::from_str(cols[2].as_str()) {
            Ok(v) => v,
            Err(e) => { return Err(e); },
        };
        let source = cols[3].clone();
        let symbol_rate = match parse_u32(cols[4].as_str()) {
            Ok(v) => v,
            Err(e) => { return Err(e); },
        };
        let video_pid = match VideoPID::from_str(cols[5].as_str()) {
            Ok(v) => v,
            Err(e) => { return Err(e); },
        };
        let audio_pid = match AudioPIDList::from_str(cols[6].as_str()) {
            Ok(v) => v,
            Err(e) => { return Err(e); },
        };
        let teletext_pid = match TeletextPIDList::from_str(cols[7].as_str()) {
            Ok(v) => v,
            Err(e) => { return Err(e); },
        };
        let conditional_access = cols[8].clone();
        let service_id = match parse_u16(cols[9].as_str()) {
            Ok(v) => v,
            Err(e) => { return Err(e); },
        };
        let network_id = match parse_u16(cols[10].as_str()) {
            Ok(v) => v,
            Err(e) => { return Err(e); },
        };
        let transport_stream_id = match parse_u16(cols[11].as_str()) {
            Ok(v) => v,
            Err(e) => { return Err(e); },
        };
        let radio_id = match parse_u16(cols[12].as_str()) {
            Ok(v) => v,
            Err(e) => { return Err(e); },
        };

        // Separate the bouquet, the short name and the name.
        let names = cols[0].as_str();
        let names_len = names.unicode_len();
        let (rest, bouquet) = match rfind_char(names, ';') {
            Some(semi) => {
                let rest = names.substring_char(0, semi);
                let bouquet = names.substring_char(semi + 1, names_len);
                proof {
                    assert(rest@ =~= names@.take(semi as int));
                    assert(bouquet@ =~= names@.skip(semi as int + 1));
                }
                (rest, String::from_str(bouquet))
            },
            None => (names, String::new()),
        };
        let rest_len = rest.unicode_len();
        let (raw_name, short_name) = match rfind_char(rest, ',') {
            Some(comma) => {
                let raw_name = rest.substring_char(0, comma);
                let short_name = rest.substring_char(comma + 1, rest_len);
                proof {
                    assert(raw_name@ =~= rest@.take(comma as int));
                    assert(short_name@ =~= rest@.skip(comma as int + 1));
                }
                (raw_name, String::from_str(short_name))
            },
            None => (rest, String::new()),
        };

        // Replacement characters: a name may carry the column
        // separator only escaped.
        let raw_chars = str_chars(raw_name);
        let mut name_chars: Vec<char> = Vec::new();
        let mut i: usize = 0;
        while i < raw_chars.len()
            invariant
                i <= raw_chars@.len(),
                raw_chars@ == raw_name@,
                name_chars@ == spec_unescape_name(raw_name@.take(i as int)),
            decreases raw_chars@.len() - i,
        {
            let c = raw_chars[i];
            name_chars.push(if c == '|' { ':' } else { c });
            proof {
                assert(spec_unescape_name(raw_name@.take(i as int + 1)) =~= spec_unescape_name(
                    raw_name@.take(i as int),
                ).push(if raw_name@[i as int] == '|' { ':' } else { raw_name@[i as int] }));
            }
            i = i + 1;
        }
        proof {
            assert(raw_name@.take(raw_name@.len() as int) =~= raw_name@);
        }
        let name = crate::utils::chars_to_string(&name_chars);

        Ok(ChannelDefinition {
            name,
            short_name,
            bouquet,
            frequency,
            parameters,
            source,
            symbol_rate,
            video_pid,
            audio_pid,
            teletext_pid,
            conditional_access,
            service_id,
            network_id,
            transport_stream_id,
            radio_id,
        })
    }
}

/// What the name column of a written line holds.
pub open spec fn spec_name_column(m: ChannelDefinitionModel) -> Seq<char> {
    let name = if m.name.len() > 0 { spec_escape_name(m.name) } else { "<empty>"@ };
    if m.short_name.len() == 0 && m.bouquet.len() == 0 {
        name
    } else if m.short_name.len() == 0 {
        name + ";"@ + m.bouquet
    } else if m.bouquet.len() == 0 {
        name + ","@ + m.short_name
    } else {
        name + ","@ + m.short_name + ";"@ + m.bouquet
    }
}

/// The first columns of a written line: the names, the frequency, the
/// parameters, the source and the symbol rate.
pub open spec fn spec_cdf_head(m: ChannelDefinitionModel) -> Seq<char> {
    spec_name_column(m) + ":"@ + spec_dec_str(m.frequency as nat) + ":"@
        + spec_parameters_format(m.parameters) + ":"@ + m.source + ":"@ + spec_dec_str(
        m.symbol_rate as nat,
    )
}

/// The middle columns of a written line: the video, audio and
/// teletext PIDs and the conditional access tag.
pub open spec fn spec_cdf_mid(m: ChannelDefinitionModel) -> Seq<char> {
    ":"@ + spec_video_pid_format(m.video_pid) + ":"@ + spec_audio_pid_list_format(m.audio_pid)
        + ":"@ + "0"@ + ":"@ + m.conditional_access
}

/// The trailing columns of a written line: the service, network,
/// transport stream and radio ids.
pub open spec fn spec_cdf_tail(m: ChannelDefinitionModel) -> Seq<char> {
    ":"@ + spec_dec_str(m.service_id as nat) + ":"@ + spec_dec_str(m.network_id as nat) + ":"@
        + spec_dec_str(m.transport_stream_id as nat) + ":"@ + spec_dec_str(m.radio_id as nat)
}

/// What [`ChannelDefinition::format`] writes: the thirteen columns,
/// colon-separated.
pub open spec fn spec_channel_definition_format(m: ChannelDefinitionModel) -> Seq<char> {
    spec_cdf_head(m) + spec_cdf_mid(m) + spec_cdf_tail(m)
}

impl ChannelDefinition {
    /// Writes one channel list line. This library only writes channels
    /// without teletext, subtitles or second language codes.
    #[verifier::rlimit(100)]
    #[verifier::spinoff_prover]
    pub fn format(&self) -> (r: String)
        requires
            self.teletext_pid@.teletext.len() == 0,
            self.teletext_pid@.subtitles.len() == 0,
            forall|i: int|
                0 <= i < self.audio_pid@.regular_pids.len() ==> (#[trigger] self.audio_pid@
                    .regular_pids[i]).second_language_code.len() == 0,
            forall|i: int|
                0 <= i < self.audio_pid@.dolby_pids.len() ==> (#[trigger] self.audio_pid@
                    .dolby_pids[i]).second_language_code.len() == 0,
        ensures
            r@ == spec_channel_definition_format(self@),
    {
        proof {
            reveal_strlit("<empty>");
        }
        let mut out = if self.name.as_str().is_empty() {
            // Just in case the name is empty; no two channels should
            // share a name.
            String::from_str("<empty>")
        } else {
            let raw_chars = str_chars(self.name.as_str());
            let mut name_chars: Vec<char> = Vec::new();
            let mut i: usize = 0;
            while i < raw_chars.len()
                invariant
                    i <= raw_chars@.len(),
                    raw_chars@ == self.name@,
                    name_chars@ == spec_escape_name(self.name@.take(i as int)),
                decreases raw_chars@.len() - i,
            {
                let c = raw_chars[i];
                name_chars.push(if c == ':' { '|' } else { c });
                proof {
                    assert(spec_escape_name(self.name@.take(i as int + 1)) =~= spec_escape_name(
                        self.name@.take(i as int),
                    ).push(if self.name@[i as int] == ':' { '|' } else { self.name@[i as int] }));
                }
                i = i + 1;
            }
            proof {
                assert(self.name@.take(self.name@.len() as int) =~= self.name@);
            }
            crate::utils::chars_to_string(&name_chars)
        };

        if !self.short_name.as_str().is_empty() {
            out.append(",");
            out.append(self.short_name.as_str());
        }
        if !self.bouquet.as_str().is_empty() {
            out.append(";");
            out.append(self.bouquet.as_str());
        }
        proof {
            assert(out@ =~= spec_name_column(self@));
        }

        out.append(":");
        let frequency = format_u32(self.frequency);
        out.append(frequency.as_str());
        out.append(":");
        let parameters = self.parameters.format();
        out.append(parameters.as_str());
        out.append(":");
        out.append(self.source.as_str());
        out.append(":");
        let symbol_rate = format_u32(self.symbol_rate);
        out.append(symbol_rate.as_str());
        let ghost first_half = out@;
        proof {
            assert(first_half =~= spec_cdf_head(self@));
        }
        out.append(":");
        let video_pid = self.video_pid.format();
        out.append(video_pid.as_str());
        out.append(":");
        proof {
            assert forall|i: int|
                0 <= i < self.audio_pid.regular_pids@.len() implies (#[trigger] self.audio_pid
                .regular_pids@[i]).second_language_code@.len() == 0 by {
                assert(self.audio_pid@.regular_pids[i] == self.audio_pid.regular_pids@[i]@);
            }
            assert forall|i: int|
                0 <= i < self.audio_pid.dolby_pids@.len() implies (#[trigger] self.audio_pid
                .dolby_pids@[i]).second_language_code@.len() == 0 by {
                assert(self.audio_pid@.dolby_pids[i] == self.audio_pid.dolby_pids@[i]@);
            }
        }
        let audio_pid = self.audio_pid.format();
        out.append(audio_pid.as_str());
        out.append(":");
        proof {
            assert(self.teletext_pid.teletext@ == self.teletext_pid@.teletext);
            assert(seq_view(self.teletext_pid.subtitles@) == self.teletext_pid@.subtitles);
            reveal_strlit("0");
            assert("0"@ =~= seq!['0']);
        }
        let teletext_pid = self.teletext_pid.format();
        out.append(teletext_pid.as_str());
        out.append(":");
        out.append(self.conditional_access.as_str());
        let ghost second_half = out@;
        proof {
            assert(second_half =~= first_half + spec_cdf_mid(self@));
        }
        out.append(":");
        let service_id = format_u32(self.service_id as u32);
        out.append(service_id.as_str());
        out.append(":");
        let network_id = format_u32(self.network_id as u32);
        out.append(network_id.as_str());
        out.append(":");
        let transport_stream_id = format_u32(self.transport_stream_id as u32);
        out.append(transport_stream_id.as_str());
        out.append(":");
        let radio_id = format_u32(self.radio_id as u32);
        out.append(radio_id.as_str());

        proof {
            assert(out@ =~= second_half + spec_cdf_tail(self@));
            assert(out@ =~= spec_channel_definition_format(self@));
        }
        out
    }
}

//
// -----

/// Which channel list lines are parsed: empty lines, comments starting
/// with `#`, and group lines starting with `:` are skipped; every
/// other line must be a channel definition.
pub open spec fn spec_channel_list(pieces: Seq<Seq<char>>) -> Result<
    Seq<ChannelDefinitionModel>,
    VdrParseError,
>
    decreases pieces.len(),
{
    if pieces.len() == 0 {
        Ok(Seq::empty())
    } else if pieces[0].len() == 0 || pieces[0][0] == '#' || pieces[0][0] == ':' {
        spec_channel_list(pieces.skip(1))
    } else {
        match spec_channel_definition_str(pieces[0]) {
            Err(e) => Err(e),
            Ok(c) => match spec_channel_list(pieces.skip(1)) {
                Ok(rest) => Ok(seq![c] + rest),
                Err(e) => Err(e),
            },
        }
    }
}

/// Parses an entire VDR channel list, one line per channel.
#[verifier::rlimit(100)]
#[verifier::spinoff_prover]
pub fn from_list_str(s: &str) -> (r: Result<Vec<ChannelDefinition>, VdrParseError>)
    ensures
        match r {
            Ok(cs) => spec_channel_list(spec_split(s@, '\n')) == Ok::<
                Seq<ChannelDefinitionModel>,
                VdrParseError,
            >(seq_view(cs@)),
            Err(e) => spec_channel_list(spec_split(s@, '\n')) == Err::<
                Seq<ChannelDefinitionModel>,
                VdrParseError,
            >(e),
        },
{
    let lines = split_str(s, '\n');
    let ghost views = seq_view(lines@);
    let mut channels: Vec<ChannelDefinition> = Vec::new();

    proof {
        assert(views.skip(0) =~= views);
        assert(seq_view(channels@) =~= Seq::<ChannelDefinitionModel>::empty());
    }

    let mut i: usize = 0;
    while i < lines.len()
        invariant
            i <= lines@.len(),
            views == seq_view(lines@),
            views == spec_split(s@, '\n'),
            match spec_channel_list(views.skip(i as int)) {
                Ok(rest) => spec_channel_list(views) == Ok::<
                    Seq<ChannelDefinitionModel>,
                    VdrParseError,
                >(seq_view(channels@) + rest),
                Err(e) => spec_channel_list(views) == Err::<
                    Seq<ChannelDefinitionModel>,
                    VdrParseError,
                >(e),
            },
        decreases lines@.len() - i,
    {
        proof {
            assert(views.skip(i as int)[0] == views[i as int]);
            assert(views.skip(i as int).skip(1) =~= views.skip(i as int + 1));
            assert(views[i as int] == lines@[i as int]@);
        }
        let line = lines[i].as_str();
        let skip_line = line.is_empty() || line.get_char(0) == '#' || line.get_char(0) == ':';
        if !skip_line {
            let channel = match ChannelDefinition::from_str(line) {
                Ok(c) => c,
                Err(e) => { return Err(e); },
            };
            proof {
                lemma_seq_view_push(channels@, channel);
                match spec_channel_list(views.skip(i as int + 1)) {
                    Ok(rest) => {
                        assert(seq_view(channels@) + (seq![channel@] + rest)
                            =~= seq_view(channels@).push(channel@) + rest);
                    },
                    Err(_) => {},
                }
            }
            channels.push(channel);
        }
        i = i + 1;
    }

    proof {
        assert(views.skip(views.len() as int) =~= Seq::<Seq<char>>::empty());
        assert(seq_view(channels@) + Seq::<ChannelDefinitionModel>::empty()
            =~= seq_view(channels@));
    }
    Ok(channels)
}

//
// -----

/// The source tag of a delivery system; this library writes
/// terrestrial channels.
pub fn system_to_source(system: &FeDeliverySystem) -> (r: &'static str)
    requires
        *system == FeDeliverySystem::DVBT || *system == FeDeliverySystem::DVBT2,
    ensures
        r@ == "T"@,
{
    match system {
        FeDeliverySystem::DVBT => "T",
        FeDeliverySystem::DVBT2 => "T",
        _ => "T",
    }
}

/// The channel list generation letter of a delivery system.
fn system_generation(system: &FeDeliverySystem) -> (r: DeliverySystemGeneration)
    requires
        *system == FeDeliverySystem::DVBT || *system == FeDeliverySystem::DVBT2,
    ensures
        *system == FeDeliverySystem::DVBT ==> r == DeliverySystemGeneration::FirstGeneration,
        *system == FeDeliverySystem::DVBT2 ==> r == DeliverySystemGeneration::SecondGeneration,
{
    match system {
        FeDeliverySystem::DVBT2 => DeliverySystemGeneration::SecondGeneration,
        _ => DeliverySystemGeneration::FirstGeneration,
    }
}

impl ChannelDefinition {
    /// Builds a channel list line from one projected channel.
    pub fn from_channel_information(value: ChannelInformation) -> (r: ChannelDefinition)
        requires
            value.delivery_system == FeDeliverySystem::DVBT || value.delivery_system
                == FeDeliverySystem::DVBT2,
        ensures
            r@.name == value.name@,
            r@.short_name.len() == 0,
            r@.bouquet.len() == 0,
            r@.frequency == value.frequency,
            r@.parameters.bandwidth == Some(bandwidth_letter(value.bandwidth)),
            r@.parameters.delivery_system_generation matches Some(g) && (
            value.delivery_system == FeDeliverySystem::DVBT ==> g
                == DeliverySystemGeneration::FirstGeneration) && (value.delivery_system
                == FeDeliverySystem::DVBT2 ==> g == DeliverySystemGeneration::SecondGeneration),
            r@.source == "T"@,
            r@.symbol_rate == (match value.symbol_rate {
                Some(s) => s,
                None => 0u32,
            }),
            r@.video_pid == value.video_pid,
            r@.audio_pid == value.audio_pid_list@,
            r@.teletext_pid.teletext.len() == 0,
            r@.teletext_pid.subtitles.len() == 0,
            r@.conditional_access == "0"@,
            r@.service_id == value.service_id,
            r@.network_id == value.original_network_id,
            r@.transport_stream_id == value.transport_stream_id,
            r@.radio_id == 0,
    {
        let mut parameters = Parameters::default();
        parameters.bandwidth = Some(bandwidth_letter_exec(value.bandwidth));
        parameters.delivery_system_generation = Some(system_generation(&value.delivery_system));

        let symbol_rate = match value.symbol_rate {
            Some(s) => s,
            None => 0,
        };

        ChannelDefinition {
            name: value.name,
            short_name: String::new(),
            bouquet: String::new(),
            frequency: value.frequency,
            parameters,
            source: String::from_str(system_to_source(&value.delivery_system)),
            symbol_rate,
            video_pid: value.video_pid,
            audio_pid: value.audio_pid_list,
            teletext_pid: TeletextPIDList::empty(),
            conditional_access: {
                proof {
                    reveal_strlit("0");
                }
                String::from_str("0")
            },
            service_id: value.service_id,
            network_id: value.original_network_id,
            transport_stream_id: value.transport_stream_id,
            radio_id: 0,
        }
    }
}

/// The channel list bandwidth letter of a tuning bandwidth.
pub open spec fn bandwidth_letter(
    b: crate::frontend::properties::set::Bandwidth,
) -> parameters::Bandwidth {
    match b {
        crate::frontend::properties::set::Bandwidth::_1_172MHz => parameters::Bandwidth::_1712kHz,
        crate::frontend::properties::set::Bandwidth::_5MHz => parameters::Bandwidth::_5MHz,
        crate::frontend::properties::set::Bandwidth::_6MHz => parameters::Bandwidth::_6Mhz,
        crate::frontend::properties::set::Bandwidth::_7MHz => parameters::Bandwidth::_7MHz,
        crate::frontend::properties::set::Bandwidth::_8MHz => parameters::Bandwidth::_8MHz,
        crate::frontend::properties::set::Bandwidth::_10MHz => parameters::Bandwidth::_10MHz,
    }
}

fn bandwidth_letter_exec(b: crate::frontend::properties::set::Bandwidth) -> (r:
    parameters::Bandwidth)
    ensures
        r == bandwidth_letter(b),
{
    match b {
        crate::frontend::properties::set::Bandwidth::_1_172MHz => parameters::Bandwidth::_1712kHz,
        crate::frontend::properties::set::Bandwidth::_5MHz => parameters::Bandwidth::_5MHz,
        crate::frontend::properties::set::Bandwidth::_6MHz => parameters::Bandwidth::_6Mhz,
        crate::frontend::properties::set::Bandwidth::_7MHz => parameters::Bandwidth::_7MHz,
        crate::frontend::properties::set::Bandwidth::_8MHz => parameters::Bandwidth::_8MHz,
        crate::frontend::properties::set::Bandwidth::_10MHz => parameters::Bandwidth::_10MHz,
    }
}

} // verus!
