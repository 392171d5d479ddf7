//! VDR channel list parsing and writing.

use rdvb::conf::vdr::audio_pid::AudioPIDList;
use rdvb::conf::vdr::parameters::{
    Bandwidth, CodeRate, DeliverySystemGeneration, GuardInterval, Modulation, Parameters, RollOff,
};
use rdvb::conf::vdr::{from_list_str, ChannelDefinition};
use rdvb::error::VdrParseError;

const EXAMPLE: &str = "RTL Television,RTL;RTL World:12187:hC34M2O0S0:S19.2E:27500:163=2:104=deu;106=deu:105:0:12003:1:1089:0";

#[test]
fn parse() {
    let _parsed = ChannelDefinition::from_str(EXAMPLE).unwrap();
}

#[test]
fn parse_fields() {
    let parsed = ChannelDefinition::from_str(EXAMPLE).unwrap();

    assert_eq!(parsed.name, "RTL Television");
    assert_eq!(parsed.short_name, "RTL");
    assert_eq!(parsed.bouquet, "RTL World");
    assert_eq!(parsed.frequency, 12187);
    assert_eq!(parsed.source, "S19.2E");
    assert_eq!(parsed.symbol_rate, 27500);
    assert_eq!(parsed.conditional_access, "0");
    assert_eq!(parsed.service_id, 12003);
    assert_eq!(parsed.network_id, 1);
    assert_eq!(parsed.transport_stream_id, 1089);
    assert_eq!(parsed.radio_id, 0);

    assert_eq!(parsed.video_pid.pcr_pid, 163);
    assert_eq!(parsed.video_pid.video_pid, None);
    assert_eq!(parsed.video_pid.video_mode, 2);

    assert_eq!(parsed.audio_pid.regular_pids.len(), 1);
    assert_eq!(parsed.audio_pid.regular_pids[0].pid, 104);
    assert_eq!(parsed.audio_pid.regular_pids[0].language_code, "deu");
    assert_eq!(parsed.audio_pid.dolby_pids.len(), 1);
    assert_eq!(parsed.audio_pid.dolby_pids[0].pid, 106);
    assert_eq!(parsed.audio_pid.dolby_pids[0].language_code, "deu");

    assert_eq!(parsed.teletext_pid.teletext, vec![105]);
    assert!(parsed.teletext_pid.subtitles.is_empty());
}

#[test]
fn parse_parameters() {
    // The parameter column of the example line, lowercased letter
    // included.
    let params = Parameters::from_str("hC34M2O0S0").unwrap();
    assert!(matches!(params.code_rate_high_priority, Some(CodeRate::_3_4)));
    assert!(matches!(params.modulation, Some(Modulation::Qpsk)));
    assert!(matches!(params.roll_off, Some(RollOff::NoRollOff)));
    assert!(matches!(
        params.delivery_system_generation,
        Some(DeliverySystemGeneration::FirstGeneration)
    ));
    assert!(params.polarization.is_some());
    assert!(params.bandwidth.is_none());

    let terrestrial = Parameters::from_str("B8S1T8G32").unwrap();
    assert!(matches!(terrestrial.bandwidth, Some(Bandwidth::_8MHz)));
    assert!(matches!(
        terrestrial.delivery_system_generation,
        Some(DeliverySystemGeneration::SecondGeneration)
    ));
}

#[test]
fn parameters_round_trip() {
    let text = "B8C23I0M64S1T8";
    let params = Parameters::from_str(text).unwrap();
    assert_eq!(params.format(), text);
}

#[test]
fn parse_errors() {
    assert!(matches!(
        ChannelDefinition::from_str("too:few:columns"),
        Err(VdrParseError::MissingColumn)
    ));
    assert!(matches!(
        ChannelDefinition::from_str("Name:badfreq:B8:T:27500:163:104:105:0:12003:1:1089:0"),
        Err(VdrParseError::IntParse)
    ));
    assert_eq!(Parameters::from_str("B9"), Err(VdrParseError::UnexpectedParameterValue));
    assert_eq!(Parameters::from_str("Z1"), Err(VdrParseError::UnknownParameter));
}

#[test]
fn list_skips_comments_and_groups() {
    let list = format!("# a comment\n\n:a group\n{}\n", EXAMPLE);
    let channels = from_list_str(&list).unwrap();
    assert_eq!(channels.len(), 1);
    assert_eq!(channels[0].name, "RTL Television");
}

#[test]
fn name_escapes_round_trip() {
    let line = "News|24,N24:474166000:B8:T:27500:163=2:104=deu;106:0:0:12003:1:1089:0";
    let parsed = ChannelDefinition::from_str(line).unwrap();
    assert_eq!(parsed.name, "News:24");
    assert_eq!(parsed.short_name, "N24");
    let written = parsed.format();
    assert_eq!(written, line);
}

#[test]
fn audio_column_round_trips() {
    // Regular PIDs alone, with and without language and type.
    let list = AudioPIDList::from_str("104=deu,105@3").unwrap();
    assert_eq!(list.format(), "104=deu,105@3");

    // No regular PIDs: a lone zero, then the Dolby PIDs.
    let list = AudioPIDList::from_str("0;106=deu").unwrap();
    assert_eq!(list.format(), "0;106=deu");
}

#[test]
fn guard_interval_matches_its_letter() {
    // `128` names the 1/128 interval; the long forms name the
    // fractional 19/128 and 19/256 ones.
    let params = Parameters::from_str("G128").unwrap();
    assert!(matches!(params.guard_interval, Some(GuardInterval::_1_128)));
    assert_eq!(params.format(), "G128");

    let params = Parameters::from_str("G19128").unwrap();
    assert!(matches!(params.guard_interval, Some(GuardInterval::_19_128)));
    assert_eq!(params.format(), "G19128");

    let params = Parameters::from_str("G19256").unwrap();
    assert!(matches!(params.guard_interval, Some(GuardInterval::_19_256)));
    assert_eq!(params.format(), "G19256");
}
