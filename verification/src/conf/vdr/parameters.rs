//! The parameter column of a VDR channel definition: a string of
//! letter-introduced groups, each letter carrying the digits that
//! follow it up to the next letter.

use vstd::prelude::*;

use crate::error::VdrParseError;
use crate::utils::{parse_u16, parse_u8, spec_parse_u16, spec_parse_u8, str_chars, str_eq};

verus! {

/// The tuning parameters a channel definition carries; every one is
/// optional.
#[derive(Debug, Copy, Clone, PartialEq, Eq, Structural)]
pub struct Parameters {
    pub bandwidth: Option<Bandwidth>,
    pub code_rate_high_priority: Option<CodeRate>,
    pub code_rate_low_priority: Option<CodeRate>,
    pub guard_interval: Option<GuardInterval>,
    pub polarization: Option<Polarization>,
    pub inversion: Option<bool>,
    pub modulation: Option<Modulation>,
    pub pilot_mode: Option<PilotMode>,
    pub roll_off: Option<RollOff>,
    pub stream_id: Option<u8>,
    pub t2_system_id: Option<u16>,
    pub delivery_system_generation: Option<DeliverySystemGeneration>,
    pub transmission_mode: Option<TransmissionMode>,
    pub input_mode: Option<SingleMultipleInput>,
    pub hierarchy: Option<Hierarchy>,
}

#[derive(Debug, Copy, Clone, PartialEq, Eq, Structural)]
#[allow(non_camel_case_types)]
pub enum Bandwidth {
    _1712kHz,
    _5MHz,
    _6Mhz,
    _7MHz,
    _8MHz,
    _10MHz,
}

#[derive(Debug, Copy, Clone, PartialEq, Eq, Structural)]
#[allow(non_camel_case_types)]
pub enum CodeRate {
    NoHierarchy,
    _1_2,
    _2_3,
    _3_4,
    _3_5,
    _4_5,
    _5_6,
    _6_7,
    _7_8,
    _8_9,
    _9_10,
}

#[derive(Debug, Copy, Clone, PartialEq, Eq, Structural)]
#[allow(non_camel_case_types)]
pub enum GuardInterval {
    _1_4,
    _1_8,
    _1_16,
    _1_32,
    _1_128,
    _19_128,
    _19_256,
}

#[derive(Debug, Copy, Clone, PartialEq, Eq, Structural)]
pub enum Polarization {
    Horizontal,
    Vertical,
    CircularRight,
    CircularLeft,
}

#[derive(Debug, Copy, Clone, PartialEq, Eq, Structural)]
#[allow(non_camel_case_types)]
pub enum Modulation {
    Qpsk,
    _8Psk,
    _16Apsk,
    _32Apsk,
    Vsb8,
    Vsb16,
    Dqpsk,
    Qam16,
    Qam32,
    Qam64,
    Qam128,
    Qam256,
    Auto,
}

#[derive(Debug, Copy, Clone, PartialEq, Eq, Structural)]
pub enum PilotMode {
    Off,
    On,
    Auto,
}

#[derive(Debug, Copy, Clone, PartialEq, Eq, Structural)]
#[allow(non_camel_case_types)]
pub enum RollOff {
    NoRollOff,
    _0_20,
    _0_25,
    _0_35,
}

/// Whether the channel uses a first-generation system (DVB-T, DVB-S)
/// or a second-generation one (DVB-T2, DVB-S2).
#[derive(Debug, Copy, Clone, PartialEq, Eq, Structural)]
pub enum DeliverySystemGeneration {
    /// DVB-T, DVB-S.
    FirstGeneration,
    /// DVB-T2, DVB-S2.
    SecondGeneration,
}

#[derive(Debug, Copy, Clone, PartialEq, Eq, Structural)]
#[allow(non_camel_case_types)]
pub enum TransmissionMode {
    _1k,
    _2k,
    _4k,
    _8k,
    _16k,
    _32k,
}

#[derive(Debug, Copy, Clone, PartialEq, Eq, Structural)]
pub enum SingleMultipleInput {
    /// Single-Input Single-Output (SISO).
    SingleInput,
    /// Multiple-Input Single-Output (MISO).
    MultipleInput,
}

#[derive(Debug, Copy, Clone, PartialEq, Eq, Structural)]
#[allow(non_camel_case_types)]
pub enum Hierarchy {
    Off,
    TwoStreams,
    _2,
    _4,
}

/// A parameter string with nothing set.
pub open spec fn spec_parameters_none() -> Parameters {
    Parameters {
        bandwidth: None,
        code_rate_high_priority: None,
        code_rate_low_priority: None,
        guard_interval: None,
        polarization: None,
        inversion: None,
        modulation: None,
        pilot_mode: None,
        roll_off: None,
        stream_id: None,
        t2_system_id: None,
        delivery_system_generation: None,
        transmission_mode: None,
        input_mode: None,
        hierarchy: None,
    }
}

impl Default for Parameters {
    /// No parameter set.
    fn default() -> (r: Parameters)
        ensures
            r == spec_parameters_none(),
    {
        Parameters {
            bandwidth: None,
            code_rate_high_priority: None,
            code_rate_low_priority: None,
            guard_interval: None,
            polarization: None,
            inversion: None,
            modulation: None,
            pilot_mode: None,
            roll_off: None,
            stream_id: None,
            t2_system_id: None,
            delivery_system_generation: None,
            transmission_mode: None,
            input_mode: None,
            hierarchy: None,
        }
    }
}

//
// ----- Grouping the parameter string

/// ASCII uppercasing of one character; parameter strings are ASCII.
pub open spec fn spec_ascii_upper(c: char) -> char {
    if 'a' <= c && c <= 'z' {
        ((c as u32) - 32) as char
    } else {
        c
    }
}

/// ASCII uppercasing of a whole string.
pub open spec fn spec_upper(s: Seq<char>) -> Seq<char> {
    s.map_values(|c: char| spec_ascii_upper(c))
}

fn ascii_upper(c: char) -> (r: char)
    ensures
        r == spec_ascii_upper(c),
{
    if 'a' <= c && c <= 'z' {
        (((c as u32) - 32) as u8) as char
    } else {
        c
    }
}

/// An ASCII uppercase letter, which introduces a new parameter group.
pub open spec fn spec_is_upper(c: char) -> bool {
    'A' <= c && c <= 'Z'
}

/// The first position at or after `from` holding an ASCII uppercase
/// letter, or the length when there is none.
pub open spec fn spec_find_upper_from(s: Seq<char>, from: int) -> int
    decreases s.len() - from,
{
    if from < 0 || from >= s.len() {
        s.len() as int
    } else if spec_is_upper(s[from]) {
        from
    } else {
        spec_find_upper_from(s, from + 1)
    }
}

pub proof fn lemma_find_upper_from(s: Seq<char>, from: int)
    requires
        0 <= from <= s.len(),
    ensures
        from <= spec_find_upper_from(s, from) <= s.len(),
        spec_find_upper_from(s, from) < s.len() ==> spec_is_upper(
            s[spec_find_upper_from(s, from)],
        ),
        forall|j: int| from <= j < spec_find_upper_from(s, from) ==> !spec_is_upper(s[j]),
    decreases s.len() - from,
{
    if from < s.len() && !spec_is_upper(s[from]) {
        lemma_find_upper_from(s, from + 1);
    }
}

/// The groups of an uppercased parameter string: each group starts at
/// its introducing character and carries the characters up to the next
/// ASCII uppercase letter.
pub open spec fn spec_groups(s: Seq<char>) -> Seq<(char, Seq<char>)>
    decreases s.len(),
{
    if s.len() == 0 {
        Seq::empty()
    } else {
        let j0 = spec_find_upper_from(s, 1);
        let j = if j0 < 1 {
            1int
        } else if j0 > s.len() {
            s.len() as int
        } else {
            j0
        };
        seq![(s[0], s.subrange(1, j))] + spec_groups(s.skip(j))
    }
}

/// The views of the letter/data pairs a grouping returns.
pub open spec fn spec_group_views(s: Seq<(char, String)>) -> Seq<(char, Seq<char>)> {
    s.map_values(|g: (char, String)| (g.0, g.1@))
}

impl Parameters {
    /// Cuts an uppercased parameter string into letter-introduced
    /// groups.
    pub fn group_params(s: &str) -> (r: Vec<(char, String)>)
        ensures
            spec_group_views(r@) == spec_groups(spec_upper(s@)),
    {
        let lower = str_chars(s);
        let mut chars: Vec<char> = Vec::new();
        let mut i: usize = 0;
        while i < lower.len()
            invariant
                i <= lower@.len(),
                lower@ == s@,
                chars@ == spec_upper(s@.take(i as int)),
            decreases lower@.len() - i,
        {
            chars.push(ascii_upper(lower[i]));
            proof {
                assert(spec_upper(s@.take(i as int + 1)) =~= spec_upper(
                    s@.take(i as int),
                ).push(spec_ascii_upper(s@[i as int])));
            }
            i = i + 1;
        }
        proof {
            assert(s@.take(s@.len() as int) =~= s@);
        }
        let ghost full = spec_upper(s@);
        proof {
            assert(full.skip(0) =~= full);
        }

        let mut groups: Vec<(char, String)> = Vec::new();
        proof {
            assert(spec_group_views(groups@) =~= Seq::<(char, Seq<char>)>::empty());
            assert(spec_group_views(groups@) + spec_groups(full) =~= spec_groups(full));
        }
        let mut pos: usize = 0;
        while pos < chars.len()
            invariant
                pos <= chars@.len(),
                chars@ == full,
                spec_groups(full) == spec_group_views(groups@) + spec_groups(
                    full.skip(pos as int),
                ),
            decreases chars@.len() - pos,
        {
            let ghost rem = full.skip(pos as int);
            // Find the start of the next group.
            let mut j: usize = pos + 1;
            while j < chars.len() && !(chars[j] >= 'A' && chars[j] <= 'Z')
                invariant
                    pos + 1 <= j <= chars@.len(),
                    chars@ == full,
                    spec_find_upper_from(full, pos as int + 1) == spec_find_upper_from(
                        full,
                        j as int,
                    ),
                decreases chars@.len() - j,
            {
                j = j + 1;
            }
            proof {
                assert(spec_find_upper_from(full, j as int) == j as int || j == full.len());
                assert(spec_find_upper_from(full, pos as int + 1) == j as int);
                lemma_find_upper_from(full, pos as int + 1);
            }

            let mut data_chars: Vec<char> = Vec::new();
            let mut k: usize = pos + 1;
            while k < j
                invariant
                    pos + 1 <= k <= j <= chars@.len(),
                    chars@ == full,
                    data_chars@ == full.subrange(pos as int + 1, k as int),
                decreases j - k,
            {
                data_chars.push(chars[k]);
                proof {
                    assert(full.subrange(pos as int + 1, k as int + 1) =~= full.subrange(
                        pos as int + 1,
                        k as int,
                    ).push(full[k as int]));
                }
                k = k + 1;
            }
            let data = crate::utils::chars_to_string(&data_chars);
            let entry = (chars[pos], data);

            proof {
                let j0 = spec_find_upper_from(rem, 1);
                assert forall|d: int| 1 <= d <= rem.len() implies spec_find_upper_from(rem, d)
                    == spec_find_upper_from(full, pos + d) - pos by {
                    lemma_find_upper_shift(full, pos as int, d);
                }
                assert(j0 == j - pos);
                assert(rem.subrange(1, j - pos as int) =~= full.subrange(
                    pos as int + 1,
                    j as int,
                ));
                assert(rem.skip(j - pos as int) =~= full.skip(j as int));
                assert(rem[0] == full[pos as int]);
                assert(spec_group_views(groups@.push(entry)) =~= spec_group_views(
                    groups@,
                ).push((entry.0, entry.1@)));
                assert(spec_group_views(groups@) + (seq![(rem[0], rem.subrange(1, j - pos as int))]
                    + spec_groups(full.skip(j as int))) =~= spec_group_views(groups@).push(
                    (entry.0, entry.1@),
                ) + spec_groups(full.skip(j as int)));
            }
            groups.push(entry);
            pos = j;
        }
        proof {
            assert(full.skip(full.len() as int) =~= Seq::<char>::empty());
            assert(spec_groups(Seq::<char>::empty()) =~= Seq::<(char, Seq<char>)>::empty());
            assert(spec_group_views(groups@) + Seq::<(char, Seq<char>)>::empty()
                =~= spec_group_views(groups@));
        }
        groups
    }
}

proof fn lemma_find_upper_shift(full: Seq<char>, pos: int, d: int)
    requires
        0 <= pos,
        1 <= d <= full.len() - pos,
    ensures
        spec_find_upper_from(full.skip(pos), d) == spec_find_upper_from(full, pos + d) - pos,
    decreases full.len() - pos - d,
{
    let rem = full.skip(pos);
    if d < rem.len() {
        assert(rem[d] == full[pos + d]);
        if !spec_is_upper(rem[d]) {
            lemma_find_upper_shift(full, pos, d + 1);
        }
    }
}

//
// ----- Applying groups

/// What one letter group does to the parameters being built.
pub open spec fn spec_apply_group(p: Parameters, letter: char, data: Seq<char>) -> Result<
    Parameters,
    VdrParseError,
> {
    if letter == 'B' {
        if data == "1712"@ { Ok(Parameters { bandwidth: Some(Bandwidth::_1712kHz), ..p }) }
        else if data == "5"@ { Ok(Parameters { bandwidth: Some(Bandwidth::_5MHz), ..p }) }
        else if data == "6"@ { Ok(Parameters { bandwidth: Some(Bandwidth::_6Mhz), ..p }) }
        else if data == "7"@ { Ok(Parameters { bandwidth: Some(Bandwidth::_7MHz), ..p }) }
        else if data == "8"@ { Ok(Parameters { bandwidth: Some(Bandwidth::_8MHz), ..p }) }
        else if data == "10"@ { Ok(Parameters { bandwidth: Some(Bandwidth::_10MHz), ..p }) }
        else { Err(VdrParseError::UnexpectedParameterValue) }
    } else if letter == 'C' {
        match spec_code_rate(data) {
            Some(c) => Ok(Parameters { code_rate_high_priority: Some(c), ..p }),
            None => Err(VdrParseError::UnexpectedParameterValue),
        }
    } else if letter == 'D' {
        match spec_code_rate(data) {
            Some(c) => Ok(Parameters { code_rate_low_priority: Some(c), ..p }),
            None => Err(VdrParseError::UnexpectedParameterValue),
        }
    } else if letter == 'G' {
        if data == "4"@ { Ok(Parameters { guard_interval: Some(GuardInterval::_1_4), ..p }) }
        else if data == "8"@ { Ok(Parameters { guard_interval: Some(GuardInterval::_1_8), ..p }) }
        else if data == "16"@ { Ok(Parameters { guard_interval: Some(GuardInterval::_1_16), ..p }) }
        else if data == "32"@ { Ok(Parameters { guard_interval: Some(GuardInterval::_1_32), ..p }) }
        else if data == "128"@ { Ok(Parameters { guard_interval: Some(GuardInterval::_1_128), ..p }) }
        else if data == "19128"@ { Ok(Parameters { guard_interval: Some(GuardInterval::_19_128), ..p }) }
        else if data == "19256"@ { Ok(Parameters { guard_interval: Some(GuardInterval::_19_256), ..p }) }
        else { Err(VdrParseError::UnexpectedParameterValue) }
    } else if letter == 'H' {
        Ok(Parameters { polarization: Some(Polarization::Horizontal), ..p })
    } else if letter == 'I' {
        if data == "0"@ { Ok(Parameters { inversion: Some(false), ..p }) }
        else if data == "1"@ { Ok(Parameters { inversion: Some(true), ..p }) }
        else { Err(VdrParseError::UnexpectedParameterValue) }
    } else if letter == 'L' {
        Ok(Parameters { polarization: Some(Polarization::CircularLeft), ..p })
    } else if letter == 'M' {
        match spec_modulation(data) {
            Some(m) => Ok(Parameters { modulation: Some(m), ..p }),
            None => Err(VdrParseError::UnexpectedParameterValue),
        }
    } else if letter == 'N' {
        if data == "0"@ { Ok(Parameters { pilot_mode: Some(PilotMode::Off), ..p }) }
        else if data == "1"@ { Ok(Parameters { pilot_mode: Some(PilotMode::On), ..p }) }
        else if data == "999"@ { Ok(Parameters { pilot_mode: Some(PilotMode::Auto), ..p }) }
        else { Err(VdrParseError::UnexpectedParameterValue) }
    } else if letter == 'O' {
        if data == "0"@ { Ok(Parameters { roll_off: Some(RollOff::NoRollOff), ..p }) }
        else if data == "20"@ { Ok(Parameters { roll_off: Some(RollOff::_0_20), ..p }) }
        else if data == "25"@ { Ok(Parameters { roll_off: Some(RollOff::_0_25), ..p }) }
        else if data == "35"@ { Ok(Parameters { roll_off: Some(RollOff::_0_35), ..p }) }
        else { Err(VdrParseError::UnexpectedParameterValue) }
    } else if letter == 'P' {
        match spec_parse_u8(data) {
            Ok(v) => Ok(Parameters { stream_id: Some(v), ..p }),
            Err(e) => Err(e),
        }
    } else if letter == 'Q' {
        match spec_parse_u16(data) {
            Ok(v) => Ok(Parameters { t2_system_id: Some(v), ..p }),
            Err(e) => Err(e),
        }
    } else if letter == 'R' {
        Ok(Parameters { polarization: Some(Polarization::CircularRight), ..p })
    } else if letter == 'S' {
        if data == "0"@ {
            Ok(Parameters {
                delivery_system_generation: Some(DeliverySystemGeneration::FirstGeneration),
                ..p
            })
        } else if data == "1"@ {
            Ok(Parameters {
                delivery_system_generation: Some(DeliverySystemGeneration::SecondGeneration),
                ..p
            })
        } else {
            Err(VdrParseError::UnexpectedParameterValue)
        }
    } else if letter == 'T' {
        if data == "1"@ { Ok(Parameters { transmission_mode: Some(TransmissionMode::_1k), ..p }) }
        else if data == "2"@ { Ok(Parameters { transmission_mode: Some(TransmissionMode::_2k), ..p }) }
        else if data == "4"@ { Ok(Parameters { transmission_mode: Some(TransmissionMode::_4k), ..p }) }
        else if data == "8"@ { Ok(Parameters { transmission_mode: Some(TransmissionMode::_8k), ..p }) }
        else if data == "16"@ { Ok(Parameters { transmission_mode: Some(TransmissionMode::_16k), ..p }) }
        else if data == "32"@ { Ok(Parameters { transmission_mode: Some(TransmissionMode::_32k), ..p }) }
        else { Err(VdrParseError::UnexpectedParameterValue) }
    } else if letter == 'V' {
        Ok(Parameters { polarization: Some(Polarization::Vertical), ..p })
    } else if letter == 'X' {
        if data == "0"@ { Ok(Parameters { input_mode: Some(SingleMultipleInput::SingleInput), ..p }) }
        else if data == "1"@ { Ok(Parameters { input_mode: Some(SingleMultipleInput::MultipleInput), ..p }) }
        else { Err(VdrParseError::UnexpectedParameterValue) }
    } else if letter == 'Y' {
        if data == "0"@ { Ok(Parameters { hierarchy: Some(Hierarchy::Off), ..p }) }
        else if data == "1"@ { Ok(Parameters { hierarchy: Some(Hierarchy::TwoStreams), ..p }) }
        else if data == "2"@ { Ok(Parameters { hierarchy: Some(Hierarchy::_2), ..p }) }
        else if data == "4"@ { Ok(Parameters { hierarchy: Some(Hierarchy::_4), ..p }) }
        else { Err(VdrParseError::UnexpectedParameterValue) }
    } else {
        Err(VdrParseError::UnknownParameter)
    }
}

/// The code rate a `C` or `D` group names.
pub open spec fn spec_code_rate(data: Seq<char>) -> Option<CodeRate> {
    if data == "0"@ { Some(CodeRate::NoHierarchy) }
    else if data == "12"@ { Some(CodeRate::_1_2) }
    else if data == "23"@ { Some(CodeRate::_2_3) }
    else if data == "34"@ { Some(CodeRate::_3_4) }
    else if data == "45"@ { Some(CodeRate::_4_5) }
    else if data == "56"@ { Some(CodeRate::_5_6) }
    else if data == "67"@ { Some(CodeRate::_6_7) }
    else if data == "78"@ { Some(CodeRate::_7_8) }
    else if data == "89"@ { Some(CodeRate::_8_9) }
    else if data == "910"@ { Some(CodeRate::_9_10) }
    else { None }
}

/// The modulation an `M` group names.
pub open spec fn spec_modulation(data: Seq<char>) -> Option<Modulation> {
    if data == "2"@ { Some(Modulation::Qpsk) }
    else if data == "5"@ { Some(Modulation::_8Psk) }
    else if data == "6"@ { Some(Modulation::_16Apsk) }
    else if data == "7"@ { Some(Modulation::_32Apsk) }
    else if data == "10"@ { Some(Modulation::Vsb8) }
    else if data == "11"@ { Some(Modulation::Vsb16) }
    else if data == "12"@ { Some(Modulation::Dqpsk) }
    else if data == "16"@ { Some(Modulation::Qam16) }
    else if data == "32"@ { Some(Modulation::Qam32) }
    else if data == "64"@ { Some(Modulation::Qam64) }
    else if data == "128"@ { Some(Modulation::Qam128) }
    else if data == "256"@ { Some(Modulation::Qam256) }
    else if data == "999"@ { Some(Modulation::Auto) }
    else { None }
}

/// The parameters left after applying a run of groups in order.
pub open spec fn spec_apply_groups(p: Parameters, gs: Seq<(char, Seq<char>)>) -> Result<
    Parameters,
    VdrParseError,
>
    decreases gs.len(),
{
    if gs.len() == 0 {
        Ok(p)
    } else {
        match spec_apply_group(p, gs[0].0, gs[0].1) {
            Err(e) => Err(e),
            Ok(p2) => spec_apply_groups(p2, gs.skip(1)),
        }
    }
}

/// What [`Parameters::from_str`] parses: the string is uppercased,
/// grouped by its letters, and each group sets its parameter.
pub open spec fn spec_parameters_str(s: Seq<char>) -> Result<Parameters, VdrParseError> {
    spec_apply_groups(spec_parameters_none(), spec_groups(spec_upper(s)))
}

fn apply_group(p: Parameters, letter: char, data: &String) -> (r: Result<
    Parameters,
    VdrParseError,
>)
    ensures
        r == spec_apply_group(p, letter, data@),
{
    let d = data.as_str();
    if letter == 'B' {
        if str_eq(d, "1712") { Ok(Parameters { bandwidth: Some(Bandwidth::_1712kHz), ..p }) }
        else if str_eq(d, "5") { Ok(Parameters { bandwidth: Some(Bandwidth::_5MHz), ..p }) }
        else if str_eq(d, "6") { Ok(Parameters { bandwidth: Some(Bandwidth::_6Mhz), ..p }) }
        else if str_eq(d, "7") { Ok(Parameters { bandwidth: Some(Bandwidth::_7MHz), ..p }) }
        else if str_eq(d, "8") { Ok(Parameters { bandwidth: Some(Bandwidth::_8MHz), ..p }) }
        else if str_eq(d, "10") { Ok(Parameters { bandwidth: Some(Bandwidth::_10MHz), ..p }) }
        else { Err(VdrParseError::UnexpectedParameterValue) }
    } else if letter == 'C' {
        match code_rate(d) {
            Some(c) => Ok(Parameters { code_rate_high_priority: Some(c), ..p }),
            None => Err(VdrParseError::UnexpectedParameterValue),
        }
    } else if letter == 'D' {
        match code_rate(d) {
            Some(c) => Ok(Parameters { code_rate_low_priority: Some(c), ..p }),
            None => Err(VdrParseError::UnexpectedParameterValue),
        }
    } else if letter == 'G' {
        if str_eq(d, "4") { Ok(Parameters { guard_interval: Some(GuardInterval::_1_4), ..p }) }
        else if str_eq(d, "8") { Ok(Parameters { guard_interval: Some(GuardInterval::_1_8), ..p }) }
        else if str_eq(d, "16") { Ok(Parameters { guard_interval: Some(GuardInterval::_1_16), ..p }) }
        else if str_eq(d, "32") { Ok(Parameters { guard_interval: Some(GuardInterval::_1_32), ..p }) }
        else if str_eq(d, "128") { Ok(Parameters { guard_interval: Some(GuardInterval::_1_128), ..p }) }
        else if str_eq(d, "19128") { Ok(Parameters { guard_interval: Some(GuardInterval::_19_128), ..p }) }
        else if str_eq(d, "19256") { Ok(Parameters { guard_interval: Some(GuardInterval::_19_256), ..p }) }
        else { Err(VdrParseError::UnexpectedParameterValue) }
    } else if letter == 'H' {
        Ok(Parameters { polarization: Some(Polarization::Horizontal), ..p })
    } else if letter == 'I' {
        if str_eq(d, "0") { Ok(Parameters { inversion: Some(false), ..p }) }
        else if str_eq(d, "1") { Ok(Parameters { inversion: Some(true), ..p }) }
        else { Err(VdrParseError::UnexpectedParameterValue) }
    } else if letter == 'L' {
        Ok(Parameters { polarization: Some(Polarization::CircularLeft), ..p })
    } else if letter == 'M' {
        match modulation(d) {
            Some(m) => Ok(Parameters { modulation: Some(m), ..p }),
            None => Err(VdrParseError::UnexpectedParameterValue),
        }
    } else if letter == 'N' {
        if str_eq(d, "0") { Ok(Parameters { pilot_mode: Some(PilotMode::Off), ..p }) }
        else if str_eq(d, "1") { Ok(Parameters { pilot_mode: Some(PilotMode::On), ..p }) }
        else if str_eq(d, "999") { Ok(Parameters { pilot_mode: Some(PilotMode::Auto), ..p }) }
        else { Err(VdrParseError::UnexpectedParameterValue) }
    } else if letter == 'O' {
        if str_eq(d, "0") { Ok(Parameters { roll_off: Some(RollOff::NoRollOff), ..p }) }
        else if str_eq(d, "20") { Ok(Parameters { roll_off: Some(RollOff::_0_20), ..p }) }
        else if str_eq(d, "25") { Ok(Parameters { roll_off: Some(RollOff::_0_25), ..p }) }
        else if str_eq(d, "35") { Ok(Parameters { roll_off: Some(RollOff::_0_35), ..p }) }
        else { Err(VdrParseError::UnexpectedParameterValue) }
    } else if letter == 'P' {
        match parse_u8(d) {
            Ok(v) => Ok(Parameters { stream_id: Some(v), ..p }),
            Err(e) => Err(e),
        }
    } else if letter == 'Q' {
        match parse_u16(d) {
            Ok(v) => Ok(Parameters { t2_system_id: Some(v), ..p }),
            Err(e) => Err(e),
        }
    } else if letter == 'R' {
        Ok(Parameters { polarization: Some(Polarization::CircularRight), ..p })
    } else if letter == 'S' {
        if str_eq(d, "0") {
            Ok(Parameters {
                delivery_system_generation: Some(DeliverySystemGeneration::FirstGeneration),
                ..p
            })
        } else if str_eq(d, "1") {
            Ok(Parameters {
                delivery_system_generation: Some(DeliverySystemGeneration::SecondGeneration),
                ..p
            })
        } else {
            Err(VdrParseError::UnexpectedParameterValue)
        }
    } else if letter == 'T' {
        if str_eq(d, "1") { Ok(Parameters { transmission_mode: Some(TransmissionMode::_1k), ..p }) }
        else if str_eq(d, "2") { Ok(Parameters { transmission_mode: Some(TransmissionMode::_2k), ..p }) }
        else if str_eq(d, "4") { Ok(Parameters { transmission_mode: Some(TransmissionMode::_4k), ..p }) }
        else if str_eq(d, "8") { Ok(Parameters { transmission_mode: Some(TransmissionMode::_8k), ..p }) }
        else if str_eq(d, "16") { Ok(Parameters { transmission_mode: Some(TransmissionMode::_16k), ..p }) }
        else if str_eq(d, "32") { Ok(Parameters { transmission_mode: Some(TransmissionMode::_32k), ..p }) }
        else { Err(VdrParseError::UnexpectedParameterValue) }
    } else if letter == 'V' {
        Ok(Parameters { polarization: Some(Polarization::Vertical), ..p })
    } else if letter == 'X' {
        if str_eq(d, "0") { Ok(Parameters { input_mode: Some(SingleMultipleInput::SingleInput), ..p }) }
        else if str_eq(d, "1") { Ok(Parameters { input_mode: Some(SingleMultipleInput::MultipleInput), ..p }) }
        else { Err(VdrParseError::UnexpectedParameterValue) }
    } else if letter == 'Y' {
        if str_eq(d, "0") { Ok(Parameters { hierarchy: Some(Hierarchy::Off), ..p }) }
        else if str_eq(d, "1") { Ok(Parameters { hierarchy: Some(Hierarchy::TwoStreams), ..p }) }
        else if str_eq(d, "2") { Ok(Parameters { hierarchy: Some(Hierarchy::_2), ..p }) }
        else if str_eq(d, "4") { Ok(Parameters { hierarchy: Some(Hierarchy::_4), ..p }) }
        else { Err(VdrParseError::UnexpectedParameterValue) }
    } else {
        Err(VdrParseError::UnknownParameter)
    }
}

fn code_rate(d: &str) -> (r: Option<CodeRate>)
    ensures
        r == spec_code_rate(d@),
{
    if str_eq(d, "0") { Some(CodeRate::NoHierarchy) }
    else if str_eq(d, "12") { Some(CodeRate::_1_2) }
    else if str_eq(d, "23") { Some(CodeRate::_2_3) }
    else if str_eq(d, "34") { Some(CodeRate::_3_4) }
    else if str_eq(d, "45") { Some(CodeRate::_4_5) }
    else if str_eq(d, "56") { Some(CodeRate::_5_6) }
    else if str_eq(d, "67") { Some(CodeRate::_6_7) }
    else if str_eq(d, "78") { Some(CodeRate::_7_8) }
    else if str_eq(d, "89") { Some(CodeRate::_8_9) }
    else if str_eq(d, "910") { Some(CodeRate::_9_10) }
    else { None }
}

fn modulation(d: &str) -> (r: Option<Modulation>)
    ensures
        r == spec_modulation(d@),
{
    if str_eq(d, "2") { Some(Modulation::Qpsk) }
    else if str_eq(d, "5") { Some(Modulation::_8Psk) }
    else if str_eq(d, "6") { Some(Modulation::_16Apsk) }
    else if str_eq(d, "7") { Some(Modulation::_32Apsk) }
    else if str_eq(d, "10") { Some(Modulation::Vsb8) }
    else if str_eq(d, "11") { Some(Modulation::Vsb16) }
    else if str_eq(d, "12") { Some(Modulation::Dqpsk) }
    else if str_eq(d, "16") { Some(Modulation::Qam16) }
    else if str_eq(d, "32") { Some(Modulation::Qam32) }
    else if str_eq(d, "64") { Some(Modulation::Qam64) }
    else if str_eq(d, "128") { Some(Modulation::Qam128) }
    else if str_eq(d, "256") { Some(Modulation::Qam256) }
    else if str_eq(d, "999") { Some(Modulation::Auto) }
    else { None }
}

//
// ----- Writing the parameter string

/// What [`Bandwidth::format`] writes.
pub open spec fn spec_bandwidth_format(b: Bandwidth) -> Seq<char> {
    match b {
        Bandwidth::_1712kHz => "B1712"@,
        Bandwidth::_5MHz => "B5"@,
        Bandwidth::_6Mhz => "B6"@,
        Bandwidth::_7MHz => "B7"@,
        Bandwidth::_8MHz => "B8"@,
        Bandwidth::_10MHz => "B10"@,
    }
}

/// What [`CodeRate::partial_format`] writes; the caller adds the `C`
/// or `D` letter.
pub open spec fn spec_code_rate_format(c: CodeRate) -> Seq<char> {
    match c {
        CodeRate::NoHierarchy => "0"@,
        CodeRate::_1_2 => "12"@,
        CodeRate::_2_3 => "23"@,
        CodeRate::_3_4 => "34"@,
        CodeRate::_3_5 => "35"@,
        CodeRate::_4_5 => "45"@,
        CodeRate::_5_6 => "56"@,
        CodeRate::_6_7 => "67"@,
        CodeRate::_7_8 => "78"@,
        CodeRate::_8_9 => "89"@,
        CodeRate::_9_10 => "910"@,
    }
}

/// What [`GuardInterval::format`] writes.
pub open spec fn spec_guard_interval_format(g: GuardInterval) -> Seq<char> {
    match g {
        GuardInterval::_1_4 => "G4"@,
        GuardInterval::_1_8 => "G8"@,
        GuardInterval::_1_16 => "G16"@,
        GuardInterval::_1_32 => "G32"@,
        GuardInterval::_1_128 => "G128"@,
        GuardInterval::_19_128 => "G19128"@,
        GuardInterval::_19_256 => "G19256"@,
    }
}

/// What [`Polarization::format`] writes.
pub open spec fn spec_polarization_format(p: Polarization) -> char {
    match p {
        Polarization::Horizontal => 'H',
        Polarization::CircularLeft => 'L',
        Polarization::CircularRight => 'R',
        Polarization::Vertical => 'V',
    }
}

/// What [`Modulation::format`] writes.
pub open spec fn spec_modulation_format(m: Modulation) -> Seq<char> {
    match m {
        Modulation::Qpsk => "M2"@,
        Modulation::_8Psk => "M5"@,
        Modulation::_16Apsk => "M6"@,
        Modulation::_32Apsk => "M7"@,
        Modulation::Vsb8 => "M10"@,
        Modulation::Vsb16 => "M11"@,
        Modulation::Dqpsk => "M12"@,
        Modulation::Qam16 => "M16"@,
        Modulation::Qam32 => "M32"@,
        Modulation::Qam64 => "M64"@,
        Modulation::Qam128 => "M128"@,
        Modulation::Qam256 => "M256"@,
        Modulation::Auto => "M999"@,
    }
}

/// What [`PilotMode::format`] writes.
pub open spec fn spec_pilot_mode_format(m: PilotMode) -> Seq<char> {
    match m {
        PilotMode::Off => "N0"@,
        PilotMode::On => "N1"@,
        PilotMode::Auto => "N999"@,
    }
}

/// What [`RollOff::format`] writes.
pub open spec fn spec_roll_off_format(r: RollOff) -> Seq<char> {
    match r {
        RollOff::NoRollOff => "O0"@,
        RollOff::_0_20 => "O20"@,
        RollOff::_0_25 => "O25"@,
        RollOff::_0_35 => "O35"@,
    }
}

/// What [`DeliverySystemGeneration::format`] writes.
pub open spec fn spec_generation_format(g: DeliverySystemGeneration) -> Seq<char> {
    match g {
        DeliverySystemGeneration::FirstGeneration => "S0"@,
        DeliverySystemGeneration::SecondGeneration => "S1"@,
    }
}

/// What [`TransmissionMode::format`] writes.
pub open spec fn spec_transmission_mode_format(m: TransmissionMode) -> Seq<char> {
    match m {
        TransmissionMode::_1k => "T1"@,
        TransmissionMode::_2k => "T2"@,
        TransmissionMode::_4k => "T4"@,
        TransmissionMode::_8k => "T8"@,
        TransmissionMode::_16k => "T16"@,
        TransmissionMode::_32k => "T32"@,
    }
}

/// What [`SingleMultipleInput::format`] writes.
pub open spec fn spec_input_mode_format(m: SingleMultipleInput) -> Seq<char> {
    match m {
        SingleMultipleInput::SingleInput => "X0"@,
        SingleMultipleInput::MultipleInput => "X1"@,
    }
}

/// What [`Hierarchy::format`] writes.
pub open spec fn spec_hierarchy_format(h: Hierarchy) -> Seq<char> {
    match h {
        Hierarchy::Off => "Y0"@,
        Hierarchy::TwoStreams => "Y1"@,
        Hierarchy::_2 => "Y2"@,
        Hierarchy::_4 => "Y4"@,
    }
}

impl Bandwidth {
    pub fn format(self) -> (r: &'static str)
        ensures
            r@ == spec_bandwidth_format(self),
    {
        match self {
            Bandwidth::_1712kHz => "B1712",
            Bandwidth::_5MHz => "B5",
            Bandwidth::_6Mhz => "B6",
            Bandwidth::_7MHz => "B7",
            Bandwidth::_8MHz => "B8",
            Bandwidth::_10MHz => "B10",
        }
    }
}

impl CodeRate {
    pub fn partial_format(self) -> (r: &'static str)
        ensures
            r@ == spec_code_rate_format(self),
    {
        match self {
            CodeRate::NoHierarchy => "0",
            CodeRate::_1_2 => "12",
            CodeRate::_2_3 => "23",
            CodeRate::_3_4 => "34",
            CodeRate::_3_5 => "35",
            CodeRate::_4_5 => "45",
            CodeRate::_5_6 => "56",
            CodeRate::_6_7 => "67",
            CodeRate::_7_8 => "78",
            CodeRate::_8_9 => "89",
            CodeRate::_9_10 => "910",
        }
    }
}

impl GuardInterval {
    pub fn format(self) -> (r: &'static str)
        ensures
            r@ == spec_guard_interval_format(self),
    {
        match self {
            GuardInterval::_1_4 => "G4",
            GuardInterval::_1_8 => "G8",
            GuardInterval::_1_16 => "G16",
            GuardInterval::_1_32 => "G32",
            GuardInterval::_1_128 => "G128",
            GuardInterval::_19_128 => "G19128",
            GuardInterval::_19_256 => "G19256",
        }
    }
}

impl Polarization {
    pub fn format(self) -> (r: char)
        ensures
            r == spec_polarization_format(self),
    {
        match self {
            Polarization::Horizontal => 'H',
            Polarization::CircularLeft => 'L',
            Polarization::CircularRight => 'R',
            Polarization::Vertical => 'V',
        }
    }
}

impl Modulation {
    pub fn format(self) -> (r: &'static str)
        ensures
            r@ == spec_modulation_format(self),
    {
        match self {
            Modulation::Qpsk => "M2",
            Modulation::_8Psk => "M5",
            Modulation::_16Apsk => "M6",
            Modulation::_32Apsk => "M7",
            Modulation::Vsb8 => "M10",
            Modulation::Vsb16 => "M11",
            Modulation::Dqpsk => "M12",
            Modulation::Qam16 => "M16",
            Modulation::Qam32 => "M32",
            Modulation::Qam64 => "M64",
            Modulation::Qam128 => "M128",
            Modulation::Qam256 => "M256",
            Modulation::Auto => "M999",
        }
    }
}

impl PilotMode {
    pub fn format(self) -> (r: &'static str)
        ensures
            r@ == spec_pilot_mode_format(self),
    {
        match self {
            PilotMode::Off => "N0",
            PilotMode::On => "N1",
            PilotMode::Auto => "N999",
        }
    }
}

impl RollOff {
    pub fn format(self) -> (r: &'static str)
        ensures
            r@ == spec_roll_off_format(self),
    {
        match self {
            RollOff::NoRollOff => "O0",
            RollOff::_0_20 => "O20",
            RollOff::_0_25 => "O25",
            RollOff::_0_35 => "O35",
        }
    }
}

impl DeliverySystemGeneration {
    pub fn format(self) -> (r: &'static str)
        ensures
            r@ == spec_generation_format(self),
    {
        match self {
            DeliverySystemGeneration::FirstGeneration => "S0",
            DeliverySystemGeneration::SecondGeneration => "S1",
        }
    }
}

impl TransmissionMode {
    pub fn format(self) -> (r: &'static str)
        ensures
            r@ == spec_transmission_mode_format(self),
    {
        match self {
            TransmissionMode::_1k => "T1",
            TransmissionMode::_2k => "T2",
            TransmissionMode::_4k => "T4",
            TransmissionMode::_8k => "T8",
            TransmissionMode::_16k => "T16",
            TransmissionMode::_32k => "T32",
        }
    }
}

impl SingleMultipleInput {
    pub fn format(self) -> (r: &'static str)
        ensures
            r@ == spec_input_mode_format(self),
    {
        match self {
            SingleMultipleInput::SingleInput => "X0",
            SingleMultipleInput::MultipleInput => "X1",
        }
    }
}

impl Hierarchy {
    pub fn format(self) -> (r: &'static str)
        ensures
            r@ == spec_hierarchy_format(self),
    {
        match self {
            Hierarchy::Off => "Y0",
            Hierarchy::TwoStreams => "Y1",
            Hierarchy::_2 => "Y2",
            Hierarchy::_4 => "Y4",
        }
    }
}

/// The front half of the written parameter column: bandwidth through
/// modulation.
pub open spec fn spec_parameters_format_front(p: Parameters) -> Seq<char> {
    (match p.bandwidth {
        Some(b) => spec_bandwidth_format(b),
        None => Seq::<char>::empty(),
    }) + (match p.code_rate_high_priority {
        Some(c) => "C"@ + spec_code_rate_format(c),
        None => Seq::<char>::empty(),
    }) + (match p.code_rate_low_priority {
        Some(c) => "D"@ + spec_code_rate_format(c),
        None => Seq::<char>::empty(),
    }) + (match p.guard_interval {
        Some(g) => spec_guard_interval_format(g),
        None => Seq::<char>::empty(),
    }) + (match p.polarization {
        Some(pol) => seq![spec_polarization_format(pol)],
        None => Seq::<char>::empty(),
    }) + (match p.inversion {
        Some(i) => if i { "I1"@ } else { "I0"@ },
        None => Seq::<char>::empty(),
    }) + (match p.modulation {
        Some(m) => spec_modulation_format(m),
        None => Seq::<char>::empty(),
    })
}

/// The middle of the written parameter column: pilot mode through the
/// T2 system id.
pub open spec fn spec_parameters_format_back(p: Parameters) -> Seq<char> {
    (match p.pilot_mode {
        Some(m) => spec_pilot_mode_format(m),
        None => Seq::<char>::empty(),
    }) + (match p.roll_off {
        Some(r) => spec_roll_off_format(r),
        None => Seq::<char>::empty(),
    }) + (match p.stream_id {
        Some(id) => "P"@ + crate::utils::spec_dec_str(id as nat),
        None => Seq::<char>::empty(),
    }) + (match p.t2_system_id {
        Some(id) => "Q"@ + crate::utils::spec_dec_str(id as nat),
        None => Seq::<char>::empty(),
    })
}

/// The tail of the written parameter column: delivery system
/// generation through hierarchy.
pub open spec fn spec_parameters_format_tail(p: Parameters) -> Seq<char> {
    (match p.delivery_system_generation {
        Some(g) => spec_generation_format(g),
        None => Seq::<char>::empty(),
    }) + (match p.transmission_mode {
        Some(m) => spec_transmission_mode_format(m),
        None => Seq::<char>::empty(),
    }) + (match p.input_mode {
        Some(m) => spec_input_mode_format(m),
        None => Seq::<char>::empty(),
    }) + (match p.hierarchy {
        Some(h) => spec_hierarchy_format(h),
        None => Seq::<char>::empty(),
    })
}

/// What [`Parameters::format`] writes: every set parameter in a fixed
/// order, each introduced by its letter.
pub open spec fn spec_parameters_format(p: Parameters) -> Seq<char> {
    spec_parameters_format_front(p) + spec_parameters_format_back(p)
        + spec_parameters_format_tail(p)
}

impl Parameters {
    /// Writes the parameter column.
    pub fn format(&self) -> (r: String)
        ensures
            r@ == spec_parameters_format(*self),
    {
        let mut text = self.format_front();
        self.format_back(&mut text);
        self.format_tail(&mut text);
        proof {
            assert(text@ =~= spec_parameters_format(*self));
        }
        text
    }

    #[verifier::rlimit(100)]
    #[verifier::spinoff_prover]
    fn format_front(&self) -> (r: String)
        ensures
            r@ == spec_parameters_format_front(*self),
    {
        let ghost p1: Seq<char> = match self.bandwidth {
            Some(b) => spec_bandwidth_format(b),
            None => Seq::<char>::empty(),
        };
        let ghost p2: Seq<char> = match self.code_rate_high_priority {
            Some(c) => "C"@ + spec_code_rate_format(c),
            None => Seq::<char>::empty(),
        };
        let ghost p3: Seq<char> = match self.code_rate_low_priority {
            Some(c) => "D"@ + spec_code_rate_format(c),
            None => Seq::<char>::empty(),
        };
        let ghost p4: Seq<char> = match self.guard_interval {
            Some(g) => spec_guard_interval_format(g),
            None => Seq::<char>::empty(),
        };
        let ghost p5: Seq<char> = match self.polarization {
            Some(pol) => seq![spec_polarization_format(pol)],
            None => Seq::<char>::empty(),
        };
        let ghost p6: Seq<char> = match self.inversion {
            Some(i) => if i { "I1"@ } else { "I0"@ },
            None => Seq::<char>::empty(),
        };
        let ghost p7: Seq<char> = match self.modulation {
            Some(m) => spec_modulation_format(m),
            None => Seq::<char>::empty(),
        };

        let mut text = String::new();

        if let Some(bandwidth) = self.bandwidth {
            text.append(bandwidth.format());
        }
        proof {
            assert(text@ =~= p1);
        }
        if let Some(code_rate) = self.code_rate_high_priority {
            text.append("C");
            text.append(code_rate.partial_format());
        }
        proof {
            assert(text@ =~= p1 + p2);
        }
        if let Some(code_rate) = self.code_rate_low_priority {
            text.append("D");
            text.append(code_rate.partial_format());
        }
        proof {
            assert(text@ =~= p1 + p2 + p3);
        }
        if let Some(guard_interval) = self.guard_interval {
            text.append(guard_interval.format());
        }
        proof {
            assert(text@ =~= p1 + p2 + p3 + p4);
        }
        if let Some(polarization) = self.polarization {
            let mut one: Vec<char> = Vec::new();
            one.push(polarization.format());
            let piece = crate::utils::chars_to_string(&one);
            proof {
                assert(one@ =~= seq![spec_polarization_format(polarization)]);
            }
            text.append(piece.as_str());
        }
        proof {
            assert(text@ =~= p1 + p2 + p3 + p4 + p5);
        }
        if let Some(inversion) = self.inversion {
            if inversion {
                text.append("I1");
            } else {
                text.append("I0");
            }
        }
        proof {
            assert(text@ =~= p1 + p2 + p3 + p4 + p5 + p6);
        }
        if let Some(modulation) = self.modulation {
            text.append(modulation.format());
        }
        proof {
            assert(text@ =~= p1 + p2 + p3 + p4 + p5 + p6 + p7);
            assert(text@ =~= spec_parameters_format_front(*self));
        }
        text
    }

    #[verifier::rlimit(100)]
    #[verifier::spinoff_prover]
    fn format_back(&self, text: &mut String)
        ensures
            final(text)@ == old(text)@ + spec_parameters_format_back(*self),
    {
        let ghost base = text@;
        let ghost p1: Seq<char> = match self.pilot_mode {
            Some(m) => spec_pilot_mode_format(m),
            None => Seq::<char>::empty(),
        };
        let ghost p2: Seq<char> = match self.roll_off {
            Some(r) => spec_roll_off_format(r),
            None => Seq::<char>::empty(),
        };
        let ghost p3: Seq<char> = match self.stream_id {
            Some(id) => "P"@ + crate::utils::spec_dec_str(id as nat),
            None => Seq::<char>::empty(),
        };
        let ghost p4: Seq<char> = match self.t2_system_id {
            Some(id) => "Q"@ + crate::utils::spec_dec_str(id as nat),
            None => Seq::<char>::empty(),
        };
        if let Some(pilot_mode) = self.pilot_mode {
            text.append(pilot_mode.format());
        }
        proof {
            assert(text@ =~= base + p1);
        }
        if let Some(roll_off) = self.roll_off {
            text.append(roll_off.format());
        }
        proof {
            assert(text@ =~= base + p1 + p2);
        }
        if let Some(id) = self.stream_id {
            text.append("P");
            let n = crate::utils::format_u32(id as u32);
            text.append(n.as_str());
        }
        proof {
            assert(text@ =~= base + p1 + p2 + p3);
        }
        if let Some(id) = self.t2_system_id {
            text.append("Q");
            let n = crate::utils::format_u32(id as u32);
            text.append(n.as_str());
        }
        proof {
            assert(text@ =~= base + p1 + p2 + p3 + p4);
            assert(p1 + p2 + p3 + p4 =~= spec_parameters_format_back(*self));
            assert(text@ =~= base + spec_parameters_format_back(*self));
        }
    }

    #[verifier::rlimit(100)]
    #[verifier::spinoff_prover]
    fn format_tail(&self, text: &mut String)
        ensures
            final(text)@ == old(text)@ + spec_parameters_format_tail(*self),
    {
        let ghost base = text@;
        let ghost p1: Seq<char> = match self.delivery_system_generation {
            Some(g) => spec_generation_format(g),
            None => Seq::<char>::empty(),
        };
        let ghost p2: Seq<char> = match self.transmission_mode {
            Some(m) => spec_transmission_mode_format(m),
            None => Seq::<char>::empty(),
        };
        let ghost p3: Seq<char> = match self.input_mode {
            Some(m) => spec_input_mode_format(m),
            None => Seq::<char>::empty(),
        };
        let ghost p4: Seq<char> = match self.hierarchy {
            Some(h) => spec_hierarchy_format(h),
            None => Seq::<char>::empty(),
        };

        if let Some(generation) = self.delivery_system_generation {
            text.append(generation.format());
        }
        proof {
            assert(text@ =~= base + p1);
        }
        if let Some(mode) = self.transmission_mode {
            text.append(mode.format());
        }
        proof {
            assert(text@ =~= base + p1 + p2);
        }
        if let Some(siso_miso) = self.input_mode {
            text.append(siso_miso.format());
        }
        proof {
            assert(text@ =~= base + p1 + p2 + p3);
        }
        if let Some(hierarchy) = self.hierarchy {
            text.append(hierarchy.format());
        }
        proof {
            assert(text@ =~= base + p1 + p2 + p3 + p4);
            assert(p1 + p2 + p3 + p4 =~= spec_parameters_format_tail(*self));
            assert(text@ =~= base + spec_parameters_format_tail(*self));
        }
    }
}

impl Parameters {
    /// Parses the parameter column.
    pub fn from_str(s: &str) -> (r: Result<Parameters, VdrParseError>)
        ensures
            r == spec_parameters_str(s@),
    {
        let groups = Parameters::group_params(s);
        let ghost all = spec_groups(spec_upper(s@));

        let mut params = Parameters::default();
        proof {
            assert(all.skip(0) =~= all);
        }
        let mut i: usize = 0;
        while i < groups.len()
            invariant
                i <= groups@.len(),
                spec_group_views(groups@) == all,
                all == spec_groups(spec_upper(s@)),
                spec_apply_groups(spec_parameters_none(), all) == spec_apply_groups(
                    params,
                    all.skip(i as int),
                ),
            decreases groups@.len() - i,
        {
            proof {
                assert(all[i as int] == (groups@[i as int].0, groups@[i as int].1@));
                assert(all.skip(i as int)[0] == all[i as int]);
                assert(all.skip(i as int).skip(1) =~= all.skip(i as int + 1));
            }
            params = match apply_group(params, groups[i].0, &groups[i].1) {
                Ok(p) => p,
                Err(e) => { return Err(e); },
            };
            i = i + 1;
        }
        proof {
            assert(all.skip(all.len() as int) =~= Seq::<(char, Seq<char>)>::empty());
        }
        Ok(params)
    }
}

} // verus!
