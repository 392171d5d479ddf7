//! The video PID column of a VDR channel definition.

use vstd::prelude::*;

use crate::error::VdrParseError;
use crate::utils::{
    find_char_from, format_u32, parse_u16, spec_dec_str, spec_find_char, spec_parse_u16,
};

verus! {

/// The video assignment of a channel: the PCR PID, a video PID when it
/// differs from the PCR PID, and the video mode (not shown when zero).
#[derive(Debug, Clone, Copy, PartialEq, Eq, Structural)]
pub struct VideoPID {
    pub pcr_pid: u16,
    pub video_pid: Option<u16>,
    /// Not shown when 0.
    pub video_mode: u16,
}

/// What [`VideoPID::from_str`] parses. The column takes four shapes:
/// `164+17=27` (video PID, PCR PID, mode), `164+17` (two PIDs, the
/// first kept as PCR), `164=27` (PCR PID and mode) and `164` (PCR PID
/// alone).
pub open spec fn spec_video_pid_str(s: Seq<char>) -> Result<VideoPID, VdrParseError> {
    let plus = spec_find_char(s, '+');
    if 0 <= plus < s.len() {
        let vpid = s.take(plus);
        let rest = s.skip(plus + 1);
        let eq = spec_find_char(rest, '=');
        if 0 <= eq < rest.len() {
            match (spec_parse_u16(rest.take(eq)), spec_parse_u16(vpid), spec_parse_u16(
                rest.skip(eq + 1),
            )) {
                (Ok(pcr_pid), Ok(video_pid), Ok(video_mode)) => Ok(VideoPID {
                    pcr_pid,
                    video_pid: Some(video_pid),
                    video_mode,
                }),
                _ => Err(VdrParseError::IntParse),
            }
        } else {
            match (spec_parse_u16(vpid), spec_parse_u16(rest)) {
                (Ok(pcr_pid), Ok(video_pid)) => Ok(VideoPID {
                    pcr_pid,
                    video_pid: Some(video_pid),
                    video_mode: 0,
                }),
                _ => Err(VdrParseError::IntParse),
            }
        }
    } else {
        let eq = spec_find_char(s, '=');
        if 0 <= eq < s.len() {
            match (spec_parse_u16(s.take(eq)), spec_parse_u16(s.skip(eq + 1))) {
                (Ok(pcr_pid), Ok(video_mode)) => Ok(VideoPID {
                    pcr_pid,
                    video_pid: None,
                    video_mode,
                }),
                _ => Err(VdrParseError::IntParse),
            }
        } else {
            match spec_parse_u16(s) {
                Ok(pcr_pid) => Ok(VideoPID { pcr_pid, video_pid: None, video_mode: 0 }),
                Err(e) => Err(e),
            }
        }
    }
}

/// What [`VideoPID::format`] writes: the inverse shapes of the parse.
pub open spec fn spec_video_pid_format(v: VideoPID) -> Seq<char> {
    match (v.video_pid, v.video_mode != 0) {
        (None, false) => spec_dec_str(v.pcr_pid as nat),
        (Some(video_pid), false) => spec_dec_str(video_pid as nat) + seq!['+'] + spec_dec_str(
            v.pcr_pid as nat,
        ),
        (None, true) => spec_dec_str(v.pcr_pid as nat) + seq!['='] + spec_dec_str(
            v.video_mode as nat,
        ),
        (Some(video_pid), true) => spec_dec_str(video_pid as nat) + seq!['+'] + spec_dec_str(
            v.pcr_pid as nat,
        ) + seq!['='] + spec_dec_str(v.video_mode as nat),
    }
}

impl VideoPID {
    /// Parses the video PID column.
    pub fn from_str(s: &str) -> (r: Result<VideoPID, VdrParseError>)
        ensures
            r == spec_video_pid_str(s@),
    {
        let len = s.unicode_len();
        match find_char_from(s, '+', 0) {
            Some(plus) => {
                let vpid = s.substring_char(0, plus);
                let rest = s.substring_char(plus + 1, len);
                proof {
                    assert(vpid@ =~= s@.take(plus as int));
                    assert(rest@ =~= s@.skip(plus as int + 1));
                }
                let rest_len = rest.unicode_len();
                match find_char_from(rest, '=', 0) {
                    Some(eq) => {
                        let pcr = rest.substring_char(0, eq);
                        let mode = rest.substring_char(eq + 1, rest_len);
                        proof {
                            assert(pcr@ =~= rest@.take(eq as int));
                            assert(mode@ =~= rest@.skip(eq as int + 1));
                        }
                        let pcr_pid = match parse_u16(pcr) {
                            Ok(v) => v,
                            Err(e) => { return Err(e); },
                        };
                        let video_pid = match parse_u16(vpid) {
                            Ok(v) => v,
                            Err(e) => { return Err(e); },
                        };
                        let video_mode = match parse_u16(mode) {
                            Ok(v) => v,
                            Err(e) => { return Err(e); },
                        };
                        Ok(VideoPID { pcr_pid, video_pid: Some(video_pid), video_mode })
                    },
                    None => {
                        let pcr_pid = match parse_u16(vpid) {
                            Ok(v) => v,
                            Err(e) => { return Err(e); },
                        };
                        let video_pid = match parse_u16(rest) {
                            Ok(v) => v,
                            Err(e) => { return Err(e); },
                        };
                        Ok(VideoPID { pcr_pid, video_pid: Some(video_pid), video_mode: 0 })
                    },
                }
            },
            None => {
                match find_char_from(s, '=', 0) {
                    Some(eq) => {
                        let pcr = s.substring_char(0, eq);
                        let mode = s.substring_char(eq + 1, len);
                        proof {
                            assert(pcr@ =~= s@.take(eq as int));
                            assert(mode@ =~= s@.skip(eq as int + 1));
                        }
                        let pcr_pid = match parse_u16(pcr) {
                            Ok(v) => v,
                            Err(e) => { return Err(e); },
                        };
                        let video_mode = match parse_u16(mode) {
                            Ok(v) => v,
                            Err(e) => { return Err(e); },
                        };
                        Ok(VideoPID { pcr_pid, video_pid: None, video_mode })
                    },
                    None => {
                        match parse_u16(s) {
                            Ok(pcr_pid) => Ok(VideoPID {
                                pcr_pid,
                                video_pid: None,
                                video_mode: 0,
                            }),
                            Err(e) => Err(e),
                        }
                    },
                }
            },
        }
    }

    /// Writes the video PID column.
    pub fn format(&self) -> (r: String)
        ensures
            r@ == spec_video_pid_format(*self),
    {
        proof {
            reveal_strlit("+");
            reveal_strlit("=");
            assert("+"@ =~= seq!['+']);
            assert("="@ =~= seq!['=']);
        }
        match (self.video_pid, self.video_mode != 0) {
            (None, false) => format_u32(self.pcr_pid as u32),
            (Some(video_pid), false) => {
                let mut out = format_u32(video_pid as u32);
                out.append("+");
                let pcr = format_u32(self.pcr_pid as u32);
                out.append(pcr.as_str());
                out
            },
            (None, true) => {
                let mut out = format_u32(self.pcr_pid as u32);
                out.append("=");
                let mode = format_u32(self.video_mode as u32);
                out.append(mode.as_str());
                out
            },
            (Some(video_pid), true) => {
                let mut out = format_u32(video_pid as u32);
                out.append("+");
                let pcr = format_u32(self.pcr_pid as u32);
                out.append(pcr.as_str());
                out.append("=");
                let mode = format_u32(self.video_mode as u32);
                out.append(mode.as_str());
                out
            },
        }
    }
}

} // verus!
