//! The teletext PID column of a VDR channel definition.

use vstd::prelude::*;

use crate::error::VdrParseError;
use crate::utils::{
    combine_parsed, find_char_from, lemma_seq_view_push, parse_u16, seq_view, spec_find_char,
    spec_parse_u16, spec_split, split_str,
};

verus! {

/// The teletext assignment of a channel: teletext PIDs and subtitle
/// PIDs.
#[derive(Debug, Clone)]
pub struct TeletextPIDList {
    pub teletext: Vec<u16>,
    pub subtitles: Vec<SubtitlePID>,
}

/// One subtitle PID with its language code.
#[derive(Debug, Clone)]
pub struct SubtitlePID {
    pub pid: u16,
    pub language: String,
}

/// The mathematical value of a [`SubtitlePID`].
pub struct SubtitlePIDModel {
    pub pid: u16,
    pub language: Seq<char>,
}

/// The mathematical value of a [`TeletextPIDList`].
pub struct TeletextPIDListModel {
    pub teletext: Seq<u16>,
    pub subtitles: Seq<SubtitlePIDModel>,
}

impl View for SubtitlePID {
    type V = SubtitlePIDModel;

    open spec fn view(&self) -> SubtitlePIDModel {
        SubtitlePIDModel { pid: self.pid, language: self.language@ }
    }
}

impl View for TeletextPIDList {
    type V = TeletextPIDListModel;

    open spec fn view(&self) -> TeletextPIDListModel {
        TeletextPIDListModel {
            teletext: self.teletext@,
            subtitles: seq_view(self.subtitles@),
        }
    }
}

/// What [`SubtitlePID::from_str`] parses: a PID, optionally followed
/// by `=` and a language code.
pub open spec fn spec_subtitle_pid_str(s: Seq<char>) -> Result<SubtitlePIDModel, VdrParseError> {
    let eq = spec_find_char(s, '=');
    if 0 <= eq < s.len() {
        match spec_parse_u16(s.take(eq)) {
            Ok(pid) => Ok(SubtitlePIDModel { pid, language: s.skip(eq + 1) }),
            Err(e) => Err(e),
        }
    } else {
        match spec_parse_u16(s) {
            Ok(pid) => Ok(SubtitlePIDModel { pid, language: Seq::empty() }),
            Err(e) => Err(e),
        }
    }
}

/// The teletext PIDs parsed from a comma-split part.
pub open spec fn spec_teletext_pids(pieces: Seq<Seq<char>>) -> Result<Seq<u16>, VdrParseError>
    decreases pieces.len(),
{
    if pieces.len() == 0 {
        Ok(Seq::empty())
    } else {
        match spec_parse_u16(pieces[0]) {
            Err(e) => Err(e),
            Ok(p) => match spec_teletext_pids(pieces.skip(1)) {
                Ok(rest) => Ok(seq![p] + rest),
                Err(e) => Err(e),
            },
        }
    }
}

/// The subtitle PIDs parsed from a comma-split part.
pub open spec fn spec_subtitle_pids(pieces: Seq<Seq<char>>) -> Result<
    Seq<SubtitlePIDModel>,
    VdrParseError,
>
    decreases pieces.len(),
{
    if pieces.len() == 0 {
        Ok(Seq::empty())
    } else {
        match spec_subtitle_pid_str(pieces[0]) {
            Err(e) => Err(e),
            Ok(p) => match spec_subtitle_pids(pieces.skip(1)) {
                Ok(rest) => Ok(seq![p] + rest),
                Err(e) => Err(e),
            },
        }
    }
}

/// What [`TeletextPIDList::from_str`] parses: `0` alone means nothing
/// at all; otherwise teletext PIDs and, after an optional `;`, the
/// subtitle PIDs, where a teletext part of exactly `0` means subtitles
/// only.
pub open spec fn spec_teletext_list_str(s: Seq<char>) -> Result<
    TeletextPIDListModel,
    VdrParseError,
> {
    if s == seq!['0'] {
        Ok(TeletextPIDListModel { teletext: Seq::empty(), subtitles: Seq::empty() })
    } else {
        let semi = spec_find_char(s, ';');
        if 0 <= semi < s.len() {
            let teletext_part = s.take(semi);
            let subtitles_r = spec_subtitle_pids(spec_split(s.skip(semi + 1), ','));
            if teletext_part == seq!['0'] {
                match subtitles_r {
                    Ok(subtitles) => Ok(TeletextPIDListModel {
                        teletext: Seq::empty(),
                        subtitles,
                    }),
                    Err(e) => Err(e),
                }
            } else {
                match (spec_teletext_pids(spec_split(teletext_part, ',')), subtitles_r) {
                    (Ok(teletext), Ok(subtitles)) => Ok(TeletextPIDListModel {
                        teletext,
                        subtitles,
                    }),
                    _ => Err(VdrParseError::IntParse),
                }
            }
        } else {
            match spec_teletext_pids(spec_split(s, ',')) {
                Ok(teletext) => Ok(TeletextPIDListModel { teletext, subtitles: Seq::empty() }),
                Err(e) => Err(e),
            }
        }
    }
}

impl SubtitlePID {
    /// Parses one subtitle PID entry.
    pub fn from_str(s: &str) -> (r: Result<SubtitlePID, VdrParseError>)
        ensures
            match r {
                Ok(p) => spec_subtitle_pid_str(s@) == Ok::<SubtitlePIDModel, VdrParseError>(p@),
                Err(e) => spec_subtitle_pid_str(s@) == Err::<SubtitlePIDModel, VdrParseError>(e),
            },
    {
        let len = s.unicode_len();
        match find_char_from(s, '=', 0) {
            Some(eq) => {
                let pid_part = s.substring_char(0, eq);
                let language = s.substring_char(eq + 1, len);
                proof {
                    assert(pid_part@ =~= s@.take(eq as int));
                    assert(language@ =~= s@.skip(eq as int + 1));
                }
                match parse_u16(pid_part) {
                    Ok(pid) => Ok(SubtitlePID { pid, language: String::from_str(language) }),
                    Err(e) => Err(e),
                }
            },
            None => {
                match parse_u16(s) {
                    Ok(pid) => Ok(SubtitlePID { pid, language: String::new() }),
                    Err(e) => Err(e),
                }
            },
        }
    }
}

impl TeletextPIDList {
    /// No teletext and no subtitles.
    pub fn empty() -> (r: TeletextPIDList)
        ensures
            r@.teletext == Seq::<u16>::empty(),
            r@.subtitles == Seq::<SubtitlePIDModel>::empty(),
    {
        let r = TeletextPIDList { teletext: Vec::new(), subtitles: Vec::new() };
        proof {
            assert(r@.teletext =~= Seq::<u16>::empty());
            assert(r@.subtitles =~= Seq::<SubtitlePIDModel>::empty());
        }
        r
    }

    /// Parses one comma-separated teletext part.
    pub fn parse_teletext(s: &str) -> (r: Result<Vec<u16>, VdrParseError>)
        ensures
            match r {
                Ok(v) => spec_teletext_pids(spec_split(s@, ',')) == Ok::<Seq<u16>, VdrParseError>(
                    v@,
                ),
                Err(e) => spec_teletext_pids(spec_split(s@, ',')) == Err::<
                    Seq<u16>,
                    VdrParseError,
                >(e),
            },
    {
        let pieces = split_str(s, ',');
        let ghost views = seq_view(pieces@);
        let mut teletext: Vec<u16> = Vec::new();

        proof {
            assert(views.skip(0) =~= views);
            assert(teletext@ =~= Seq::<u16>::empty());
        }

        let mut i: usize = 0;
        while i < pieces.len()
            invariant
                i <= pieces@.len(),
                views == seq_view(pieces@),
                views == spec_split(s@, ','),
                spec_teletext_pids(views) == combine_parsed(
                    teletext@,
                    spec_teletext_pids(views.skip(i as int)),
                ),
            decreases pieces@.len() - i,
        {
            proof {
                assert(views.skip(i as int)[0] == views[i as int]);
                assert(views.skip(i as int).skip(1) =~= views.skip(i as int + 1));
                assert(views[i as int] == pieces@[i as int]@);
            }
            let pid = match parse_u16(pieces[i].as_str()) {
                Ok(p) => p,
                Err(e) => { return Err(e); },
            };
            proof {
                match spec_teletext_pids(views.skip(i as int + 1)) {
                    Ok(rest) => {
                        assert(teletext@ + (seq![pid] + rest) =~= teletext@.push(pid) + rest);
                    },
                    Err(_) => {},
                }
            }
            teletext.push(pid);
            i = i + 1;
        }

        proof {
            assert(views.skip(views.len() as int) =~= Seq::<Seq<char>>::empty());
            assert(teletext@ + Seq::<u16>::empty() =~= teletext@);
        }
        Ok(teletext)
    }

    /// Parses one comma-separated subtitles part.
    pub fn parse_subtitles(s: &str) -> (r: Result<Vec<SubtitlePID>, VdrParseError>)
        ensures
            match r {
                Ok(v) => spec_subtitle_pids(spec_split(s@, ',')) == Ok::<
                    Seq<SubtitlePIDModel>,
                    VdrParseError,
                >(seq_view(v@)),
                Err(e) => spec_subtitle_pids(spec_split(s@, ',')) == Err::<
                    Seq<SubtitlePIDModel>,
                    VdrParseError,
                >(e),
            },
    {
        let pieces = split_str(s, ',');
        let ghost views = seq_view(pieces@);
        let mut subtitles: Vec<SubtitlePID> = Vec::new();

        proof {
            assert(views.skip(0) =~= views);
            assert(seq_view(subtitles@) =~= Seq::<SubtitlePIDModel>::empty());
        }

        let mut i: usize = 0;
        while i < pieces.len()
            invariant
                i <= pieces@.len(),
                views == seq_view(pieces@),
                views == spec_split(s@, ','),
                spec_subtitle_pids(views) == combine_parsed(
                    seq_view(subtitles@),
                    spec_subtitle_pids(views.skip(i as int)),
                ),
            decreases pieces@.len() - i,
        {
            proof {
                assert(views.skip(i as int)[0] == views[i as int]);
                assert(views.skip(i as int).skip(1) =~= views.skip(i as int + 1));
                assert(views[i as int] == pieces@[i as int]@);
            }
            let entry = match SubtitlePID::from_str(pieces[i].as_str()) {
                Ok(p) => p,
                Err(e) => { return Err(e); },
            };
            proof {
                lemma_seq_view_push(subtitles@, entry);
                match spec_subtitle_pids(views.skip(i as int + 1)) {
                    Ok(rest) => {
                        assert(seq_view(subtitles@) + (seq![entry@] + rest)
                            =~= seq_view(subtitles@).push(entry@) + rest);
                    },
                    Err(_) => {},
                }
            }
            subtitles.push(entry);
            i = i + 1;
        }

        proof {
            assert(views.skip(views.len() as int) =~= Seq::<Seq<char>>::empty());
            assert(seq_view(subtitles@) + Seq::<SubtitlePIDModel>::empty()
                =~= seq_view(subtitles@));
        }
        Ok(subtitles)
    }

    /// Parses the teletext column.
    pub fn from_str(s: &str) -> (r: Result<TeletextPIDList, VdrParseError>)
        ensures
            match r {
                Ok(l) => spec_teletext_list_str(s@) == Ok::<TeletextPIDListModel, VdrParseError>(
                    l@,
                ),
                Err(e) => spec_teletext_list_str(s@) == Err::<
                    TeletextPIDListModel,
                    VdrParseError,
                >(e),
            },
    {
        proof {
            reveal_strlit("0");
            assert("0"@ =~= seq!['0']);
        }
        let len = s.unicode_len();
        if len == 1 && s.get_char(0) == '0' {
            proof {
                assert(s@ =~= seq!['0']);
            }
            return Ok(TeletextPIDList::empty());
        }
        proof {
            assert(s@ != seq!['0']);
        }

        match find_char_from(s, ';', 0) {
            Some(semi) => {
                let teletext_part = s.substring_char(0, semi);
                let subtitles_part = s.substring_char(semi + 1, len);
                proof {
                    assert(teletext_part@ =~= s@.take(semi as int));
                    assert(subtitles_part@ =~= s@.skip(semi as int + 1));
                }
                let no_teletext = teletext_part.unicode_len() == 1
                    && teletext_part.get_char(0) == '0';
                proof {
                    if no_teletext {
                        assert(teletext_part@ =~= seq!['0']);
                    }
                }
                if no_teletext {
                    let subtitles = match Self::parse_subtitles(subtitles_part) {
                        Ok(v) => v,
                        Err(e) => { return Err(e); },
                    };
                    let r = TeletextPIDList { teletext: Vec::new(), subtitles };
                    Ok(r)
                } else {
                    let teletext = match Self::parse_teletext(teletext_part) {
                        Ok(v) => v,
                        Err(_) => { return Err(VdrParseError::IntParse); },
                    };
                    let subtitles = match Self::parse_subtitles(subtitles_part) {
                        Ok(v) => v,
                        Err(_) => { return Err(VdrParseError::IntParse); },
                    };
                    Ok(TeletextPIDList { teletext, subtitles })
                }
            },
            None => {
                let teletext = match Self::parse_teletext(s) {
                    Ok(v) => v,
                    Err(e) => { return Err(e); },
                };
                let r = TeletextPIDList { teletext, subtitles: Vec::new() };
                proof {
                    assert(r@.subtitles =~= Seq::<SubtitlePIDModel>::empty());
                }
                Ok(r)
            },
        }
    }

    /// Writes the teletext column; this library only writes channels
    /// without teletext and subtitles, as `0`.
    pub fn format(&self) -> (r: String)
        requires
            self.teletext@.len() == 0,
            self.subtitles@.len() == 0,
        ensures
            r@ == seq!['0'],
    {
        proof {
            reveal_strlit("0");
            assert("0"@ =~= seq!['0']);
        }
        String::from_str("0")
    }
}

} // verus!
