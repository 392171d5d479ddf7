//! The audio PID column of a VDR channel definition.

use vstd::prelude::*;

use crate::error::VdrParseError;
use crate::utils::{
    combine_parsed, find_char_from, format_u32, lemma_seq_view_push, parse_u16, seq_view,
    spec_dec_str, spec_find_char, spec_parse_u16, spec_split, split_str,
};

verus! {

/// The audio assignment of a channel: the regular audio PIDs and the
/// enhanced (Dolby) audio PIDs.
#[derive(Debug, Clone)]
pub struct AudioPIDList {
    pub regular_pids: Vec<AudioPID>,
    pub dolby_pids: Vec<AudioPID>,
}

/// One audio PID with its language codes and optional audio type.
#[derive(Debug, Clone)]
pub struct AudioPID {
    pub pid: u16,
    pub language_code: String,
    pub second_language_code: String,
    pub audio_type: Option<u16>,
}

/// The mathematical value of an [`AudioPID`].
pub struct AudioPIDModel {
    pub pid: u16,
    pub language_code: Seq<char>,
    pub second_language_code: Seq<char>,
    pub audio_type: Option<u16>,
}

/// The mathematical value of an [`AudioPIDList`].
pub struct AudioPIDListModel {
    pub regular_pids: Seq<AudioPIDModel>,
    pub dolby_pids: Seq<AudioPIDModel>,
}

impl View for AudioPID {
    type V = AudioPIDModel;

    open spec fn view(&self) -> AudioPIDModel {
        AudioPIDModel {
            pid: self.pid,
            language_code: self.language_code@,
            second_language_code: self.second_language_code@,
            audio_type: self.audio_type,
        }
    }
}

impl View for AudioPIDList {
    type V = AudioPIDListModel;

    open spec fn view(&self) -> AudioPIDListModel {
        AudioPIDListModel {
            regular_pids: seq_view(self.regular_pids@),
            dolby_pids: seq_view(self.dolby_pids@),
        }
    }
}

/// What [`AudioPID::from_str`] parses: a PID, optionally followed by
/// `=` and one or two `+`-separated language codes, optionally
/// followed by `@` and the audio type.
pub open spec fn spec_audio_pid_str(s: Seq<char>) -> Result<AudioPIDModel, VdrParseError> {
    let at = spec_find_char(s, '@');
    let rest = if 0 <= at < s.len() { s.take(at) } else { s };
    let audio_type_r: Result<Option<u16>, VdrParseError> = if 0 <= at < s.len() {
        match spec_parse_u16(s.skip(at + 1)) {
            Ok(v) => Ok(Some(v)),
            Err(e) => Err(e),
        }
    } else {
        Ok(None)
    };
    match audio_type_r {
        Err(e) => Err(e),
        Ok(audio_type) => {
            let eq = spec_find_char(rest, '=');
            let pid_part = if 0 <= eq < rest.len() { rest.take(eq) } else { rest };
            match spec_parse_u16(pid_part) {
                Err(e) => Err(e),
                Ok(pid) => {
                    if 0 <= eq < rest.len() {
                        let languages = rest.skip(eq + 1);
                        let plus = spec_find_char(languages, '+');
                        if 0 <= plus < languages.len() {
                            Ok(AudioPIDModel {
                                pid,
                                language_code: languages.take(plus),
                                second_language_code: languages.skip(plus + 1),
                                audio_type,
                            })
                        } else {
                            Ok(AudioPIDModel {
                                pid,
                                language_code: languages,
                                second_language_code: Seq::empty(),
                                audio_type,
                            })
                        }
                    } else {
                        Ok(AudioPIDModel {
                            pid,
                            language_code: Seq::empty(),
                            second_language_code: Seq::empty(),
                            audio_type,
                        })
                    }
                },
            }
        },
    }
}

/// The audio PIDs parsed from a comma-split column part, in order; the
/// first malformed entry fails the part.
pub open spec fn spec_audio_pids(pieces: Seq<Seq<char>>) -> Result<Seq<AudioPIDModel>, VdrParseError>
    decreases pieces.len(),
{
    if pieces.len() == 0 {
        Ok(Seq::empty())
    } else {
        match spec_audio_pid_str(pieces[0]) {
            Err(e) => Err(e),
            Ok(a) => match spec_audio_pids(pieces.skip(1)) {
                Ok(rest) => Ok(seq![a] + rest),
                Err(e) => Err(e),
            },
        }
    }
}

/// What [`AudioPIDList::from_str`] parses: regular PIDs, then after an
/// optional `;` the Dolby PIDs; a regular part of exactly `0` means no
/// regular PIDs.
pub open spec fn spec_audio_pid_list_str(s: Seq<char>) -> Result<AudioPIDListModel, VdrParseError> {
    let semi = spec_find_char(s, ';');
    if 0 <= semi < s.len() {
        let regular_part = s.take(semi);
        let dolby_r = spec_audio_pids(spec_split(s.skip(semi + 1), ','));
        if regular_part == seq!['0'] {
            match dolby_r {
                Ok(dolby) => Ok(AudioPIDListModel { regular_pids: Seq::empty(), dolby_pids: dolby }),
                Err(e) => Err(e),
            }
        } else {
            match (spec_audio_pids(spec_split(regular_part, ',')), dolby_r) {
                (Ok(regular), Ok(dolby)) => Ok(AudioPIDListModel {
                    regular_pids: regular,
                    dolby_pids: dolby,
                }),
                _ => Err(VdrParseError::IntParse),
            }
        }
    } else {
        match spec_audio_pids(spec_split(s, ',')) {
            Ok(regular) => Ok(AudioPIDListModel {
                regular_pids: regular,
                dolby_pids: Seq::empty(),
            }),
            Err(e) => Err(e),
        }
    }
}

impl AudioPID {
    /// Parses one audio PID entry.
    pub fn from_str(s: &str) -> (r: Result<AudioPID, VdrParseError>)
        ensures
            match r {
                Ok(a) => spec_audio_pid_str(s@) == Ok::<AudioPIDModel, VdrParseError>(a@),
                Err(e) => spec_audio_pid_str(s@) == Err::<AudioPIDModel, VdrParseError>(e),
            },
    {
        let len = s.unicode_len();
        let (rest, audio_type) = match find_char_from(s, '@', 0) {
            Some(at) => {
                let rest = s.substring_char(0, at);
                let type_part = s.substring_char(at + 1, len);
                proof {
                    assert(rest@ =~= s@.take(at as int));
                    assert(type_part@ =~= s@.skip(at as int + 1));
                }
                match parse_u16(type_part) {
                    Ok(v) => (rest, Some(v)),
                    Err(e) => { return Err(e); },
                }
            },
            None => (s, None),
        };

        let rest_len = rest.unicode_len();
        match find_char_from(rest, '=', 0) {
            Some(eq) => {
                let pid_part = rest.substring_char(0, eq);
                let languages = rest.substring_char(eq + 1, rest_len);
                proof {
                    assert(pid_part@ =~= rest@.take(eq as int));
                    assert(languages@ =~= rest@.skip(eq as int + 1));
                }
                let pid = match parse_u16(pid_part) {
                    Ok(v) => v,
                    Err(e) => { return Err(e); },
                };
                let languages_len = languages.unicode_len();
                match find_char_from(languages, '+', 0) {
                    Some(plus) => {
                        let first = languages.substring_char(0, plus);
                        let second = languages.substring_char(plus + 1, languages_len);
                        proof {
                            assert(first@ =~= languages@.take(plus as int));
                            assert(second@ =~= languages@.skip(plus as int + 1));
                        }
                        Ok(AudioPID {
                            pid,
                            language_code: String::from_str(first),
                            second_language_code: String::from_str(second),
                            audio_type,
                        })
                    },
                    None => Ok(AudioPID {
                        pid,
                        language_code: String::from_str(languages),
                        second_language_code: String::new(),
                        audio_type,
                    }),
                }
            },
            None => {
                let pid = match parse_u16(rest) {
                    Ok(v) => v,
                    Err(e) => { return Err(e); },
                };
                Ok(AudioPID {
                    pid,
                    language_code: String::new(),
                    second_language_code: String::new(),
                    audio_type,
                })
            },
        }
    }

    /// Writes one audio PID entry. A second language code is not
    /// written by this library.
    pub fn format(&self) -> (r: String)
        requires
            self.second_language_code@.len() == 0,
        ensures
            r@ == spec_audio_pid_format(self@),
    {
        proof {
            reveal_strlit("@");
            reveal_strlit("=");
            assert("@"@ =~= seq!['@']);
            assert("="@ =~= seq!['=']);
        }
        match (!self.language_code.as_str().is_empty(), self.audio_type) {
            (false, None) => format_u32(self.pid as u32),
            (false, Some(audio_type)) => {
                let mut out = format_u32(self.pid as u32);
                out.append("@");
                let t = format_u32(audio_type as u32);
                out.append(t.as_str());
                out
            },
            (true, None) => {
                let mut out = format_u32(self.pid as u32);
                out.append("=");
                out.append(self.language_code.as_str());
                out
            },
            (true, Some(audio_type)) => {
                let mut out = format_u32(self.pid as u32);
                out.append("=");
                out.append(self.language_code.as_str());
                out.append("@");
                let t = format_u32(audio_type as u32);
                out.append(t.as_str());
                out
            },
        }
    }
}

/// What [`AudioPID::format`] writes for an entry without a second
/// language code.
pub open spec fn spec_audio_pid_format(a: AudioPIDModel) -> Seq<char> {
    let base = spec_dec_str(a.pid as nat);
    let with_lang = if a.language_code.len() > 0 {
        base + seq!['='] + a.language_code
    } else {
        base
    };
    match a.audio_type {
        Some(t) => with_lang + seq!['@'] + spec_dec_str(t as nat),
        None => with_lang,
    }
}

/// The comma-joined formats of a list of audio PID entries.
pub open spec fn spec_join_audio(pids: Seq<AudioPIDModel>) -> Seq<char>
    decreases pids.len(),
{
    if pids.len() == 0 {
        Seq::empty()
    } else {
        spec_join_audio(pids.drop_last()) + (if pids.len() > 1 {
            seq![',']
        } else {
            Seq::<char>::empty()
        }) + spec_audio_pid_format(pids.last())
    }
}

/// What [`AudioPIDList::format`] writes: the comma-joined regular
/// PIDs, or `0` when there are none, and after a `;` the comma-joined
/// Dolby PIDs when there are any.
pub open spec fn spec_audio_pid_list_format(m: AudioPIDListModel) -> Seq<char> {
    (if m.regular_pids.len() == 0 {
        seq!['0']
    } else {
        spec_join_audio(m.regular_pids)
    }) + (if m.dolby_pids.len() > 0 {
        seq![';'] + spec_join_audio(m.dolby_pids)
    } else {
        Seq::<char>::empty()
    })
}

/// Appends the comma-joined formats of a run of audio PID entries.
fn append_joined(text: &mut String, pids: &Vec<AudioPID>)
    requires
        forall|i: int|
            0 <= i < pids@.len() ==> (#[trigger] pids@[i]).second_language_code@.len() == 0,
    ensures
        final(text)@ == old(text)@ + spec_join_audio(seq_view(pids@)),
{
    let ghost base = text@;
    proof {
        reveal_strlit(",");
        assert(","@ =~= seq![',']);
        assert(spec_join_audio(seq_view(pids@).take(0)) =~= Seq::<char>::empty());
        assert(text@ + Seq::<char>::empty() =~= text@);
    }
    let mut first = true;
    let mut i: usize = 0;
    while i < pids.len()
        invariant
            i <= pids@.len(),
            first == (i == 0),
            forall|j: int|
                0 <= j < pids@.len() ==> (#[trigger] pids@[j]).second_language_code@.len() == 0,
            text@ == base + spec_join_audio(seq_view(pids@).take(i as int)),
            ","@ == seq![','],
        decreases pids@.len() - i,
    {
        proof {
            assert(seq_view(pids@).take(i as int + 1).drop_last()
                =~= seq_view(pids@).take(i as int));
            assert(seq_view(pids@).take(i as int + 1).last() == pids@[i as int]@);
        }
        if first {
            first = false;
        } else {
            text.append(",");
        }
        let entry = pids[i].format();
        text.append(entry.as_str());
        i = i + 1;
    }
    proof {
        assert(seq_view(pids@).take(pids@.len() as int) =~= seq_view(pids@));
    }
}

impl AudioPIDList {
    /// No audio PIDs at all.
    pub fn empty() -> (r: AudioPIDList)
        ensures
            r@.regular_pids.len() == 0,
            r@.dolby_pids.len() == 0,
    {
        let r = AudioPIDList { regular_pids: Vec::new(), dolby_pids: Vec::new() };
        proof {
            assert(r@.regular_pids =~= Seq::<AudioPIDModel>::empty());
            assert(r@.dolby_pids =~= Seq::<AudioPIDModel>::empty());
        }
        r
    }

    /// Parses one comma-separated part of the audio column.
    pub fn parse_part(s: &str) -> (r: Result<Vec<AudioPID>, VdrParseError>)
        ensures
            match r {
                Ok(v) => spec_audio_pids(spec_split(s@, ',')) == Ok::<
                    Seq<AudioPIDModel>,
                    VdrParseError,
                >(seq_view(v@)),
                Err(e) => spec_audio_pids(spec_split(s@, ',')) == Err::<
                    Seq<AudioPIDModel>,
                    VdrParseError,
                >(e),
            },
    {
        let pieces = split_str(s, ',');
        let ghost views = seq_view(pieces@);
        let mut entries: Vec<AudioPID> = Vec::new();

        proof {
            assert(views.skip(0) =~= views);
            assert(seq_view(entries@) =~= Seq::<AudioPIDModel>::empty());
        }

        let mut i: usize = 0;
        while i < pieces.len()
            invariant
                i <= pieces@.len(),
                views == seq_view(pieces@),
                views == spec_split(s@, ','),
                spec_audio_pids(views) == combine_parsed(
                    seq_view(entries@),
                    spec_audio_pids(views.skip(i as int)),
                ),
            decreases pieces@.len() - i,
        {
            proof {
                assert(views.skip(i as int)[0] == views[i as int]);
                assert(views.skip(i as int).skip(1) =~= views.skip(i as int + 1));
                assert(views[i as int] == pieces@[i as int]@);
            }
            let entry = match AudioPID::from_str(pieces[i].as_str()) {
                Ok(a) => a,
                Err(e) => { return Err(e); },
            };
            proof {
                lemma_seq_view_push(entries@, entry);
                match spec_audio_pids(views.skip(i as int + 1)) {
                    Ok(rest) => {
                        assert(seq_view(entries@) + (seq![entry@] + rest)
                            =~= seq_view(entries@).push(entry@) + rest);
                    },
                    Err(_) => {},
                }
            }
            entries.push(entry);
            i = i + 1;
        }

        proof {
            assert(views.skip(views.len() as int) =~= Seq::<Seq<char>>::empty());
            assert(seq_view(entries@) + Seq::<AudioPIDModel>::empty() =~= seq_view(entries@));
        }
        Ok(entries)
    }

    /// Parses the audio column.
    pub fn from_str(s: &str) -> (r: Result<AudioPIDList, VdrParseError>)
        ensures
            match r {
                Ok(l) => spec_audio_pid_list_str(s@) == Ok::<AudioPIDListModel, VdrParseError>(l@),
                Err(e) => spec_audio_pid_list_str(s@) == Err::<AudioPIDListModel, VdrParseError>(
                    e,
                ),
            },
    {
        let len = s.unicode_len();
        match find_char_from(s, ';', 0) {
            Some(semi) => {
                let regular_part = s.substring_char(0, semi);
                let dolby_part = s.substring_char(semi + 1, len);
                proof {
                    assert(regular_part@ =~= s@.take(semi as int));
                    assert(dolby_part@ =~= s@.skip(semi as int + 1));
                    reveal_strlit("0");
                    assert("0"@ =~= seq!['0']);
                }
                let no_regular = regular_part.unicode_len() == 1
                    && regular_part.get_char(0) == '0';
                proof {
                    if no_regular {
                        assert(regular_part@ =~= seq!['0']);
                    }
                }
                if no_regular {
                    let dolby_pids = match Self::parse_part(dolby_part) {
                        Ok(v) => v,
                        Err(e) => { return Err(e); },
                    };
                    let r = AudioPIDList { regular_pids: Vec::new(), dolby_pids };
                    proof {
                        assert(r@.regular_pids =~= Seq::<AudioPIDModel>::empty());
                    }
                    Ok(r)
                } else {
                    let regular_pids = match Self::parse_part(regular_part) {
                        Ok(v) => v,
                        Err(_) => { return Err(VdrParseError::IntParse); },
                    };
                    let dolby_pids = match Self::parse_part(dolby_part) {
                        Ok(v) => v,
                        Err(_) => { return Err(VdrParseError::IntParse); },
                    };
                    Ok(AudioPIDList { regular_pids, dolby_pids })
                }
            },
            None => {
                let regular_pids = match Self::parse_part(s) {
                    Ok(v) => v,
                    Err(e) => { return Err(e); },
                };
                let r = AudioPIDList { regular_pids, dolby_pids: Vec::new() };
                proof {
                    assert(r@.dolby_pids =~= Seq::<AudioPIDModel>::empty());
                }
                Ok(r)
            },
        }
    }

    /// Writes the audio column.
    pub fn format(&self) -> (r: String)
        requires
            forall|i: int|
                0 <= i < self.regular_pids@.len() ==> (#[trigger] self.regular_pids@[i])
                    .second_language_code@.len() == 0,
            forall|i: int|
                0 <= i < self.dolby_pids@.len() ==> (#[trigger] self.dolby_pids@[i])
                    .second_language_code@.len() == 0,
        ensures
            r@ == spec_audio_pid_list_format(self@),
    {
        proof {
            reveal_strlit("0");
            reveal_strlit(";");
            assert("0"@ =~= seq!['0']);
            assert(";"@ =~= seq![';']);
        }
        let mut list = String::new();

        if self.regular_pids.len() == 0 {
            list.append("0");
        } else {
            append_joined(&mut list, &self.regular_pids);
            proof {
                assert(list@ =~= spec_join_audio(seq_view(self.regular_pids@)));
            }
        }

        if self.dolby_pids.len() > 0 {
            list.append(";");
            append_joined(&mut list, &self.dolby_pids);
        } else {
            proof {
                assert(list@ + Seq::<char>::empty() =~= list@);
            }
        }

        proof {
            assert(list@ =~= spec_audio_pid_list_format(self@));
        }
        list
    }
}

} // verus!
