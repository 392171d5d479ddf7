//! Small shared value types.

use vstd::prelude::*;

use crate::error::{DecodeError, VdrParseError};

verus! {

/// Relates a decoder's result to the specification-level parse it must
/// agree with: on success the returned value's view is the specified
/// value, and on failure the error is the specified error.
pub open spec fn decoded_as<T: View>(
    r: Result<T, DecodeError>,
    s: Result<T::V, DecodeError>,
) -> bool {
    match r {
        Ok(v) => s == Ok::<T::V, DecodeError>(v@),
        Err(e) => s == Err::<T::V, DecodeError>(e),
    }
}

/// The views of all elements of a sequence.
pub open spec fn seq_view<T: View>(s: Seq<T>) -> Seq<T::V> {
    s.map_values(|x: T| x@)
}

pub proof fn lemma_seq_view_push<T: View>(s: Seq<T>, x: T)
    ensures
        seq_view(s.push(x)) == seq_view(s).push(x@),
{
    assert(seq_view(s.push(x)) =~= seq_view(s).push(x@));
}

/// Appends an already-parsed prefix to the outcome of parsing the rest
/// of a buffer: parsing fails as soon as the rest fails.
pub open spec fn combine_parsed<T, E>(
    acc: Seq<T>,
    rest: Result<Seq<T>, E>,
) -> Result<Seq<T>, E> {
    match rest {
        Ok(r) => Ok(acc + r),
        Err(e) => Err(e),
    }
}

/// The big-endian 16-bit value of two bytes.
pub open spec fn spec_be16(hi: u8, lo: u8) -> u16 {
    ((hi as u16) << 8) | (lo as u16)
}

/// The big-endian 32-bit value of four bytes.
pub open spec fn spec_be32(b0: u8, b1: u8, b2: u8, b3: u8) -> u32 {
    ((b0 as u32) << 24) | ((b1 as u32) << 16) | ((b2 as u32) << 8) | (b3 as u32)
}

pub fn be16(hi: u8, lo: u8) -> (r: u16)
    ensures
        r == spec_be16(hi, lo),
{
    ((hi as u16) << 8) | (lo as u16)
}

pub fn be32(b0: u8, b1: u8, b2: u8, b3: u8) -> (r: u32)
    ensures
        r == spec_be32(b0, b1, b2, b3),
{
    ((b0 as u32) << 24) | ((b1 as u32) << 16) | ((b2 as u32) << 8) | (b3 as u32)
}

//
// ----- Text helpers

/// Relies on String implementing FromIterator over characters: the
/// collected string holds exactly the given characters in order.
#[verifier::external_body]
pub fn chars_to_string(chars: &Vec<char>) -> (r: String)
    ensures
        r@ == chars@,
{
    chars.iter().collect()
}

/// The characters of a string, as a vector.
pub fn str_chars(s: &str) -> (r: Vec<char>)
    ensures
        r@ == s@,
{
    let len = s.unicode_len();
    let mut chars: Vec<char> = Vec::new();
    let mut i: usize = 0;
    while i < len
        invariant
            i <= len,
            len == s@.len(),
            chars@ == s@.take(i as int),
        decreases len - i,
    {
        chars.push(s.get_char(i));
        proof {
            assert(s@.take(i as int + 1) =~= s@.take(i as int).push(s@[i as int]));
        }
        i = i + 1;
    }
    proof {
        assert(s@.take(len as int) =~= s@);
    }
    chars
}

/// Whether two strings hold the same characters.
pub fn str_eq(a: &str, b: &str) -> (r: bool)
    ensures
        r == (a@ == b@),
{
    let a_len = a.unicode_len();
    let b_len = b.unicode_len();
    if a_len != b_len {
        return false;
    }
    let mut i: usize = 0;
    while i < a_len
        invariant
            i <= a_len,
            a_len == a@.len() == b@.len(),
            forall|j: int| 0 <= j < i ==> a@[j] == b@[j],
        decreases a_len - i,
    {
        if a.get_char(i) != b.get_char(i) {
            return false;
        }
        i = i + 1;
    }
    proof {
        assert(a@ =~= b@);
    }
    true
}

/// A decimal digit.
pub open spec fn spec_is_digit(c: char) -> bool {
    '0' <= c && c <= '9'
}

/// Every character is a decimal digit.
pub open spec fn spec_all_digits(s: Seq<char>) -> bool {
    forall|i: int| 0 <= i < s.len() ==> spec_is_digit(#[trigger] s[i])
}

/// The numeric value of a digit string, most significant first.
pub open spec fn spec_dec_value(s: Seq<char>) -> int
    decreases s.len(),
{
    if s.len() == 0 {
        0
    } else {
        spec_dec_value(s.drop_last()) * 10 + (s.last() as int - '0' as int)
    }
}

pub proof fn lemma_dec_value_nonneg(s: Seq<char>)
    requires
        spec_all_digits(s),
    ensures
        spec_dec_value(s) >= 0,
    decreases s.len(),
{
    if s.len() > 0 {
        lemma_dec_value_nonneg(s.drop_last());
    }
}

pub proof fn lemma_dec_value_prefix(s: Seq<char>, i: int)
    requires
        spec_all_digits(s),
        0 <= i <= s.len(),
    ensures
        spec_dec_value(s.take(i)) <= spec_dec_value(s),
    decreases s.len() - i,
{
    if i < s.len() {
        assert(s.take(i + 1).drop_last() =~= s.take(i));
        assert(s.take(i + 1).last() == s[i]);
        assert(spec_all_digits(s.take(i))) by {
            assert(forall|j: int| 0 <= j < i ==> s.take(i)[j] == s[j]);
        }
        lemma_dec_value_nonneg(s.take(i));
        assert(spec_dec_value(s.take(i + 1)) >= spec_dec_value(s.take(i)));
        lemma_dec_value_prefix(s, i + 1);
    } else {
        assert(s.take(i) =~= s);
    }
}

/// What [`parse_u16`] yields: the value of a non-empty all-digit
/// string that fits, an error otherwise.
pub open spec fn spec_parse_u16(s: Seq<char>) -> Result<u16, VdrParseError> {
    if s.len() > 0 && spec_all_digits(s) && spec_dec_value(s) <= u16::MAX {
        Ok(spec_dec_value(s) as u16)
    } else {
        Err(VdrParseError::IntParse)
    }
}

/// What [`parse_u32`] yields.
pub open spec fn spec_parse_u32(s: Seq<char>) -> Result<u32, VdrParseError> {
    if s.len() > 0 && spec_all_digits(s) && spec_dec_value(s) <= u32::MAX {
        Ok(spec_dec_value(s) as u32)
    } else {
        Err(VdrParseError::IntParse)
    }
}

/// What [`parse_u8`] yields.
pub open spec fn spec_parse_u8(s: Seq<char>) -> Result<u8, VdrParseError> {
    if s.len() > 0 && spec_all_digits(s) && spec_dec_value(s) <= u8::MAX {
        Ok(spec_dec_value(s) as u8)
    } else {
        Err(VdrParseError::IntParse)
    }
}

/// Parses an unsigned decimal number: defined exactly for non-empty
/// all-digit strings whose value fits the requested bound.
pub fn parse_u32_bounded(s: &str, max: u32) -> (r: Result<u32, VdrParseError>)
    ensures
        match r {
            Ok(v) => s@.len() > 0 && spec_all_digits(s@) && v == spec_dec_value(s@) && v <= max,
            Err(e) => (s@.len() == 0 || !spec_all_digits(s@) || spec_dec_value(s@) > max) && e
                == VdrParseError::IntParse,
        },
{
    let len = s.unicode_len();
    if len == 0 {
        return Err(VdrParseError::IntParse);
    }
    let mut acc: u32 = 0;
    let mut i: usize = 0;
    while i < len
        invariant
            0 < len == s@.len(),
            i <= len,
            spec_all_digits(s@.take(i as int)),
            acc == spec_dec_value(s@.take(i as int)),
            acc <= max,
        decreases len - i,
    {
        let c = s.get_char(i);
        if c < '0' || c > '9' {
            return Err(VdrParseError::IntParse);
        }
        let d: u32 = (c as u32) - 48;
        proof {
            assert(s@.take(i as int + 1).drop_last() =~= s@.take(i as int));
            assert(s@.take(i as int + 1).last() == s@[i as int]);
            assert(spec_all_digits(s@.take(i as int + 1)));
        }
        if acc > max / 10 || d > max || 10 * acc > max - d {
            proof {
                if spec_all_digits(s@) {
                    lemma_dec_value_prefix(s@, i as int + 1);
                }
            }
            return Err(VdrParseError::IntParse);
        }
        acc = 10 * acc + d;
        i = i + 1;
    }
    proof {
        assert(s@.take(len as int) =~= s@);
    }
    Ok(acc)
}

/// Parses a 16-bit unsigned decimal number.
pub fn parse_u16(s: &str) -> (r: Result<u16, VdrParseError>)
    ensures
        r == spec_parse_u16(s@),
{
    match parse_u32_bounded(s, 65535) {
        Ok(v) => Ok(v as u16),
        Err(e) => Err(e),
    }
}

/// Parses a 32-bit unsigned decimal number.
pub fn parse_u32(s: &str) -> (r: Result<u32, VdrParseError>)
    ensures
        r == spec_parse_u32(s@),
{
    parse_u32_bounded(s, 0xffff_ffff)
}

/// Parses an 8-bit unsigned decimal number.
pub fn parse_u8(s: &str) -> (r: Result<u8, VdrParseError>)
    ensures
        r == spec_parse_u8(s@),
{
    match parse_u32_bounded(s, 255) {
        Ok(v) => Ok(v as u8),
        Err(e) => Err(e),
    }
}

/// The digit character of a value below ten.
pub open spec fn spec_digit_char(d: int) -> char {
    if d == 0 { '0' }
    else if d == 1 { '1' }
    else if d == 2 { '2' }
    else if d == 3 { '3' }
    else if d == 4 { '4' }
    else if d == 5 { '5' }
    else if d == 6 { '6' }
    else if d == 7 { '7' }
    else if d == 8 { '8' }
    else { '9' }
}

/// The decimal digits of a number, most significant first.
pub open spec fn spec_dec_str(n: nat) -> Seq<char>
    decreases n,
{
    if n < 10 {
        seq![spec_digit_char(n as int)]
    } else {
        spec_dec_str(n / 10).push(spec_digit_char((n % 10) as int))
    }
}

fn digit_char(d: u32) -> (r: char)
    requires
        d < 10,
    ensures
        r == spec_digit_char(d as int),
{
    match d {
        0 => '0',
        1 => '1',
        2 => '2',
        3 => '3',
        4 => '4',
        5 => '5',
        6 => '6',
        7 => '7',
        8 => '8',
        _ => '9',
    }
}

/// Writes a number in decimal.
pub fn format_u32(v: u32) -> (r: String)
    ensures
        r@ == spec_dec_str(v as nat),
    decreases v,
{
    if v < 10 {
        let mut chars: Vec<char> = Vec::new();
        chars.push(digit_char(v));
        proof {
            assert(chars@ =~= seq![spec_digit_char(v as int)]);
        }
        chars_to_string(&chars)
    } else {
        let mut s = format_u32(v / 10);
        let mut chars: Vec<char> = Vec::new();
        chars.push(digit_char(v % 10));
        proof {
            assert(chars@ =~= seq![spec_digit_char((v % 10) as int)]);
        }
        let tail = chars_to_string(&chars);
        s.append(tail.as_str());
        proof {
            assert(spec_dec_str((v / 10) as nat) + seq![spec_digit_char((v % 10) as int)]
                =~= spec_dec_str((v / 10) as nat).push(spec_digit_char((v % 10) as int)));
        }
        s
    }
}

/// The first position of a character at or after `from`, or -1.
pub open spec fn spec_find_char_from(s: Seq<char>, c: char, from: int) -> int
    decreases s.len() - from,
{
    if from < 0 || from >= s.len() {
        -1
    } else if s[from] == c {
        from
    } else {
        spec_find_char_from(s, c, from + 1)
    }
}

/// The first position of a character, or -1 when it does not occur.
pub open spec fn spec_find_char(s: Seq<char>, c: char) -> int {
    spec_find_char_from(s, c, 0)
}

pub proof fn lemma_find_char_from(s: Seq<char>, c: char, from: int)
    requires
        0 <= from <= s.len(),
    ensures
        spec_find_char_from(s, c, from) == -1 ==> forall|j: int|
            from <= j < s.len() ==> s[j] != c,
        spec_find_char_from(s, c, from) >= 0 ==> {
            &&& from <= spec_find_char_from(s, c, from) < s.len()
            &&& s[spec_find_char_from(s, c, from)] == c
            &&& forall|j: int| from <= j < spec_find_char_from(s, c, from) ==> s[j] != c
        },
    decreases s.len() - from,
{
    if from < s.len() {
        lemma_find_char_from(s, c, from + 1);
    }
}

/// The first position of a character at or after `from`.
pub fn find_char_from(s: &str, c: char, from: usize) -> (r: Option<usize>)
    requires
        from <= s@.len(),
    ensures
        match r {
            Some(i) => from <= i < s@.len() && spec_find_char_from(s@, c, from as int) == i,
            None => spec_find_char_from(s@, c, from as int) == -1,
        },
{
    let len = s.unicode_len();
    let mut i: usize = from;
    while i < len
        invariant
            from <= i <= len,
            len == s@.len(),
            spec_find_char_from(s@, c, from as int) == spec_find_char_from(s@, c, i as int),
        decreases len - i,
    {
        if s.get_char(i) == c {
            return Some(i);
        }
        i = i + 1;
    }
    None
}

/// The last position of a character, or -1 when it does not occur.
pub open spec fn spec_rfind_char(s: Seq<char>, c: char) -> int
    decreases s.len(),
{
    if s.len() == 0 {
        -1
    } else if s.last() == c {
        s.len() - 1
    } else {
        spec_rfind_char(s.drop_last(), c)
    }
}

pub proof fn lemma_rfind_char(s: Seq<char>, c: char)
    ensures
        spec_rfind_char(s, c) == -1 ==> forall|j: int| 0 <= j < s.len() ==> s[j] != c,
        spec_rfind_char(s, c) >= 0 ==> {
            &&& spec_rfind_char(s, c) < s.len()
            &&& s[spec_rfind_char(s, c)] == c
            &&& forall|j: int| spec_rfind_char(s, c) < j < s.len() ==> s[j] != c
        },
    decreases s.len(),
{
    if s.len() > 0 && s.last() != c {
        lemma_rfind_char(s.drop_last(), c);
        assert(forall|j: int| 0 <= j < s.len() - 1 ==> s[j] == s.drop_last()[j]);
    }
}

/// The last position of a character.
pub fn rfind_char(s: &str, c: char) -> (r: Option<usize>)
    ensures
        match r {
            Some(i) => i < s@.len() && spec_rfind_char(s@, c) == i,
            None => spec_rfind_char(s@, c) == -1,
        },
{
    let len = s.unicode_len();
    proof {
        assert(s@.take(len as int) =~= s@);
    }
    let mut i: usize = len;
    while i > 0
        invariant
            i <= len,
            len == s@.len(),
            spec_rfind_char(s@, c) == spec_rfind_char(s@.take(i as int), c),
        decreases i,
    {
        proof {
            assert(s@.take(i as int).last() == s@[i as int - 1]);
            assert(s@.take(i as int).drop_last() =~= s@.take(i as int - 1));
        }
        if s.get_char(i - 1) == c {
            return Some(i - 1);
        }
        i = i - 1;
    }
    proof {
        assert(s@.take(0) =~= Seq::<char>::empty());
    }
    None
}

/// The pieces of a string cut at every occurrence of a separator; a
/// string without the separator is one piece, and n separators make
/// n + 1 pieces.
pub open spec fn spec_split(s: Seq<char>, sep: char) -> Seq<Seq<char>>
    decreases s.len(),
{
    let i = spec_find_char(s, sep);
    if i < 0 || i >= s.len() {
        seq![s]
    } else {
        seq![s.take(i)] + spec_split(s.skip(i + 1), sep)
    }
}

/// Cuts a string at every occurrence of a separator.
pub fn split_str(s: &str, sep: char) -> (r: Vec<String>)
    ensures
        seq_view(r@) == spec_split(s@, sep),
        r@.len() >= 1,
{
    let mut pieces: Vec<String> = Vec::new();
    let mut start: usize = 0;
    let len = s.unicode_len();

    proof {
        assert(s@.skip(0) =~= s@);
        assert(seq_view(pieces@) =~= Seq::<Seq<char>>::empty());
    }

    loop
        invariant
            start <= len,
            len == s@.len(),
            spec_split(s@, sep) == seq_view(pieces@) + spec_split(s@.skip(start as int), sep),
        decreases len - start,
    {
        let ghost rem = s@.skip(start as int);
        match find_char_from(s, sep, start) {
            Some(i) => {
                let piece = String::from_str(s.substring_char(start, i));
                proof {
                    lemma_find_skip(s@, sep, start as int, i as int);
                    assert(rem.take(i - start) =~= s@.subrange(start as int, i as int));
                    assert(rem.skip(i - start + 1) =~= s@.skip(i as int + 1));
                    lemma_seq_view_push(pieces@, piece);
                    assert(seq_view(pieces@) + (seq![piece@] + spec_split(
                        s@.skip(i as int + 1),
                        sep,
                    )) =~= seq_view(pieces@).push(piece@) + spec_split(s@.skip(i as int + 1), sep));
                }
                pieces.push(piece);
                start = i + 1;
            },
            None => {
                let piece = String::from_str(s.substring_char(start, len));
                proof {
                    lemma_find_skip_none(s@, sep, start as int);
                    assert(rem =~= s@.subrange(start as int, len as int));
                    lemma_seq_view_push(pieces@, piece);
                    assert(seq_view(pieces@) + seq![piece@] =~= seq_view(pieces@).push(piece@));
                }
                pieces.push(piece);
                return pieces;
            },
        }
    }
}

proof fn lemma_find_skip(s: Seq<char>, sep: char, start: int, i: int)
    requires
        0 <= start <= i < s.len(),
        spec_find_char_from(s, sep, start) == i,
    ensures
        spec_find_char(s.skip(start), sep) == i - start,
    decreases i - start,
{
    let rem = s.skip(start);
    lemma_find_char_from(s, sep, start);
    assert(rem[i - start] == s[i]);
    assert(forall|j: int| 0 <= j < i - start ==> rem[j] == s[start + j]);
    lemma_find_char_first(rem, sep, i - start);
}

proof fn lemma_find_skip_none(s: Seq<char>, sep: char, start: int)
    requires
        0 <= start <= s.len(),
        spec_find_char_from(s, sep, start) == -1,
    ensures
        spec_find_char(s.skip(start), sep) == -1,
{
    let rem = s.skip(start);
    lemma_find_char_from(s, sep, start);
    assert(forall|j: int| 0 <= j < rem.len() ==> rem[j] == s[start + j]);
    lemma_find_char_no_hit(rem, sep, 0);
}

proof fn lemma_find_char_first(s: Seq<char>, sep: char, i: int)
    requires
        0 <= i < s.len(),
        s[i] == sep,
        forall|j: int| 0 <= j < i ==> s[j] != sep,
    ensures
        spec_find_char(s, sep) == i,
{
    lemma_find_char_hit_from(s, sep, 0, i);
}

proof fn lemma_find_char_hit_from(s: Seq<char>, sep: char, from: int, i: int)
    requires
        0 <= from <= i < s.len(),
        s[i] == sep,
        forall|j: int| from <= j < i ==> s[j] != sep,
    ensures
        spec_find_char_from(s, sep, from) == i,
    decreases i - from,
{
    if from < i {
        lemma_find_char_hit_from(s, sep, from + 1, i);
    }
}

proof fn lemma_find_char_no_hit(s: Seq<char>, sep: char, from: int)
    requires
        0 <= from <= s.len(),
        forall|j: int| from <= j < s.len() ==> s[j] != sep,
    ensures
        spec_find_char_from(s, sep, from) == -1,
    decreases s.len() - from,
{
    if from < s.len() {
        lemma_find_char_no_hit(s, sep, from + 1);
    }
}

/// An inclusive range of acceptable values, as reported by a device.
#[derive(Debug, Copy, Clone)]
pub struct ValueBounds {
    pub min: u32,
    pub max: u32,
}

impl ValueBounds {
    pub fn new(min: u32, max: u32) -> (r: ValueBounds)
        ensures
            r.min == min,
            r.max == max,
    {
        ValueBounds { min, max }
    }
}

} // verus!
