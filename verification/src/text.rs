//! The text codec: canonical and URN formatting, and parsing.
//!
//! The canonical form is the 36-character lowercase hyphenated hex layout
//! `xxxxxxxx-xxxx-xxxx-xxxx-xxxxxxxxxxxx`; the URN form prefixes it with
//! `urn:uuid:`. Parsing accepts exactly those two layouts, with hex digits
//! of either case, and rejects everything else.
use crate::Bytes;
use crate::Uuid;
use vstd::prelude::*;
use vstd::string::StrSliceExecFns;
use vstd::string::StringExecFns;

verus! {

/// Error parsing a UUID from text.
#[derive(Debug)]
pub struct ParseUuidError;

/// Whether `c` is a hex digit, of either case.
pub open spec fn is_hex_digit(c: char) -> bool {
    (48 <= c as u32 && c as u32 <= 57) || (97 <= c as u32 && c as u32 <= 102) || (65 <= c as u32
        && c as u32 <= 70)
}

/// The value of the hex digit `c`.
pub open spec fn hex_val(c: char) -> u8
    recommends
        is_hex_digit(c),
{
    if 48 <= c as u32 && c as u32 <= 57 {
        (c as u32 - 48) as u8
    } else if 97 <= c as u32 && c as u32 <= 102 {
        (c as u32 - 87) as u8
    } else {
        (c as u32 - 55) as u8
    }
}

/// The lowercase hex digit for the nibble `n`.
pub open spec fn hex_char(n: u8) -> char
    recommends
        n < 16,
{
    if n == 0 {
        '0'
    } else if n == 1 {
        '1'
    } else if n == 2 {
        '2'
    } else if n == 3 {
        '3'
    } else if n == 4 {
        '4'
    } else if n == 5 {
        '5'
    } else if n == 6 {
        '6'
    } else if n == 7 {
        '7'
    } else if n == 8 {
        '8'
    } else if n == 9 {
        '9'
    } else if n == 10 {
        'a'
    } else if n == 11 {
        'b'
    } else if n == 12 {
        'c'
    } else if n == 13 {
        'd'
    } else if n == 14 {
        'e'
    } else {
        'f'
    }
}

/// Rendering a nibble and reading the digit back is the identity.
pub proof fn lemma_hex_char(n: u8)
    requires
        n < 16,
    ensures
        is_hex_digit(hex_char(n)),
        hex_val(hex_char(n)) == n,
{
}

/// The two lowercase hex digits of the byte `b`.
pub open spec fn spec_hex_pair(b: u8) -> Seq<char> {
    seq![hex_char(b / 16), hex_char(b % 16)]
}

/// The hex rendering of the bytes `s[from .. to]`, two digits per byte.
pub open spec fn spec_hex_group(s: Seq<u8>, from: int, to: int) -> Seq<char>
    recommends
        0 <= from <= to <= s.len(),
    decreases to - from,
{
    if to <= from {
        Seq::empty()
    } else {
        spec_hex_group(s, from, to - 1) + spec_hex_pair(s[to - 1])
    }
}

pub proof fn lemma_hex_group_len(s: Seq<u8>, from: int, to: int)
    requires
        0 <= from <= to <= s.len(),
    ensures
        spec_hex_group(s, from, to).len() == 2 * (to - from),
    decreases to - from,
{
    if from < to {
        lemma_hex_group_len(s, from, to - 1);
    }
}

pub proof fn lemma_hex_group_index(s: Seq<u8>, from: int, to: int, j: int)
    requires
        0 <= from <= j < to <= s.len(),
    ensures
        spec_hex_group(s, from, to)[2 * (j - from)] == hex_char(s[j] / 16),
        spec_hex_group(s, from, to)[2 * (j - from) + 1] == hex_char(s[j] % 16),
    decreases to - from,
{
    lemma_hex_group_len(s, from, to - 1);
    if j < to - 1 {
        lemma_hex_group_index(s, from, to - 1, j);
    }
}

/// The canonical 36-character text of 16 bytes: five hex groups of
/// 8, 4, 4, 4 and 12 digits, separated by dashes.
pub open spec fn spec_canonical(s: Seq<u8>) -> Seq<char>
    recommends
        s.len() == 16,
{
    spec_hex_group(s, 0, 4) + seq!['-'] + spec_hex_group(s, 4, 6) + seq!['-'] + spec_hex_group(
        s,
        6,
        8,
    ) + seq!['-'] + spec_hex_group(s, 8, 10) + seq!['-'] + spec_hex_group(s, 10, 16)
}

/// The nine characters of the URN prefix.
pub open spec fn spec_urn_prefix() -> Seq<char> {
    seq!['u', 'r', 'n', ':', 'u', 'u', 'i', 'd', ':']
}

/// The 45-character URN text of 16 bytes.
pub open spec fn spec_urn(s: Seq<u8>) -> Seq<char>
    recommends
        s.len() == 16,
{
    spec_urn_prefix() + spec_canonical(s)
}

/// Where the two hex digits of byte `j` stand in the canonical text:
/// `2 * j` shifted right by one place for every dash before them.
pub open spec fn spec_char_pos(j: int) -> int {
    2 * j + if j < 4 {
        0int
    } else if j < 6 {
        1int
    } else if j < 8 {
        2int
    } else if j < 10 {
        3int
    } else {
        4int
    }
}

/// The canonical text is 36 characters with dashes exactly at
/// positions 8, 13, 18 and 23.
pub proof fn lemma_canonical_dashes(s: Seq<u8>)
    requires
        s.len() == 16,
    ensures
        spec_canonical(s).len() == 36,
        spec_canonical(s)[8] == '-',
        spec_canonical(s)[13] == '-',
        spec_canonical(s)[18] == '-',
        spec_canonical(s)[23] == '-',
{
    lemma_hex_group_len(s, 0, 4);
    lemma_hex_group_len(s, 4, 6);
    lemma_hex_group_len(s, 6, 8);
    lemma_hex_group_len(s, 8, 10);
    lemma_hex_group_len(s, 10, 16);
}

/// The characters of the canonical text at the positions of byte `j` are
/// the two hex digits of that byte.
pub proof fn lemma_canonical_at(s: Seq<u8>, j: int)
    requires
        s.len() == 16,
        0 <= j < 16,
    ensures
        spec_canonical(s).len() == 36,
        spec_canonical(s)[spec_char_pos(j)] == hex_char(s[j] / 16),
        spec_canonical(s)[spec_char_pos(j) + 1] == hex_char(s[j] % 16),
{
    lemma_hex_group_len(s, 0, 4);
    lemma_hex_group_len(s, 4, 6);
    lemma_hex_group_len(s, 6, 8);
    lemma_hex_group_len(s, 8, 10);
    lemma_hex_group_len(s, 10, 16);
    if j < 4 {
        lemma_hex_group_index(s, 0, 4, j);
    } else if j < 6 {
        lemma_hex_group_index(s, 4, 6, j);
    } else if j < 8 {
        lemma_hex_group_index(s, 6, 8, j);
    } else if j < 10 {
        lemma_hex_group_index(s, 8, 10, j);
    } else {
        lemma_hex_group_index(s, 10, 16, j);
    }
}

/// Whether 36 characters have the canonical layout: dashes at their four
/// fixed positions and hex digits everywhere else.
pub open spec fn spec_canonical_shape(s: Seq<char>) -> bool {
    &&& s.len() == 36
    &&& s[8] == '-'
    &&& s[13] == '-'
    &&& s[18] == '-'
    &&& s[23] == '-'
    &&& forall|j: int|
        0 <= j < 16 ==> is_hex_digit(s[#[trigger] spec_char_pos(j)]) && is_hex_digit(
            s[spec_char_pos(j) + 1],
        )
}

/// The 16 bytes encoded by canonical-shaped text.
pub open spec fn spec_parse_canonical(s: Seq<char>) -> Seq<u8>
    recommends
        spec_canonical_shape(s),
{
    Seq::new(16, |j: int| (hex_val(s[spec_char_pos(j)]) * 16 + hex_val(s[spec_char_pos(j) + 1])) as u8)
}

/// What parsing returns on any character sequence: the encoded bytes for
/// text in exactly the canonical or the URN layout, nothing otherwise.
pub open spec fn spec_parse(s: Seq<char>) -> Option<Seq<u8>> {
    if s.len() == 45 {
        if s.subrange(0, 9) == spec_urn_prefix() && spec_canonical_shape(s.subrange(9, 45)) {
            Some(spec_parse_canonical(s.subrange(9, 45)))
        } else {
            None
        }
    } else if spec_canonical_shape(s) {
        Some(spec_parse_canonical(s))
    } else {
        None
    }
}

/// Formatting and parsing round-trip: parsing the canonical or the URN
/// text of any 16 bytes gives back exactly those bytes.
#[verifier::rlimit(50)]
pub proof fn lemma_text_round_trip(s: Seq<u8>)
    requires
        s.len() == 16,
    ensures
        spec_parse(spec_canonical(s)) == Some(s),
        spec_parse(spec_urn(s)) == Some(s),
{
    let c = spec_canonical(s);
    lemma_canonical_dashes(s);
    assert forall|j: int| 0 <= j < 16 implies is_hex_digit(c[#[trigger] spec_char_pos(j)])
        && is_hex_digit(c[spec_char_pos(j) + 1]) && hex_val(c[spec_char_pos(j)]) == s[j] / 16
        && hex_val(c[spec_char_pos(j) + 1]) == s[j] % 16 by {
        lemma_canonical_at(s, j);
        lemma_hex_char(s[j] / 16);
        lemma_hex_char(s[j] % 16);
    }
    assert(spec_canonical_shape(c));
    assert(spec_parse_canonical(c) =~= s);
    let u = spec_urn(s);
    assert(u.len() == 45);
    assert(u.subrange(0, 9) =~= spec_urn_prefix());
    assert(u.subrange(9, 45) =~= c);
}

fn push_hex_digit(s: &mut String, n: u8)
    requires
        n < 16,
    ensures
        final(s)@ == old(s)@ + seq![hex_char(n)],
{
    proof {
        reveal_strlit("0");
        reveal_strlit("1");
        reveal_strlit("2");
        reveal_strlit("3");
        reveal_strlit("4");
        reveal_strlit("5");
        reveal_strlit("6");
        reveal_strlit("7");
        reveal_strlit("8");
        reveal_strlit("9");
        reveal_strlit("a");
        reveal_strlit("b");
        reveal_strlit("c");
        reveal_strlit("d");
        reveal_strlit("e");
        reveal_strlit("f");
    }
    if n == 0 {
        s.append("0");
    } else if n == 1 {
        s.append("1");
    } else if n == 2 {
        s.append("2");
    } else if n == 3 {
        s.append("3");
    } else if n == 4 {
        s.append("4");
    } else if n == 5 {
        s.append("5");
    } else if n == 6 {
        s.append("6");
    } else if n == 7 {
        s.append("7");
    } else if n == 8 {
        s.append("8");
    } else if n == 9 {
        s.append("9");
    } else if n == 10 {
        s.append("a");
    } else if n == 11 {
        s.append("b");
    } else if n == 12 {
        s.append("c");
    } else if n == 13 {
        s.append("d");
    } else if n == 14 {
        s.append("e");
    } else {
        s.append("f");
    }
    assert(s@ =~= old(s)@ + seq![hex_char(n)]);
}

fn push_hex_byte(s: &mut String, b: u8)
    ensures
        final(s)@ == old(s)@ + spec_hex_pair(b),
{
    push_hex_digit(s, b / 16);
    push_hex_digit(s, b % 16);
    assert(s@ =~= old(s)@ + spec_hex_pair(b));
}

fn push_hex_range(s: String, bytes: &Bytes, from: usize, to: usize) -> (r: String)
    requires
        from <= to <= 16,
    ensures
        r@ == s@ + spec_hex_group(bytes@, from as int, to as int),
{
    let ghost orig = s@;
    let mut s = s;
    let mut i = from;
    while i < to
        invariant
            from <= i <= to <= 16,
            s@ == orig + spec_hex_group(bytes@, from as int, i as int),
        decreases to - i,
    {
        push_hex_byte(&mut s, bytes[i]);
        i += 1;
        assert(s@ =~= orig + spec_hex_group(bytes@, from as int, i as int));
    }
    s
}

fn push_dash(s: &mut String)
    ensures
        final(s)@ == old(s)@ + seq!['-'],
{
    proof {
        reveal_strlit("-");
    }
    s.append("-");
    assert(s@ =~= old(s)@ + seq!['-']);
}

impl Uuid {
    /// The canonical lowercase text of the UUID: 8-4-4-4-12 hex digits,
    /// 36 characters, each field fixed-width and zero-padded.
    pub fn to_string(&self) -> (s: String)
        ensures
            s@ == spec_canonical(self@),
            s@.len() == 36,
    {
        let mut s = String::new();
        s = push_hex_range(s, &self.0, 0, 4);
        push_dash(&mut s);
        s = push_hex_range(s, &self.0, 4, 6);
        push_dash(&mut s);
        s = push_hex_range(s, &self.0, 6, 8);
        push_dash(&mut s);
        s = push_hex_range(s, &self.0, 8, 10);
        push_dash(&mut s);
        s = push_hex_range(s, &self.0, 10, 16);
        proof {
            lemma_canonical_dashes(self@);
            assert(s@ =~= spec_canonical(self@));
        }
        s
    }

    /// The URN text of the UUID: the canonical text behind `urn:uuid:`,
    /// 45 characters in all.
    pub fn to_urn(&self) -> (s: String)
        ensures
            s@ == spec_urn(self@),
            s@.len() == 45,
    {
        let mut s = String::new();
        s.append("urn:uuid:");
        let tail = self.to_string();
        s.append(tail.as_str());
        proof {
            reveal_strlit("urn:uuid:");
            assert(("urn:uuid:")@ =~= spec_urn_prefix());
            assert(s@ =~= spec_urn(self@));
        }
        s
    }
}

fn hex_value_of(c: char) -> (r: Option<u8>)
    ensures
        r matches Some(v) ==> is_hex_digit(c) && v == hex_val(c) && v < 16,
        r is None ==> !is_hex_digit(c),
{
    let u = c as u32;
    if 48 <= u && u <= 57 {
        Some((u - 48) as u8)
    } else if 97 <= u && u <= 102 {
        Some((u - 87) as u8)
    } else if 65 <= u && u <= 70 {
        Some((u - 55) as u8)
    } else {
        None
    }
}

fn char_pos(j: usize) -> (p: usize)
    requires
        j < 16,
    ensures
        p == spec_char_pos(j as int),
        p <= 34,
{
    if j < 4 {
        2 * j
    } else if j < 6 {
        2 * j + 1
    } else if j < 8 {
        2 * j + 2
    } else if j < 10 {
        2 * j + 3
    } else {
        2 * j + 4
    }
}

fn parse_canonical_at(s: &str, off: usize) -> (r: Result<Uuid, ParseUuidError>)
    requires
        off <= 9,
        off + 36 <= s@.len(),
    ensures
        r matches Ok(u) ==> spec_canonical_shape(s@.subrange(off as int, off as int + 36))
            && u@ == spec_parse_canonical(s@.subrange(off as int, off as int + 36)),
        r is Err ==> !spec_canonical_shape(s@.subrange(off as int, off as int + 36)),
{
    let ghost sub = s@.subrange(off as int, off as int + 36);
    if s.get_char(off + 8) != '-' {
        return Err(ParseUuidError);
    }
    if s.get_char(off + 13) != '-' {
        return Err(ParseUuidError);
    }
    if s.get_char(off + 18) != '-' {
        return Err(ParseUuidError);
    }
    if s.get_char(off + 23) != '-' {
        return Err(ParseUuidError);
    }
    let mut bytes: Bytes = [0; 16];
    let mut j: usize = 0;
    while j < 16
        invariant
            j <= 16,
            off <= 9,
            off + 36 <= s@.len(),
            sub == s@.subrange(off as int, off as int + 36),
            sub[8] == '-',
            sub[13] == '-',
            sub[18] == '-',
            sub[23] == '-',
            forall|jj: int|
                0 <= jj < j ==> is_hex_digit(sub[#[trigger] spec_char_pos(jj)]) && is_hex_digit(
                    sub[spec_char_pos(jj) + 1],
                ) && bytes@[jj] == (hex_val(sub[spec_char_pos(jj)]) * 16 + hex_val(
                    sub[spec_char_pos(jj) + 1],
                )) as u8,
        decreases 16 - j,
    {
        let p = char_pos(j);
        let hi = hex_value_of(s.get_char(off + p));
        let lo = hex_value_of(s.get_char(off + p + 1));
        match (hi, lo) {
            (Some(h), Some(l)) => {
                bytes[j] = h * 16 + l;
            },
            _ => {
                return Err(ParseUuidError);
            },
        }
        j += 1;
    }
    let u = Uuid(bytes);
    proof {
        assert(spec_canonical_shape(sub));
        assert(u@ =~= spec_parse_canonical(sub));
    }
    Ok(u)
}

impl Uuid {
    /// Parse a UUID from its canonical or its URN text, accepting hex
    /// digits of either case; any other input is a parse failure.
    pub fn from_str(s: &str) -> (r: Result<Self, ParseUuidError>)
        ensures
            r matches Ok(u) ==> spec_parse(s@) == Some(u@),
            r is Err ==> spec_parse(s@) is None,
    {
        let n = s.unicode_len();
        if n == 45 {
            let prefix_ok = s.get_char(0) == 'u' && s.get_char(1) == 'r' && s.get_char(2) == 'n'
                && s.get_char(3) == ':' && s.get_char(4) == 'u' && s.get_char(5) == 'u'
                && s.get_char(6) == 'i' && s.get_char(7) == 'd' && s.get_char(8) == ':';
            if !prefix_ok {
                proof {
                    assert(s@.subrange(0, 9) != spec_urn_prefix());
                }
                return Err(ParseUuidError);
            }
            proof {
                assert(s@.subrange(0, 9) =~= spec_urn_prefix());
            }
            parse_canonical_at(s, 9)
        } else if n == 36 {
            proof {
                assert(s@.subrange(0, 36) =~= s@);
            }
            parse_canonical_at(s, 0)
        } else {
            Err(ParseUuidError)
        }
    }
}

} // verus!
