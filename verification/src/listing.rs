//! The SFV listing text format.
//!
//! A listing is line-oriented.  Lines whose first character is `';'` are
//! comments.  Every other line is an entry: a relative file path, a single
//! space, and the recorded CRC32 as a hexadecimal token.  The path may
//! itself contain spaces, so the token is everything after the *last* space
//! of the line, once trailing whitespace is trimmed.  The token is read
//! case-insensitively, with any number of leading zeros, as long as the
//! value fits 32 bits; it is written in upper case without padding.
//!
//! This module holds the verified parser for listing lines and the verified
//! builder for generated entry lines, together with the proof that the two
//! are inverses: a generated line parses back to exactly the name and
//! checksum it was built from.

use vstd::prelude::*;
use vstd::string::StrSliceExecFns;

use crate::textfmt::hex_char;
use crate::textfmt::lemma_rfind_append;
use crate::textfmt::lemma_rfind_range;
use crate::textfmt::push_char;
use crate::textfmt::push_hex;
use crate::textfmt::spec_hex;
use crate::textfmt::spec_rfind;

verus! {

/// Trailing whitespace trimmed from entry lines: the ASCII whitespace
/// characters.  (The listing format is in practice ASCII-framed; line
/// splitting has already removed the newlines, so this matters only for
/// stray blanks, tabs and carriage returns at the end of a line.)
pub open spec fn is_ws(c: char) -> bool {
    c == ' ' || c == '\t' || c == '\n' || c == '\r' || c == '\x0c'
}

/// Whether `c` is a hexadecimal digit, either case.
pub open spec fn is_hex_digit(c: char) -> bool {
    ('0' <= c && c <= '9') || ('a' <= c && c <= 'f') || ('A' <= c && c <= 'F')
}

/// The value of the hexadecimal digit `c`; meaningful only when
/// `is_hex_digit(c)`.
pub open spec fn hex_digit_val(c: char) -> int {
    if '0' <= c && c <= '9' {
        c as int - '0' as int
    } else if 'a' <= c && c <= 'f' {
        c as int - 'a' as int + 10
    } else if 'A' <= c && c <= 'F' {
        c as int - 'A' as int + 10
    } else {
        0
    }
}

/// The numeric value of a hexadecimal token, most significant digit first.
pub open spec fn hex_token_val(s: Seq<char>) -> int
    decreases s.len(),
{
    if s.len() == 0 {
        0
    } else {
        hex_token_val(s.drop_last()) * 16 + hex_digit_val(s.last())
    }
}

/// Whether `s` is an acceptable checksum token: at least one character, all
/// hexadecimal digits, and a value that fits 32 bits.
pub open spec fn valid_hex_token(s: Seq<char>) -> bool {
    &&& s.len() >= 1
    &&& forall|i: int| 0 <= i < s.len() ==> is_hex_digit(#[trigger] s[i])
    &&& hex_token_val(s) <= u32::MAX
}

/// `s` with its trailing whitespace removed.
pub open spec fn spec_trim_end(s: Seq<char>) -> Seq<char>
    decreases s.len(),
{
    if s.len() > 0 && is_ws(s.last()) {
        spec_trim_end(s.drop_last())
    } else {
        s
    }
}

/// The index of the last space of `s`, or `-1` if `s` has none.
pub open spec fn spec_last_space(s: Seq<char>) -> int {
    spec_rfind(s, ' ')
}

/// Whether the line is a comment: its first character is `';'`.
pub open spec fn line_is_comment(l: Seq<char>) -> bool {
    l.len() > 0 && l[0] == ';'
}

/// The index of the separator space of the line, within the trimmed line.
pub open spec fn line_sep(l: Seq<char>) -> int {
    spec_last_space(spec_trim_end(l))
}

/// The path part of an entry line: everything before the separator.
pub open spec fn line_name(l: Seq<char>) -> Seq<char> {
    spec_trim_end(l).take(line_sep(l))
}

/// The checksum token of an entry line: everything after the separator,
/// within the trimmed line.
pub open spec fn line_token(l: Seq<char>) -> Seq<char> {
    spec_trim_end(l).skip(line_sep(l) + 1)
}

/// Whether the line is a well-formed entry: not a comment, holding a
/// separator space followed by an acceptable checksum token.
pub open spec fn line_is_entry(l: Seq<char>) -> bool {
    &&& !line_is_comment(l)
    &&& line_sep(l) >= 0
    &&& valid_hex_token(line_token(l))
}

/// The recorded checksum of an entry line.
pub open spec fn line_crc(l: Seq<char>) -> u32 {
    hex_token_val(line_token(l)) as u32
}

/// The result of parsing one listing line.
#[derive(Debug)]
pub enum LineParse {
    /// The line is a comment and carries no entry.
    Comment,
    /// The line records that the file at `name` had checksum `crc`.
    Entry { name: String, crc: u32 },
    /// The line is neither a comment nor a well-formed entry: it has no
    /// separating space, or its checksum token is not acceptable.
    Malformed,
}

/// The relation between a line and its parse: exactly one case applies.
pub open spec fn line_parse_ok(l: Seq<char>, p: LineParse) -> bool {
    match p {
        LineParse::Comment => line_is_comment(l),
        LineParse::Entry { name, crc } => {
            &&& line_is_entry(l)
            &&& name@ == line_name(l)
            &&& crc == line_crc(l)
        },
        LineParse::Malformed => !line_is_comment(l) && !line_is_entry(l),
    }
}

/// Reads the checksum token from the character range `from..to` of `line`:
/// the token's value if the range is an acceptable token, `None` otherwise.
fn parse_hex_range(line: &str, from: usize, to: usize) -> (r: Option<u32>)
    requires
        from <= to <= line@.len(),
    ensures
        valid_hex_token(line@.subrange(from as int, to as int)) <==> r is Some,
        r matches Some(v) ==> v == hex_token_val(line@.subrange(from as int, to as int)),
{
    let ghost tok = line@.subrange(from as int, to as int);
    if from == to {
        return None;
    }
    let mut v: u64 = 0;
    let mut over: bool = false;
    let mut j: usize = from;
    while j < to
        invariant
            from <= j <= to <= line@.len(),
            tok == line@.subrange(from as int, to as int),
            forall|i: int| 0 <= i < j - from ==> is_hex_digit(#[trigger] tok[i]),
            !over ==> v == hex_token_val(tok.take(j - from)) && v <= u32::MAX,
            over ==> hex_token_val(tok.take(j - from)) > u32::MAX,
        decreases to - j,
    {
        let c = line.get_char(j);
        proof {
            assert(tok[j - from] == line@[j as int]);
            assert(tok.take(j + 1 - from).drop_last() =~= tok.take(j - from));
            assert(tok.take(j + 1 - from).last() == tok[j - from]);
        }
        let is_digit = ('0' <= c && c <= '9') || ('a' <= c && c <= 'f') || ('A' <= c && c <= 'F');
        if !is_digit {
            proof {
                assert(!is_hex_digit(tok[j - from]));
            }
            return None;
        }
        let d: u64 = if c <= '9' {
            c as u64 - 48
        } else if c <= 'F' {
            c as u64 - 65 + 10
        } else {
            c as u64 - 97 + 10
        };
        proof {
            assert(d == hex_digit_val(tok[j - from]));
        }
        if !over {
            let v2 = v * 16 + d;
            if v2 > 0xffff_ffff {
                over = true;
            } else {
                v = v2;
            }
        } else {
            proof {
                // The value only grows with further digits, so the
                // overflow stays an overflow.
                lemma_hex_token_val_nonneg(tok.take(j - from));
            }
        }
        j = j + 1;
    }
    proof {
        assert(tok.take(to - from) =~= tok);
    }
    if over {
        None
    } else {
        Some(v as u32)
    }
}

/// The value of a hexadecimal token is never negative.
proof fn lemma_hex_token_val_nonneg(s: Seq<char>)
    ensures
        hex_token_val(s) >= 0,
    decreases s.len(),
{
    if s.len() > 0 {
        lemma_hex_token_val_nonneg(s.drop_last());
        assert(hex_digit_val(s.last()) >= 0);
    }
}

/// Whether `c` is trimmed as trailing whitespace, as executable code.
fn is_ws_char(c: char) -> (b: bool)
    ensures
        b == is_ws(c),
{
    c == ' ' || c == '\t' || c == '\n' || c == '\r' || c == '\x0c'
}

/// The character count of `line` once trailing whitespace is trimmed.
fn trimmed_len(line: &str, len: usize) -> (k: usize)
    requires
        len == line@.len(),
    ensures
        k <= len,
        spec_trim_end(line@) == line@.take(k as int),
{
    let mut k: usize = len;
    proof {
        assert(line@.take(len as int) =~= line@);
    }
    while k > 0 && is_ws_char(line.get_char(k - 1))
        invariant
            k <= len,
            len == line@.len(),
            spec_trim_end(line@) == spec_trim_end(line@.take(k as int)),
        decreases k,
    {
        proof {
            assert(line@.take(k as int).last() == line@[k - 1]);
            assert(line@.take(k as int).drop_last() =~= line@.take(k - 1));
        }
        k = k - 1;
    }
    proof {
        if k > 0 {
            assert(line@.take(k as int).last() == line@[k - 1]);
        }
        assert(spec_trim_end(line@.take(k as int)) == line@.take(k as int));
    }
    k
}

/// The index of the last space among the first `k` characters of `line`,
/// or `None` if there is no space there.
fn last_space_before(line: &str, k: usize) -> (r: Option<usize>)
    requires
        k <= line@.len(),
    ensures
        r matches Some(i) ==> i == spec_last_space(line@.take(k as int)),
        r is None ==> spec_last_space(line@.take(k as int)) == -1,
{
    let mut j: usize = k;
    while j > 0
        invariant
            j <= k <= line@.len(),
            spec_last_space(line@.take(k as int)) == spec_last_space(line@.take(j as int)),
        decreases j,
    {
        proof {
            assert(line@.take(j as int).last() == line@[j - 1]);
            assert(line@.take(j as int).drop_last() =~= line@.take(j - 1));
        }
        if line.get_char(j - 1) == ' ' {
            return Some(j - 1);
        }
        j = j - 1;
    }
    None
}

/// Parses one listing line: a comment, an entry carrying the recorded path
/// and checksum, or a malformed line.
pub fn parse_line(line: &str) -> (r: LineParse)
    ensures
        line_parse_ok(line@, r),
{
    let len = line.unicode_len();
    if len > 0 && line.get_char(0) == ';' {
        return LineParse::Comment;
    }
    let k = trimmed_len(line, len);
    let ghost t = spec_trim_end(line@);
    match last_space_before(line, k) {
        None => LineParse::Malformed,
        Some(i) => {
            proof {
                lemma_rfind_range(line@.take(k as int), ' ');
                assert(t.skip(i + 1) =~= line@.subrange(i + 1, k as int));
            }
            match parse_hex_range(line, i + 1, k) {
                None => LineParse::Malformed,
                Some(crc) => {
                    let name = line.substring_char(0, i);
                    proof {
                        assert(t.take(i as int) =~= line@.subrange(0, i as int));
                    }
                    LineParse::Entry { name: name.to_owned(), crc }
                },
            }
        },
    }
}

/// Parses a whole listing, one [`LineParse`] per line, in order.
pub fn parse_listing(lines: &Vec<String>) -> (r: Vec<LineParse>)
    ensures
        r@.len() == lines@.len(),
        forall|i: int| 0 <= i < lines@.len() ==> line_parse_ok(lines@[i]@, #[trigger] r@[i]),
{
    let mut r: Vec<LineParse> = Vec::new();
    let n = lines.len();
    let mut idx: usize = 0;
    while idx < n
        invariant
            idx <= n,
            n == lines@.len(),
            r@.len() == idx,
            forall|i: int| 0 <= i < idx ==> line_parse_ok(lines@[i]@, #[trigger] r@[i]),
        decreases n - idx,
    {
        r.push(parse_line(lines[idx].as_str()));
        idx = idx + 1;
    }
    r
}

/// The text of a generated entry line: the path, one space, the checksum in
/// upper-case hexadecimal.
pub open spec fn spec_entry_line(name: Seq<char>, crc: u32) -> Seq<char> {
    name + seq![' '] + spec_hex(crc as nat)
}

/// Builds the entry line recording that the file at `name` has checksum
/// `crc`.
pub fn entry_line(name: &str, crc: u32) -> (r: String)
    ensures
        r@ == spec_entry_line(name@, crc),
{
    let mut r = name.to_owned();
    push_char(&mut r, ' ');
    push_hex(&mut r, crc as u64);
    proof {
        assert(r@ =~= spec_entry_line(name@, crc));
    }
    r
}

/// The hexadecimal rendering is never empty and holds hexadecimal digits
/// only.
proof fn lemma_spec_hex_digits(n: nat)
    ensures
        spec_hex(n).len() >= 1,
        forall|i: int| 0 <= i < spec_hex(n).len() ==> is_hex_digit(#[trigger] spec_hex(n)[i]),
    decreases n,
{
    if n < 16 {
        assert(is_hex_digit(hex_char(n as int)));
    } else {
        lemma_spec_hex_digits(n / 16);
        assert(is_hex_digit(hex_char((n % 16) as int)));
        assert(forall|i: int|
            0 <= i < spec_hex(n / 16).len() ==> #[trigger] spec_hex(n)[i] == spec_hex(n / 16)[i]);
    }
}

/// Reading the hexadecimal rendering of `n` back gives `n`.
proof fn lemma_spec_hex_val(n: nat)
    ensures
        hex_token_val(spec_hex(n)) == n,
    decreases n,
{
    if n < 16 {
        let s = spec_hex(n);
        assert(s == seq![hex_char(n as int)]);
        assert(s.len() == 1);
        assert(s.drop_last() =~= Seq::<char>::empty());
        assert(hex_token_val(s.drop_last()) == 0);
        assert(hex_token_val(s) == hex_token_val(s.drop_last()) * 16 + hex_digit_val(s.last()));
        assert(s.last() == hex_char(n as int));
        assert(hex_digit_val(hex_char(n as int)) == n);
    } else {
        lemma_spec_hex_val(n / 16);
        assert(spec_hex(n).drop_last() =~= spec_hex(n / 16));
        assert(spec_hex(n).last() == hex_char((n % 16) as int));
        assert(hex_digit_val(hex_char((n % 16) as int)) == n % 16);
        assert(hex_token_val(spec_hex(n)) == (n / 16) * 16 + n % 16);
        assert((n / 16) * 16 + n % 16 == n) by {
            vstd::arithmetic::div_mod::lemma_fundamental_div_mod(n as int, 16);
        }
    }
}

/// A generated entry line parses back to exactly the name and checksum it
/// was built from: the listing writer and the listing reader are inverses.
/// The one excluded case is a name whose first character is the comment
/// marker, which would make the generated line read as a comment.
pub proof fn lemma_entry_line_round_trip(name: Seq<char>, crc: u32)
    requires
        !(name.len() > 0 && name[0] == ';'),
    ensures
        line_is_entry(spec_entry_line(name, crc)),
        line_name(spec_entry_line(name, crc)) == name,
        line_crc(spec_entry_line(name, crc)) == crc,
{
    let l = spec_entry_line(name, crc);
    let hex = spec_hex(crc as nat);
    lemma_spec_hex_digits(crc as nat);
    lemma_spec_hex_val(crc as nat);

    // The line ends in a hexadecimal digit, so trimming changes nothing.
    assert(l.last() == hex.last());
    assert(!is_ws(l.last()));
    assert(spec_trim_end(l) == l);

    // The last space of the line is the separator after the name.
    assert(forall|i: int| 0 <= i < hex.len() ==> #[trigger] hex[i] != ' ');
    assert(l =~= (name + seq![' ']) + hex);
    lemma_rfind_append(name + seq![' '], hex, ' ');
    assert(spec_last_space(name + seq![' ']) == name.len());
    assert(line_sep(l) == name.len());

    // Before it stands the name, after it the checksum token.
    assert(line_name(l) =~= name);
    assert(line_token(l) =~= hex);

    // The line is no comment: it starts with the name, or with the
    // separator space when the name is empty.
    if name.len() > 0 {
        assert(l[0] == name[0]);
    } else {
        assert(l[0] == ' ');
    }
    assert(!line_is_comment(l));
}

} // verus!
