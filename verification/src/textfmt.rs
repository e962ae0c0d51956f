//! Verified construction of the fixed-width text fields that listing lines
//! are made of: decimal and hexadecimal renderings of integers, zero or space
//! padding, and repeated filler characters.
//!
//! Every builder appends to a `String` and states the exact character
//! sequence it appends, so the line builders in the rest of the crate can
//! pin down whole lines character by character.

use vstd::prelude::*;

verus! {

/// The decimal digit character for a value below ten.
pub open spec fn dec_char(d: int) -> char {
    if d == 0 {
        '0'
    } else if d == 1 {
        '1'
    } else if d == 2 {
        '2'
    } else if d == 3 {
        '3'
    } else if d == 4 {
        '4'
    } else if d == 5 {
        '5'
    } else if d == 6 {
        '6'
    } else if d == 7 {
        '7'
    } else if d == 8 {
        '8'
    } else {
        '9'
    }
}

/// The upper-case hexadecimal digit character for a value below sixteen.
pub open spec fn hex_char(d: int) -> char {
    if d < 10 {
        dec_char(d)
    } else if d == 10 {
        'A'
    } else if d == 11 {
        'B'
    } else if d == 12 {
        'C'
    } else if d == 13 {
        'D'
    } else if d == 14 {
        'E'
    } else {
        'F'
    }
}

/// The decimal rendering of `n`, without padding: most significant digit
/// first, a single `'0'` for zero.
pub open spec fn spec_dec(n: nat) -> Seq<char>
    decreases n,
{
    if n < 10 {
        seq![dec_char(n as int)]
    } else {
        spec_dec(n / 10) + seq![dec_char((n % 10) as int)]
    }
}

/// The upper-case hexadecimal rendering of `n`, without padding or leading
/// zeros: a single `'0'` for zero.
pub open spec fn spec_hex(n: nat) -> Seq<char>
    decreases n,
{
    if n < 16 {
        seq![hex_char(n as int)]
    } else {
        spec_hex(n / 16) + seq![hex_char((n % 16) as int)]
    }
}

/// `n` copies of the character `c`.
pub open spec fn spec_repeat(c: char, n: nat) -> Seq<char>
    decreases n,
{
    if n == 0 {
        Seq::empty()
    } else {
        spec_repeat(c, (n - 1) as nat) + seq![c]
    }
}

/// `s` left-padded with `c` up to `width` characters; `s` unchanged when it
/// is already that wide.
pub open spec fn spec_left_pad(s: Seq<char>, width: nat, c: char) -> Seq<char> {
    if s.len() >= width {
        s
    } else {
        spec_repeat(c, (width - s.len()) as nat) + s
    }
}

/// `s` right-padded with spaces up to `width` characters; `s` unchanged when
/// it is already that wide.
pub open spec fn spec_right_pad(s: Seq<char>, width: nat) -> Seq<char> {
    if s.len() >= width {
        s
    } else {
        s + spec_repeat(' ', (width - s.len()) as nat)
    }
}

/// The index of the last occurrence of `c` in `s`, or `-1` if `s` has
/// none.
pub open spec fn spec_rfind(s: Seq<char>, c: char) -> int
    decreases s.len(),
{
    if s.len() == 0 {
        -1
    } else if s.last() == c {
        s.len() - 1
    } else {
        spec_rfind(s.drop_last(), c)
    }
}

/// The last-occurrence index lies between `-1` and the end of the string,
/// and points at the character it was asked for.
pub proof fn lemma_rfind_range(s: Seq<char>, c: char)
    ensures
        -1 <= spec_rfind(s, c) < s.len(),
        spec_rfind(s, c) >= 0 ==> s[spec_rfind(s, c)] == c,
    decreases s.len(),
{
    if s.len() > 0 && s.last() != c {
        lemma_rfind_range(s.drop_last(), c);
    }
}

/// Appending characters other than `c` does not move the last occurrence
/// of `c`.
pub proof fn lemma_rfind_append(base: Seq<char>, ext: Seq<char>, c: char)
    requires
        forall|i: int| 0 <= i < ext.len() ==> ext[i] != c,
    ensures
        spec_rfind(base + ext, c) == spec_rfind(base, c),
    decreases ext.len(),
{
    if ext.len() == 0 {
        assert(base + ext =~= base);
    } else {
        assert((base + ext).drop_last() =~= base + ext.drop_last());
        lemma_rfind_append(base, ext.drop_last(), c);
    }
}

/// Relies on `String::push`: appends exactly the one character to the string.
#[verifier::external_body]
pub fn push_char(s: &mut String, c: char)
    ensures
        final(s)@ == old(s)@ + seq![c],
{
    s.push(c);
}

/// The decimal digit character for `d`, as executable code.
pub fn dec_char_of(d: u64) -> (c: char)
    requires
        d < 10,
    ensures
        c == dec_char(d as int),
{
    if d == 0 {
        '0'
    } else if d == 1 {
        '1'
    } else if d == 2 {
        '2'
    } else if d == 3 {
        '3'
    } else if d == 4 {
        '4'
    } else if d == 5 {
        '5'
    } else if d == 6 {
        '6'
    } else if d == 7 {
        '7'
    } else if d == 8 {
        '8'
    } else {
        '9'
    }
}

/// The upper-case hexadecimal digit character for `d`, as executable code.
pub fn hex_char_of(d: u64) -> (c: char)
    requires
        d < 16,
    ensures
        c == hex_char(d as int),
{
    if d < 10 {
        dec_char_of(d)
    } else if d == 10 {
        'A'
    } else if d == 11 {
        'B'
    } else if d == 12 {
        'C'
    } else if d == 13 {
        'D'
    } else if d == 14 {
        'E'
    } else {
        'F'
    }
}

/// Appends the decimal rendering of `n` to `out`.
pub fn push_dec(out: &mut String, n: u64)
    ensures
        final(out)@ == old(out)@ + spec_dec(n as nat),
    decreases n,
{
    if n < 10 {
        push_char(out, dec_char_of(n));
    } else {
        push_dec(out, n / 10);
        push_char(out, dec_char_of(n % 10));
    }
}

/// Appends the upper-case hexadecimal rendering of `n` to `out`.
pub fn push_hex(out: &mut String, n: u64)
    ensures
        final(out)@ == old(out)@ + spec_hex(n as nat),
    decreases n,
{
    if n < 16 {
        push_char(out, hex_char_of(n));
    } else {
        push_hex(out, n / 16);
        push_char(out, hex_char_of(n % 16));
    }
}

/// The number of characters in the decimal rendering of `n`.
pub fn dec_width(n: u64) -> (w: usize)
    ensures
        w == spec_dec(n as nat).len(),
        1 <= w <= 20,
    decreases n,
{
    if n < 10 {
        1
    } else {
        let inner = dec_width(n / 10);
        proof {
            lemma_dec_len_le(n as nat);
        }
        inner + 1
    }
}

/// Ten raised to the power `k`.
spec fn pow10(k: nat) -> nat
    decreases k,
{
    if k == 0 {
        1
    } else {
        10 * pow10((k - 1) as nat)
    }
}

/// The decimal rendering of a `u64` never exceeds twenty digits.
proof fn lemma_dec_len_le(n: nat)
    requires
        n <= u64::MAX,
    ensures
        spec_dec(n).len() <= 20,
{
    assert(pow10(20) > u64::MAX) by {
        reveal_with_fuel(pow10, 21);
    }
    lemma_dec_len_bound(n, 20);
}

/// A value below ten to the `k` renders as at most `k` decimal digits.
proof fn lemma_dec_len_bound(n: nat, k: nat)
    requires
        k >= 1,
        n < pow10(k),
    ensures
        spec_dec(n).len() <= k,
    decreases k,
{
    if n < 10 {
    } else {
        assert(n / 10 < pow10((k - 1) as nat)) by {
            vstd::arithmetic::div_mod::lemma_multiply_divide_lt(
                n as int,
                10,
                pow10((k - 1) as nat) as int,
            );
        }
        lemma_dec_len_bound(n / 10, (k - 1) as nat);
    }
}

/// Appends `n` copies of `c` to `out`.
pub fn push_repeat(out: &mut String, c: char, n: usize)
    ensures
        final(out)@ == old(out)@ + spec_repeat(c, n as nat),
{
    let mut i: usize = 0;
    while i < n
        invariant
            i <= n,
            out@ == old(out)@ + spec_repeat(c, i as nat),
        decreases n - i,
    {
        push_char(out, c);
        i = i + 1;
    }
    proof {
        assert(out@ =~= old(out)@ + spec_repeat(c, n as nat));
    }
}

/// Appends the decimal rendering of `n`, left-padded with `'0'` up to
/// `width` characters.
pub fn push_dec_zero_pad(out: &mut String, n: u64, width: usize)
    ensures
        final(out)@ == old(out)@ + spec_left_pad(spec_dec(n as nat), width as nat, '0'),
{
    let w = dec_width(n);
    if w < width {
        push_repeat(out, '0', width - w);
    }
    push_dec(out, n);
    proof {
        assert(out@ =~= old(out)@ + spec_left_pad(spec_dec(n as nat), width as nat, '0'));
    }
}

/// Appends the decimal rendering of `n`, left-padded with spaces up to
/// `width` characters.
pub fn push_dec_space_pad(out: &mut String, n: u64, width: usize)
    ensures
        final(out)@ == old(out)@ + spec_left_pad(spec_dec(n as nat), width as nat, ' '),
{
    let w = dec_width(n);
    if w < width {
        push_repeat(out, ' ', width - w);
    }
    push_dec(out, n);
    proof {
        assert(out@ =~= old(out)@ + spec_left_pad(spec_dec(n as nat), width as nat, ' '));
    }
}

} // verus!
