//! Building strings one character at a time, and the decimal and
//! hexadecimal spelling of numbers.

use vstd::prelude::*;

verus! {

/// The decimal digit `d` (below ten).
pub open spec fn digit_char(d: nat) -> char {
    (48 + d) as char
}

/// The upper-case hexadecimal digit `d` (below sixteen).
pub open spec fn hex_digit_char(d: nat) -> char {
    if d < 10 {
        (48 + d) as char
    } else {
        (55 + d) as char
    }
}

/// `n` in decimal, without leading zeros.
pub open spec fn decimal(n: nat) -> Seq<char>
    decreases n,
{
    if n < 10 {
        seq![digit_char(n)]
    } else {
        decimal(n / 10) + seq![digit_char(n % 10)]
    }
}

/// `n` in upper-case hexadecimal, without leading zeros.
pub open spec fn hex(n: nat) -> Seq<char>
    decreases n,
{
    if n < 16 {
        seq![hex_digit_char(n)]
    } else {
        hex(n / 16) + seq![hex_digit_char(n % 16)]
    }
}

/// Appends `c` to `s`. Trusted: calls `String::push`, which appends one
/// character.
#[verifier::external_body]
pub(crate) fn push_char(s: &mut String, c: char)
    ensures
        final(s)@ == old(s)@.push(c),
{
    s.push(c);
}

/// The character whose code is `n`, if there is one. Trusted: calls
/// `char::from_u32`, which returns a character exactly for the Unicode
/// scalar values, the codes up to 0x10FFFF that are not surrogates.
#[verifier::external_body]
pub(crate) fn char_from_u32(n: u32) -> (r: Option<char>)
    ensures
        (n <= 0xD7FF || (0xE000 <= n && n <= 0x10FFFF)) ==> r == Some(n as char),
        !(n <= 0xD7FF || (0xE000 <= n && n <= 0x10FFFF)) ==> r is None,
{
    char::from_u32(n)
}

/// Appends the hexadecimal digit `d` to `s`.
fn push_digit(s: &mut String, d: u32)
    requires
        d < 16,
    ensures
        final(s)@ == old(s)@.push(hex_digit_char(d as nat)),
{
    let code: u32 = if d < 10 { 48 + d } else { 55 + d };
    let c = char_from_u32(code);
    match c {
        Some(c) => push_char(s, c),
        None => {},
    }
}

/// Appends `n` in decimal to `s`.
pub(crate) fn push_decimal(s: &mut String, n: u32)
    ensures
        final(s)@ == old(s)@ + decimal(n as nat),
    decreases n,
{
    if n >= 10 {
        push_decimal(s, n / 10);
    }
    push_digit(s, n % 10);
}

/// Appends `n` in upper-case hexadecimal to `s`.
pub(crate) fn push_hex(s: &mut String, n: u32)
    ensures
        final(s)@ == old(s)@ + hex(n as nat),
    decreases n,
{
    if n >= 16 {
        push_hex(s, n / 16);
    }
    push_digit(s, n % 16);
}

/// Appends the characters of `src` from position `from` up to `to` to `out`.
pub(crate) fn push_chars(out: &mut String, src: &str, from: usize, to: usize)
    requires
        from <= to <= src@.len(),
    ensures
        final(out)@ == old(out)@ + src@.subrange(from as int, to as int),
{
    let mut i: usize = from;
    while i < to
        invariant
            from <= i <= to <= src@.len(),
            out@ == old(out)@ + src@.subrange(from as int, i as int),
        decreases to - i,
    {
        let c = src.get_char(i);
        push_char(out, c);
        assert(src@.subrange(from as int, i + 1) == src@.subrange(from as int, i as int).push(c));
        i = i + 1;
    }
}

/// Whether `s` begins with `prefix`.
pub open spec fn has_prefix(s: Seq<char>, prefix: Seq<char>) -> bool {
    prefix.len() <= s.len() && s.subrange(0, prefix.len() as int) == prefix
}

/// Whether `s` begins with `prefix`.
pub(crate) fn starts_with(s: &str, prefix: &str) -> (r: bool)
    ensures
        r == has_prefix(s@, prefix@),
{
    let n = prefix.unicode_len();
    if n > s.unicode_len() {
        return false;
    }
    let mut i: usize = 0;
    while i < n
        invariant
            n == prefix@.len(),
            n <= s@.len(),
            i <= n,
            forall|j: int| 0 <= j < i ==> s@[j] == prefix@[j],
        decreases n - i,
    {
        if s.get_char(i) != prefix.get_char(i) {
            assert(s@.subrange(0, n as int)[i as int] != prefix@[i as int]);
            return false;
        }
        i = i + 1;
    }
    assert(s@.subrange(0, n as int) =~= prefix@);
    true
}

} // verus!
