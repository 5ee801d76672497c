//! Names of keys as the portable keyboard hook reports them, made from the
//! key's debug spelling (`KeyA`, `Num1`, `ShiftLeft`, `Unknown(42)`).

use vstd::prelude::*;

use crate::text::{has_prefix, push_char, push_chars, starts_with};

verus! {

/// Whether `c` has the Unicode `Uppercase` property, as `char::is_uppercase`
/// says.
pub uninterp spec fn is_uppercase_char(c: char) -> bool;

/// Whether `c` is upper case. Trusted: calls `char::is_uppercase`; its
/// result is named, not stated.
#[verifier::external_body]
fn char_is_uppercase(c: char) -> (r: bool)
    ensures
        r == is_uppercase_char(c),
{
    c.is_uppercase()
}

/// Whether every character of `s` is an ASCII digit.
pub open spec fn all_ascii_digits(s: Seq<char>) -> bool {
    forall|i: int| 0 <= i < s.len() ==> '0' <= #[trigger] s[i] <= '9'
}

/// `s` without the closing parentheses at its end.
pub open spec fn trim_closing(s: Seq<char>) -> Seq<char>
    decreases s.len(),
{
    if s.len() > 0 && s.last() == ')' {
        trim_closing(s.drop_last())
    } else {
        s
    }
}

/// `s` with a space put before each character after the first whose flag in
/// `upper` is set.
pub open spec fn spaced(s: Seq<char>, upper: Seq<bool>) -> Seq<char>
    decreases s.len(),
{
    if s.len() == 0 {
        Seq::empty()
    } else {
        spaced(s.drop_last(), upper) + (if s.len() > 1 && upper[s.len() - 1] {
            seq![' ', s.last()]
        } else {
            seq![s.last()]
        })
    }
}

/// For each character of `s`, whether it is upper case.
pub open spec fn uppercase_flags(s: Seq<char>) -> Seq<bool> {
    Seq::new(s.len(), |i: int| is_uppercase_char(s[i]))
}

/// The label of a key whose debug spelling is `raw`: `KeyA` gives `A`,
/// `Num1` gives `1`, `Unknown(42)` gives `#42`, and any other spelling is
/// split into words before its upper-case letters (`ShiftLeft` gives
/// `Shift Left`).
pub open spec fn label(raw: Seq<char>) -> Seq<char> {
    if has_prefix(raw, "Key"@) {
        raw.skip("Key"@.len() as int)
    } else if has_prefix(raw, "Num"@) && all_ascii_digits(raw.skip("Num"@.len() as int)) {
        raw.skip("Num"@.len() as int)
    } else if has_prefix(raw, "Unknown("@) {
        seq!['#'] + trim_closing(raw.skip("Unknown("@.len() as int))
    } else {
        spaced(raw, uppercase_flags(raw))
    }
}

/// Whether the characters of `s` from position `from` on are all ASCII
/// digits.
fn digits_from(s: &str, from: usize) -> (r: bool)
    requires
        from <= s@.len(),
    ensures
        r == (forall|j: int| from <= j < s@.len() ==> '0' <= #[trigger] s@[j] <= '9'),
        r == all_ascii_digits(s@.skip(from as int)),
{
    let n = s.unicode_len();
    let mut i: usize = from;
    while i < n
        invariant
            n == s@.len(),
            from <= i <= n,
            forall|j: int| from <= j < i ==> '0' <= #[trigger] s@[j] <= '9',
        decreases n - i,
    {
        let c = s.get_char(i);
        if !('0' <= c && c <= '9') {
            assert(s@.skip(from as int)[i - from] == c);
            assert(s@[i as int] == c);
            return false;
        }
        i = i + 1;
    }
    assert forall|j: int| 0 <= j < s@.skip(from as int).len() implies '0' <= #[trigger] s@.skip(
        from as int,
    )[j] <= '9' by {
        assert(s@.skip(from as int)[j] == s@[from + j]);
    }
    true
}

/// `raw` split into words: a space goes before each character after the
/// first whose flag in `upper` is set (`upper` holds, for each character,
/// whether it is upper case).
pub fn spaced_label(raw: &str, upper: &Vec<bool>) -> (r: String)
    requires
        upper@.len() == raw@.len(),
    ensures
        r@ == spaced(raw@, upper@),
{
    let n = raw.unicode_len();
    let mut out = String::new();
    let mut i: usize = 0;
    while i < n
        invariant
            n == raw@.len(),
            upper@.len() == n,
            i <= n,
            out@ == spaced(raw@.take(i as int), upper@),
        decreases n - i,
    {
        let c = raw.get_char(i);
        let ghost before = raw@.take(i as int);
        let ghost after = raw@.take(i + 1);
        assert(after.drop_last() =~= before);
        assert(after.last() == c);
        if i > 0 && upper[i] {
            push_char(&mut out, ' ');
        }
        push_char(&mut out, c);
        assert(out@ =~= spaced(after, upper@));
        i = i + 1;
    }
    assert(raw@.take(n as int) =~= raw@);
    out
}

/// The label of a key whose debug spelling is `raw`; see `label`.
pub fn key_label(raw: &str) -> (r: String)
    ensures
        r@ == label(raw@),
{
    let n = raw.unicode_len();
    if starts_with(raw, "Key") {
        let mut s = String::new();
        let k = "Key".unicode_len();
        push_chars(&mut s, raw, k, n);
        assert(s@ =~= raw@.skip("Key"@.len() as int));
        return s;
    }
    if starts_with(raw, "Num") {
        let k = "Num".unicode_len();
        if digits_from(raw, k) {
            let mut s = String::new();
            push_chars(&mut s, raw, k, n);
            assert(s@ =~= raw@.skip("Num"@.len() as int));
            return s;
        }
    }
    if starts_with(raw, "Unknown(") {
        let k = "Unknown(".unicode_len();
        let mut end: usize = n;
        while end > k && raw.get_char(end - 1) == ')'
            invariant
                n == raw@.len(),
                k == "Unknown("@.len(),
                k <= end <= n,
                trim_closing(raw@.subrange(k as int, end as int)) == trim_closing(
                    raw@.skip(k as int),
                ),
            decreases end,
        {
            assert(raw@.subrange(k as int, end as int).drop_last() =~= raw@.subrange(
                k as int,
                end - 1,
            ));
            end = end - 1;
        }
        let mut s = String::new();
        push_char(&mut s, '#');
        push_chars(&mut s, raw, k, end);
        assert(raw@.subrange(k as int, n as int) =~= raw@.skip(k as int));
        assert(s@ =~= seq!['#'] + trim_closing(raw@.skip("Unknown("@.len() as int)));
        return s;
    }
    let mut upper: Vec<bool> = Vec::new();
    let mut i: usize = 0;
    while i < n
        invariant
            n == raw@.len(),
            i <= n,
            upper@ == uppercase_flags(raw@).take(i as int),
        decreases n - i,
    {
        let c = raw.get_char(i);
        let u = char_is_uppercase(c);
        upper.push(u);
        assert(upper@ =~= uppercase_flags(raw@).take(i + 1));
        i = i + 1;
    }
    assert(upper@ =~= uppercase_flags(raw@));
    spaced_label(raw, &upper)
}

/// A `Num` key of the top row is named by its digits alone: `Num0` is `0`,
/// `Num7` is `7`.
pub proof fn lemma_num_keys_are_their_digits(digits: Seq<char>)
    requires
        forall|i: int| 0 <= i < digits.len() ==> '0' <= #[trigger] digits[i] <= '9',
    ensures
        label("Num"@ + digits) == digits,
{
    reveal_strlit("Num");
    reveal_strlit("Key");
    let raw = "Num"@ + digits;
    assert(raw[0] == 'N');
    assert(!has_prefix(raw, "Key"@)) by {
        if has_prefix(raw, "Key"@) {
            assert(raw.subrange(0, 3)[0] == 'K');
        }
    }
    assert(raw.subrange(0, 3) =~= "Num"@);
    assert(raw.skip(3) =~= digits);
}

/// A letter key is named by what follows `Key` in its spelling: `KeyA` is
/// `A`.
pub proof fn lemma_key_prefix_is_dropped(rest: Seq<char>)
    ensures
        label("Key"@ + rest) == rest,
{
    reveal_strlit("Key");
    let raw = "Key"@ + rest;
    assert(raw.subrange(0, 3) =~= "Key"@);
    assert(raw.skip(3) =~= rest);
}

/// A key the platform does not know is named `#` and its code: `Unknown(42)`
/// is `#42`.
pub proof fn lemma_unknown_keys_show_their_code(code: Seq<char>)
    requires
        code.len() == 0 || code.last() != ')',
    ensures
        label("Unknown("@ + code + seq![')']) == seq!['#'] + code,
{
    reveal_strlit("Unknown(");
    reveal_strlit("Key");
    reveal_strlit("Num");
    let raw = "Unknown("@ + code + seq![')'];
    assert(raw[0] == 'U');
    assert(!has_prefix(raw, "Key"@)) by {
        if has_prefix(raw, "Key"@) {
            assert(raw.subrange(0, 3)[0] == 'K');
        }
    }
    assert(!has_prefix(raw, "Num"@)) by {
        if has_prefix(raw, "Num"@) {
            assert(raw.subrange(0, 3)[0] == 'N');
        }
    }
    assert(raw.subrange(0, 8) =~= "Unknown("@);
    let tail = raw.skip(8);
    assert(tail =~= code + seq![')']);
    assert(tail.drop_last() =~= code);
    assert(trim_closing(code) == code);
    assert(trim_closing(tail) == trim_closing(code));
    assert(raw.skip("Unknown("@.len() as int) == tail);
}

/// Where no character after the first is flagged upper case, nothing is
/// split: the spelling is kept as it is.
pub proof fn lemma_unflagged_spelling_is_kept(s: Seq<char>, upper: Seq<bool>)
    requires
        s.len() <= upper.len(),
        forall|i: int| 1 <= i < s.len() ==> !#[trigger] upper[i],
    ensures
        spaced(s, upper) == s,
    decreases s.len(),
{
    if s.len() > 0 {
        lemma_unflagged_spelling_is_kept(s.drop_last(), upper);
        assert(s.drop_last().push(s.last()) =~= s);
    }
}

/// A character flagged upper case, after the first, gets a space before it
/// and nothing else changes: with the flag on `L` alone, `ShiftLeft` becomes
/// `Shift Left`.
pub proof fn lemma_flagged_character_gets_a_space(s: Seq<char>, upper: Seq<bool>, k: int)
    requires
        s.len() <= upper.len(),
        1 <= k,
        upper[k],
        forall|i: int| 1 <= i < upper.len() && i != k ==> !#[trigger] upper[i],
    ensures
        k < s.len() ==> spaced(s, upper) == s.take(k) + seq![' '] + s.skip(k),
        k >= s.len() ==> spaced(s, upper) == s,
    decreases s.len(),
{
    if s.len() <= k {
        lemma_unflagged_spelling_is_kept(s, upper);
    } else {
        lemma_flagged_character_gets_a_space(s.drop_last(), upper, k);
        if s.len() - 1 == k {
            assert(s.drop_last() =~= s.take(k));
            assert(seq![' ', s.last()] =~= seq![' '] + s.skip(k));
            assert(s.take(k) + seq![' '] + s.skip(k) =~= spaced(s.drop_last(), upper) + seq![' ', s.last()]);
        } else {
            assert(s.drop_last().take(k) =~= s.take(k));
            assert(s.drop_last().skip(k).push(s.last()) =~= s.skip(k));
            assert(s.take(k) + seq![' '] + s.skip(k) =~= (s.drop_last().take(k) + seq![' '] + s.drop_last().skip(k)).push(s.last()));
        }
    }
}

} // verus!
