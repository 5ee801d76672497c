//! Names of Windows virtual-key codes, as shown for dropped keys.

use vstd::prelude::*;

use crate::text::{decimal, digit_char, hex, hex_digit_char, push_char, push_decimal, push_hex, char_from_u32};

verus! {

/// The keys that have a name of their own.
pub open spec fn vk_table(vk: u32) -> Option<Seq<char>> {
    if vk == 0x08 { Some("Backspace"@) }
    else if vk == 0x09 { Some("Tab"@) }
    else if vk == 0x0D { Some("Enter"@) }
    else if vk == 0x13 { Some("Pause"@) }
    else if vk == 0x14 { Some("Caps Lock"@) }
    else if vk == 0x1B { Some("Esc"@) }
    else if vk == 0x20 { Some("Space"@) }
    else if vk == 0x21 { Some("Page Up"@) }
    else if vk == 0x22 { Some("Page Down"@) }
    else if vk == 0x23 { Some("End"@) }
    else if vk == 0x24 { Some("Home"@) }
    else if vk == 0x25 { Some("Left"@) }
    else if vk == 0x26 { Some("Up"@) }
    else if vk == 0x27 { Some("Right"@) }
    else if vk == 0x28 { Some("Down"@) }
    else if vk == 0x2C { Some("Print Screen"@) }
    else if vk == 0x2D { Some("Insert"@) }
    else if vk == 0x2E { Some("Delete"@) }
    else if vk == 0x5B { Some("Win Left"@) }
    else if vk == 0x5C { Some("Win Right"@) }
    else if vk == 0x5D { Some("Menu"@) }
    else if vk == 0x90 { Some("Num Lock"@) }
    else if vk == 0x91 { Some("Scroll Lock"@) }
    else if vk == 0xA0 { Some("Shift Left"@) }
    else if vk == 0xA1 { Some("Shift Right"@) }
    else if vk == 0xA2 { Some("Ctrl Left"@) }
    else if vk == 0xA3 { Some("Ctrl Right"@) }
    else if vk == 0xA4 { Some("Alt Left"@) }
    else if vk == 0xA5 { Some("Alt Right"@) }
    else { None }
}

/// The name of `vk` where it does not depend on the keyboard layout: a
/// named key, a numeric-keypad digit (`Num 0` to `Num 9`) or a function key
/// (`F1` to `F24`).
pub open spec fn fixed_name(vk: u32) -> Option<Seq<char>> {
    if vk_table(vk) is Some {
        vk_table(vk)
    } else if 0x60 <= vk <= 0x69 {
        Some("Num "@ + decimal((vk - 0x60) as nat))
    } else if 0x70 <= vk <= 0x87 {
        Some("F"@ + decimal((vk - 0x6F) as nat))
    } else {
        None
    }
}

/// Whether `c` is a control character (general category Cc).
pub open spec fn is_control_code(c: u32) -> bool {
    c < 0x20 || (0x7F <= c && c <= 0x9F)
}

/// `vk` as `VK 0x` and at least two upper-case hexadecimal digits.
pub open spec fn vk_code_name(vk: u32) -> Seq<char> {
    "VK 0x"@ + (if vk < 16 { seq!['0'] } else { Seq::empty() }) + hex(vk as nat)
}

/// The name of `vk` from the character that the keyboard layout maps it
/// to, `mapped` (the low fifteen bits hold the character): that character
/// where it is printable and not a space, else the code itself.
pub open spec fn char_name(vk: u32, mapped: u32) -> Seq<char> {
    let ch = mapped & 0x7FFF;
    if !is_control_code(ch) && ch != 0x20 {
        seq![ch as char]
    } else {
        vk_code_name(vk)
    }
}

/// The entry of `vk` in the table of named keys.
fn table_entry(vk: u32) -> (r: Option<&'static str>)
    ensures
        vk_table(vk) is Some <==> r is Some,
        r is Some ==> r->0@ == vk_table(vk)->0,
{
    match vk {
        0x08 => Some("Backspace"),
        0x09 => Some("Tab"),
        0x0D => Some("Enter"),
        0x13 => Some("Pause"),
        0x14 => Some("Caps Lock"),
        0x1B => Some("Esc"),
        0x20 => Some("Space"),
        0x21 => Some("Page Up"),
        0x22 => Some("Page Down"),
        0x23 => Some("End"),
        0x24 => Some("Home"),
        0x25 => Some("Left"),
        0x26 => Some("Up"),
        0x27 => Some("Right"),
        0x28 => Some("Down"),
        0x2C => Some("Print Screen"),
        0x2D => Some("Insert"),
        0x2E => Some("Delete"),
        0x5B => Some("Win Left"),
        0x5C => Some("Win Right"),
        0x5D => Some("Menu"),
        0x90 => Some("Num Lock"),
        0x91 => Some("Scroll Lock"),
        0xA0 => Some("Shift Left"),
        0xA1 => Some("Shift Right"),
        0xA2 => Some("Ctrl Left"),
        0xA3 => Some("Ctrl Right"),
        0xA4 => Some("Alt Left"),
        0xA5 => Some("Alt Right"),
        _ => None,
    }
}

/// The name of `vk` where the keyboard layout plays no part, or `None`
/// where the name has to come from the character the layout maps the key
/// to (see `char_key_name`).
pub fn fixed_key_name(vk: u32) -> (r: Option<String>)
    ensures
        r is Some <==> fixed_name(vk) is Some,
        r is Some ==> r->0@ == fixed_name(vk)->0,
{
    if let Some(named) = table_entry(vk) {
        return Some(String::from_str(named));
    }
    if 0x60 <= vk && vk <= 0x69 {
        let mut s = String::from_str("Num ");
        push_decimal(&mut s, vk - 0x60);
        return Some(s);
    }
    if 0x70 <= vk && vk <= 0x87 {
        let mut s = String::from_str("F");
        push_decimal(&mut s, vk - 0x6F);
        return Some(s);
    }
    None
}

/// The name of `vk` from `mapped`, what the keyboard layout maps the key
/// to (`MapVirtualKeyW` with `MAPVK_VK_TO_CHAR`): the character where it is
/// printable and not a space, else `VK` and the code in hexadecimal.
pub fn char_key_name(vk: u32, mapped: u32) -> (r: String)
    ensures
        r@ == char_name(vk, mapped),
{
    let ch: u32 = mapped & 0x7FFF;
    assert(ch <= 0x7FFF) by (bit_vector)
        requires
            ch == mapped & 0x7FFF,
    ;
    if let Some(c) = char_from_u32(ch) {
        if !(ch < 0x20 || (0x7F <= ch && ch <= 0x9F)) && ch != 0x20 {
            let mut s = String::new();
            push_char(&mut s, c);
            assert(s@ =~= seq![ch as char]);
            return s;
        }
    }
    let mut s = String::from_str("VK 0x");
    if vk < 16 {
        push_char(&mut s, '0');
    }
    push_hex(&mut s, vk);
    assert(s@ =~= vk_code_name(vk));
    s
}

/// The keys with a name of their own are named as Windows users know them:
/// the Backspace key (`VK_BACK`, 0x08) is `Backspace`, the left arrow
/// (`VK_LEFT`, 0x25) is `Left`, the right arrow (`VK_RIGHT`, 0x27) is
/// `Right`, and so on for each such key.
pub proof fn lemma_named_keys()
    ensures
        fixed_name(0x08) == Some(seq!['B', 'a', 'c', 'k', 's', 'p', 'a', 'c', 'e']),
        fixed_name(0x09) == Some(seq!['T', 'a', 'b']),
        fixed_name(0x0D) == Some(seq!['E', 'n', 't', 'e', 'r']),
        fixed_name(0x13) == Some(seq!['P', 'a', 'u', 's', 'e']),
        fixed_name(0x14) == Some(seq!['C', 'a', 'p', 's', ' ', 'L', 'o', 'c', 'k']),
        fixed_name(0x1B) == Some(seq!['E', 's', 'c']),
        fixed_name(0x20) == Some(seq!['S', 'p', 'a', 'c', 'e']),
        fixed_name(0x21) == Some(seq!['P', 'a', 'g', 'e', ' ', 'U', 'p']),
        fixed_name(0x22) == Some(seq!['P', 'a', 'g', 'e', ' ', 'D', 'o', 'w', 'n']),
        fixed_name(0x23) == Some(seq!['E', 'n', 'd']),
        fixed_name(0x24) == Some(seq!['H', 'o', 'm', 'e']),
        fixed_name(0x25) == Some(seq!['L', 'e', 'f', 't']),
        fixed_name(0x26) == Some(seq!['U', 'p']),
        fixed_name(0x27) == Some(seq!['R', 'i', 'g', 'h', 't']),
        fixed_name(0x28) == Some(seq!['D', 'o', 'w', 'n']),
        fixed_name(0x2C) == Some(seq!['P', 'r', 'i', 'n', 't', ' ', 'S', 'c', 'r', 'e', 'e', 'n']),
        fixed_name(0x2D) == Some(seq!['I', 'n', 's', 'e', 'r', 't']),
        fixed_name(0x2E) == Some(seq!['D', 'e', 'l', 'e', 't', 'e']),
        fixed_name(0x5B) == Some(seq!['W', 'i', 'n', ' ', 'L', 'e', 'f', 't']),
        fixed_name(0x5C) == Some(seq!['W', 'i', 'n', ' ', 'R', 'i', 'g', 'h', 't']),
        fixed_name(0x5D) == Some(seq!['M', 'e', 'n', 'u']),
        fixed_name(0x90) == Some(seq!['N', 'u', 'm', ' ', 'L', 'o', 'c', 'k']),
        fixed_name(0x91) == Some(seq!['S', 'c', 'r', 'o', 'l', 'l', ' ', 'L', 'o', 'c', 'k']),
        fixed_name(0xA0) == Some(seq!['S', 'h', 'i', 'f', 't', ' ', 'L', 'e', 'f', 't']),
        fixed_name(0xA1) == Some(seq!['S', 'h', 'i', 'f', 't', ' ', 'R', 'i', 'g', 'h', 't']),
        fixed_name(0xA2) == Some(seq!['C', 't', 'r', 'l', ' ', 'L', 'e', 'f', 't']),
        fixed_name(0xA3) == Some(seq!['C', 't', 'r', 'l', ' ', 'R', 'i', 'g', 'h', 't']),
        fixed_name(0xA4) == Some(seq!['A', 'l', 't', ' ', 'L', 'e', 'f', 't']),
        fixed_name(0xA5) == Some(seq!['A', 'l', 't', ' ', 'R', 'i', 'g', 'h', 't']),
{
    reveal_strlit("Backspace");
    assert("Backspace"@ =~= seq!['B', 'a', 'c', 'k', 's', 'p', 'a', 'c', 'e']);
    reveal_strlit("Tab");
    assert("Tab"@ =~= seq!['T', 'a', 'b']);
    reveal_strlit("Enter");
    assert("Enter"@ =~= seq!['E', 'n', 't', 'e', 'r']);
    reveal_strlit("Pause");
    assert("Pause"@ =~= seq!['P', 'a', 'u', 's', 'e']);
    reveal_strlit("Caps Lock");
    assert("Caps Lock"@ =~= seq!['C', 'a', 'p', 's', ' ', 'L', 'o', 'c', 'k']);
    reveal_strlit("Esc");
    assert("Esc"@ =~= seq!['E', 's', 'c']);
    reveal_strlit("Space");
    assert("Space"@ =~= seq!['S', 'p', 'a', 'c', 'e']);
    reveal_strlit("Page Up");
    assert("Page Up"@ =~= seq!['P', 'a', 'g', 'e', ' ', 'U', 'p']);
    reveal_strlit("Page Down");
    assert("Page Down"@ =~= seq!['P', 'a', 'g', 'e', ' ', 'D', 'o', 'w', 'n']);
    reveal_strlit("End");
    assert("End"@ =~= seq!['E', 'n', 'd']);
    reveal_strlit("Home");
    assert("Home"@ =~= seq!['H', 'o', 'm', 'e']);
    reveal_strlit("Left");
    assert("Left"@ =~= seq!['L', 'e', 'f', 't']);
    reveal_strlit("Up");
    assert("Up"@ =~= seq!['U', 'p']);
    reveal_strlit("Right");
    assert("Right"@ =~= seq!['R', 'i', 'g', 'h', 't']);
    reveal_strlit("Down");
    assert("Down"@ =~= seq!['D', 'o', 'w', 'n']);
    reveal_strlit("Print Screen");
    assert("Print Screen"@ =~= seq!['P', 'r', 'i', 'n', 't', ' ', 'S', 'c', 'r', 'e', 'e', 'n']);
    reveal_strlit("Insert");
    assert("Insert"@ =~= seq!['I', 'n', 's', 'e', 'r', 't']);
    reveal_strlit("Delete");
    assert("Delete"@ =~= seq!['D', 'e', 'l', 'e', 't', 'e']);
    reveal_strlit("Win Left");
    assert("Win Left"@ =~= seq!['W', 'i', 'n', ' ', 'L', 'e', 'f', 't']);
    reveal_strlit("Win Right");
    assert("Win Right"@ =~= seq!['W', 'i', 'n', ' ', 'R', 'i', 'g', 'h', 't']);
    reveal_strlit("Menu");
    assert("Menu"@ =~= seq!['M', 'e', 'n', 'u']);
    reveal_strlit("Num Lock");
    assert("Num Lock"@ =~= seq!['N', 'u', 'm', ' ', 'L', 'o', 'c', 'k']);
    reveal_strlit("Scroll Lock");
    assert("Scroll Lock"@ =~= seq!['S', 'c', 'r', 'o', 'l', 'l', ' ', 'L', 'o', 'c', 'k']);
    reveal_strlit("Shift Left");
    assert("Shift Left"@ =~= seq!['S', 'h', 'i', 'f', 't', ' ', 'L', 'e', 'f', 't']);
    reveal_strlit("Shift Right");
    assert("Shift Right"@ =~= seq!['S', 'h', 'i', 'f', 't', ' ', 'R', 'i', 'g', 'h', 't']);
    reveal_strlit("Ctrl Left");
    assert("Ctrl Left"@ =~= seq!['C', 't', 'r', 'l', ' ', 'L', 'e', 'f', 't']);
    reveal_strlit("Ctrl Right");
    assert("Ctrl Right"@ =~= seq!['C', 't', 'r', 'l', ' ', 'R', 'i', 'g', 'h', 't']);
    reveal_strlit("Alt Left");
    assert("Alt Left"@ =~= seq!['A', 'l', 't', ' ', 'L', 'e', 'f', 't']);
    reveal_strlit("Alt Right");
    assert("Alt Right"@ =~= seq!['A', 'l', 't', ' ', 'R', 'i', 'g', 'h', 't']);
}

/// The numeric-keypad digits `VK_NUMPAD0` to `VK_NUMPAD9` (0x60 to 0x69)
/// are named `Num 0` to `Num 9`.
pub proof fn lemma_keypad_digits(vk: u32)
    requires
        0x60 <= vk <= 0x69,
    ensures
        fixed_name(vk) == Some(seq!['N', 'u', 'm', ' ', ((vk - 0x60) + 48) as char]),
{
    reveal_strlit("Num ");
    assert(seq!['N', 'u', 'm', ' '] =~= "Num "@);
    assert("Num "@ + seq![((vk - 0x60) + 48) as char] =~= seq!['N', 'u', 'm', ' ', ((vk - 0x60) + 48) as char]);
}

/// The function keys `VK_F1` to `VK_F24` (0x70 to 0x87) are named `F1` to
/// `F24`.
pub proof fn lemma_function_keys(vk: u32)
    requires
        0x70 <= vk <= 0x87,
    ensures
        ({
            let n = vk - 0x6F;
            fixed_name(vk) == Some(
                if n < 10 {
                    seq!['F', (n + 48) as char]
                } else {
                    seq!['F', (n / 10 + 48) as char, (n % 10 + 48) as char]
                },
            )
        }),
{
    reveal_strlit("F");
    let n = (vk - 0x6F) as nat;
    assert(decimal(n / 10) == seq![digit_char(n / 10)]);
    assert(seq!['F'] =~= "F"@);
    if n < 10 {
        assert("F"@ + decimal(n) =~= seq!['F', (n + 48) as char]);
    } else {
        assert("F"@ + decimal(n) =~= seq!['F', (n / 10 + 48) as char, (n % 10 + 48) as char]);
    }
}

/// The name of a key from the character the layout maps it to is that
/// character, read from the low fifteen bits of `mapped` (the top bit marks
/// a dead key), whenever it is printable and not a space: for the A key on
/// a Russian layout (0x0424) it is `Ф`. Otherwise it is the key's code.
pub proof fn lemma_char_name_is_the_mapped_character(vk: u32, mapped: u32)
    ensures
        ({
            let c = mapped % 0x8000;
            if c > 0x20 && (c < 0x7F || c > 0x9F) {
                char_name(vk, mapped) == seq![c as char]
            } else {
                char_name(vk, mapped) == vk_code_name(vk)
            }
        }),
{
    assert(mapped & 0x7FFF == mapped % 0x8000) by (bit_vector);
}

/// A key without a printable character is named `VK 0x` and its code in
/// two upper-case hexadecimal digits: 0x05 is `VK 0x05`, 0xFF is `VK 0xFF`.
pub proof fn lemma_code_names(vk: u32)
    requires
        vk < 0x100,
    ensures
        ({
            let hi = vk / 16;
            let lo = vk % 16;
            vk_code_name(vk) == seq![
                'V',
                'K',
                ' ',
                '0',
                'x',
                (if hi < 10 { hi + 48 } else { hi + 55 }) as char,
                (if lo < 10 { lo + 48 } else { lo + 55 }) as char,
            ]
        }),
{
    reveal_strlit("VK 0x");
    let n = vk as nat;
    if n >= 16 {
        assert(hex(n / 16) == seq![hex_digit_char(n / 16)]);
        assert(hex(n) == hex(n / 16) + seq![hex_digit_char(n % 16)]);
    }
    assert(vk_code_name(vk) =~= seq![
        'V',
        'K',
        ' ',
        '0',
        'x',
        (if vk / 16 < 10 { vk / 16 + 48 } else { vk / 16 + 55 }) as char,
        (if vk % 16 < 10 { vk % 16 + 48 } else { vk % 16 + 55 }) as char,
    ]);
}

} // verus!
