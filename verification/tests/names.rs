use zkeydebouncer::key_labels::{key_label, spaced_label};
use zkeydebouncer::vk_names::{char_key_name, fixed_key_name};

#[test]
fn named_virtual_keys() {
    assert_eq!(fixed_key_name(0x08), Some("Backspace".to_string()));
    assert_eq!(fixed_key_name(0x14), Some("Caps Lock".to_string()));
    assert_eq!(fixed_key_name(0xA5), Some("Alt Right".to_string()));
    assert_eq!(fixed_key_name(0x41), None);
}

#[test]
fn keypad_digits_and_function_keys() {
    assert_eq!(fixed_key_name(0x60), Some("Num 0".to_string()));
    assert_eq!(fixed_key_name(0x69), Some("Num 9".to_string()));
    assert_eq!(fixed_key_name(0x70), Some("F1".to_string()));
    assert_eq!(fixed_key_name(0x7B), Some("F12".to_string()));
    assert_eq!(fixed_key_name(0x87), Some("F24".to_string()));
    assert_eq!(fixed_key_name(0x88), None);
}

#[test]
fn layout_characters_and_raw_codes() {
    assert_eq!(char_key_name(0x41, 0x41), "A");
    assert_eq!(char_key_name(0xBA, 0x8000 | 0xE9), "é");
    assert_eq!(char_key_name(0x05, 0), "VK 0x05");
    assert_eq!(char_key_name(0xFF, 0x20), "VK 0xFF");
    assert_eq!(char_key_name(0x1AB, 0x85), "VK 0x1AB");
}

#[test]
fn labels_from_debug_spellings() {
    assert_eq!(key_label("KeyA"), "A");
    assert_eq!(key_label("Num1"), "1");
    assert_eq!(key_label("Num"), "");
    assert_eq!(key_label("NumLock"), "Num Lock");
    assert_eq!(key_label("Unknown(42)"), "#42");
    assert_eq!(key_label("Unknown(7))"), "#7");
    assert_eq!(key_label("ShiftLeft"), "Shift Left");
    assert_eq!(key_label("F1"), "F1");
    assert_eq!(key_label("Escape"), "Escape");
    assert_eq!(key_label(""), "");
}

#[test]
fn spacing_follows_the_flags() {
    assert_eq!(spaced_label("abc", &vec![true, true, false]), "a bc");
}
