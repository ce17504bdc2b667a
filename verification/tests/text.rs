use openless::platform::{HotkeyCapability, TargetOs};
use openless::text::{
    blank, char_is_white_space, equal_ignoring_ascii_case, has_char, join,
    opens_ignoring_ascii_case, same_list, to_decimal, trim,
};

#[test]
fn white_space_is_what_unicode_calls_so() {
    for code in 0..=0x10ffff {
        if let Some(c) = char::from_u32(code) {
            assert_eq!(char_is_white_space(c), c.is_whitespace(), "{code:x}");
        }
    }
}

#[test]
fn trimming_takes_white_space_off_both_ends() {
    for s in ["", " ", "a", " a", "a ", "\u{3000}你好\u{a0}", "a b", "\n\ta\r\n b\u{2028}"] {
        assert_eq!(trim(s), s.trim());
        assert_eq!(blank(s), s.trim().is_empty());
    }
}

#[test]
fn case_is_ignored_for_ascii_letters_alone() {
    for (a, b) in [("Shift", "sHIFT"), ("É", "é"), ("a", "ab"), ("", ""), ("[", "{"), ("ß", "SS")] {
        assert_eq!(equal_ignoring_ascii_case(a, b), a.eq_ignore_ascii_case(b));
    }
    assert!(opens_ignoring_ascii_case("KeyA", "key"));
    assert!(!opens_ignoring_ascii_case("Ke", "key"));
    assert!(has_char("a.b", '.'));
    assert!(!has_char("ab", '.'));
}

#[test]
fn numbers_are_written_in_decimal() {
    for n in [0, 7, 10, 99, 100, 1_234_567_890, u64::MAX] {
        assert_eq!(to_decimal(n), n.to_string());
    }
}

#[test]
fn lists_are_joined_and_compared_in_order() {
    let list = |names: &[&str]| -> Vec<String> { names.iter().map(|n| n.to_string()).collect() };
    assert_eq!(join(&list(&["a", "b", "c"]), "+"), "a+b+c");
    assert_eq!(join(&list(&["a"]), "+"), "a");
    assert_eq!(join(&list(&[]), "+"), "");
    assert!(same_list(&list(&["a", "b"]), &list(&["a", "b"])));
    assert!(!same_list(&list(&["a", "b"]), &list(&["b", "a"])));
    assert!(!same_list(&list(&["a"]), &list(&["a", "b"])));
}

#[test]
fn no_platform_stands_in_for_its_listener() {
    for target in [TargetOs::Windows, TargetOs::Macos, TargetOs::Linux, TargetOs::Android] {
        assert!(!HotkeyCapability::current(target).explicit_fallback_available);
    }
}
