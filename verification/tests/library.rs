use universal_bot::string_map::StringMap;
use universal_bot::system::{millis_since, saturate_millis};
use universal_bot::text::{
    chars_of, contains_text, decimal_chars, starts_with_text, str_eq, string_of, trim_chars,
    CharClass,
};
use universal_bot::VERSION;

#[test]
fn test_version() {
    assert!(!VERSION.is_empty());
    assert!(VERSION.contains('.'));
}

#[test]
fn string_maps_keep_one_value_per_key() {
    let mut map: StringMap<u32> = StringMap::new();
    assert!(map.is_empty());
    assert_eq!(map.insert("a".to_string(), 1), None);
    assert_eq!(map.insert("b".to_string(), 2), None);
    assert_eq!(map.insert("a".to_string(), 3), Some(1));
    assert_eq!(map.len(), 2);
    assert_eq!(map.get("a"), Some(&3));
    assert_eq!(map.get("b"), Some(&2));
    assert_eq!(map.get("c"), None);
    assert!(map.contains_key("b") && !map.contains_key("B"));
    assert_eq!(map.key_at_index(0), "a");
    assert_eq!(*map.value_at_index(1), 2);
    assert_eq!(map.remove("a"), Some(3));
    assert_eq!(map.remove("a"), None);
    assert_eq!(map.len(), 1);
    assert_eq!(map.key_at_index(0), "b");
}

#[test]
fn text_functions_agree_with_the_standard_library() {
    for s in ["", "a", "héllo wörld", "  padded\t\n", "\u{3000}x\u{a0}"] {
        assert_eq!(string_of(&chars_of(s)), s);
        assert_eq!(string_of(&trim_chars(&chars_of(s))), s.trim());
        for needle in ["", "l", "lo w", "x", "héllo wörld!", "ö"] {
            assert_eq!(contains_text(s, needle), s.contains(needle));
            assert_eq!(starts_with_text(s, needle), s.starts_with(needle));
            assert_eq!(str_eq(s, needle), s == needle);
        }
    }
    for n in [0usize, 7, 10, 99, 100, 12345, usize::MAX] {
        assert_eq!(string_of(&decimal_chars(n)), n.to_string());
    }
    let start = std::time::Instant::now();
    assert!(millis_since(&start) < 60_000);
    assert_eq!(saturate_millis(0), 0);
    assert_eq!(saturate_millis(u64::MAX as u128), u64::MAX);
    assert_eq!(saturate_millis(u64::MAX as u128 + 1), u64::MAX);
    assert_eq!(saturate_millis(u128::MAX), u64::MAX);
}

#[test]
fn character_classes_hold_exactly_the_listed_code_points() {
    let spaces: [(u32, u32); 11] = [
        (0x09, 0x0D),
        (0x20, 0x20),
        (0x85, 0x85),
        (0xA0, 0xA0),
        (0x1680, 0x1680),
        (0x2000, 0x200A),
        (0x2028, 0x2028),
        (0x2029, 0x2029),
        (0x202F, 0x202F),
        (0x205F, 0x205F),
        (0x3000, 0x3000),
    ];
    let controls: [(u32, u32); 2] = [(0x00, 0x1F), (0x7F, 0x9F)];
    let listed = |ranges: &[(u32, u32)], n: u32| ranges.iter().any(|(lo, hi)| *lo <= n && n <= *hi);
    let mut seen: u32 = 0;
    for n in 0..=0x10FFFFu32 {
        if let Some(c) = char::from_u32(n) {
            seen += 1;
            assert_eq!(CharClass::Whitespace.contains(c), listed(&spaces, n), "U+{:04X}", n);
            assert_eq!(CharClass::Visible.contains(c), !listed(&spaces, n), "U+{:04X}", n);
            assert_eq!(CharClass::Control.contains(c), listed(&controls, n), "U+{:04X}", n);
            assert_eq!(CharClass::Slash.contains(c), c == '/');
        }
    }
    assert_eq!(seen, 0x110000 - 0x800);
    assert!(CharClass::Whitespace.contains('\n'));
    assert!(CharClass::Control.contains('\n'));
    assert!(!CharClass::Control.contains(' '));
}
