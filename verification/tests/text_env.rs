use llmidium::env::EnvMap;
use llmidium::text::decimal;
use llmidium::text::decode_lossy;
use llmidium::text::same_text;
use llmidium::text::signed_decimal;
use llmidium::text::strip_prefix;

#[test]
fn decimal_of_naturals() {
    assert_eq!(decimal(0), "0");
    assert_eq!(decimal(7), "7");
    assert_eq!(decimal(10), "10");
    assert_eq!(decimal(1234567890), "1234567890");
    assert_eq!(decimal(u64::MAX), "18446744073709551615");
}

#[test]
fn decimal_of_signed() {
    assert_eq!(signed_decimal(0), "0");
    assert_eq!(signed_decimal(255), "255");
    assert_eq!(signed_decimal(-1), "-1");
    assert_eq!(signed_decimal(i32::MAX), "2147483647");
    assert_eq!(signed_decimal(i32::MIN), "-2147483648");
    for i in [-1000, -99, -10, 9, 100, 4096] {
        assert_eq!(signed_decimal(i), i.to_string());
    }
}

#[test]
fn strip_prefix_by_characters() {
    assert_eq!(strip_prefix("file:///a", "file://"), Some("/a".to_string()));
    assert_eq!(strip_prefix("file://", "file://"), Some(String::new()));
    assert_eq!(strip_prefix("file:/", "file://"), None);
    assert_eq!(strip_prefix("", "x"), None);
    assert_eq!(strip_prefix("abc", ""), Some("abc".to_string()));
    assert_eq!(strip_prefix("\u{e9}a", "\u{e9}"), Some("a".to_string()));
    assert_eq!(strip_prefix("ea", "\u{e9}"), None);
}

#[test]
fn same_text_compares_characters() {
    assert!(same_text("", ""));
    assert!(same_text("a\u{e9}", "a\u{e9}"));
    assert!(!same_text("a", "A"));
    assert!(!same_text("a", "ab"));
}

#[test]
fn lossy_decoding() {
    assert_eq!(decode_lossy(&b"plain".to_vec()), "plain");
    assert_eq!(decode_lossy(&vec![0xe2, 0x9c, 0x93]), "\u{2713}");
    assert_eq!(decode_lossy(&vec![0xe2, 0x9c]), "\u{fffd}");
    assert_eq!(decode_lossy(&vec![b'a', 0x80, b'b']), "a\u{fffd}b");
}

#[test]
fn env_insert_keeps_first_place() {
    let mut env = EnvMap::new();
    assert_eq!(env.len(), 0);
    assert!(env.insert("PATH".to_string(), "/bin".to_string()));
    assert!(env.insert("HOME".to_string(), "/root".to_string()));
    assert!(!env.insert("PATH".to_string(), "/usr/bin".to_string()));
    assert_eq!(env.len(), 2);
    assert_eq!(
        *env.entries(),
        vec![
            ("PATH".to_string(), "/usr/bin".to_string()),
            ("HOME".to_string(), "/root".to_string())
        ]
    );
    assert_eq!(env.get("PATH"), Some(&"/usr/bin".to_string()));
    assert_eq!(env.get("HOME"), Some(&"/root".to_string()));
    assert_eq!(env.get("home"), None);
    assert_eq!(env.position("HOME"), 1);
    assert_eq!(env.position("SHELL"), 2);
}
