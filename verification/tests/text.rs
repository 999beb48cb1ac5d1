use inertia::text::{is_space, same_text, trimmed};

#[test]
fn trimmed_strips_both_ends() {
    assert_eq!(trimmed("  1 \n"), "1");
    assert_eq!(trimmed("\t yes\r\n"), "yes");
    assert_eq!(trimmed("abc"), "abc");
}

#[test]
fn trimmed_keeps_inner_space() {
    assert_eq!(trimmed("  a b  c "), "a b  c");
}

#[test]
fn trimmed_of_blank_is_empty() {
    assert_eq!(trimmed(""), "");
    assert_eq!(trimmed(" \t\n"), "");
    assert_eq!(trimmed("\u{3000}\u{a0}"), "");
}

#[test]
fn trimmed_agrees_with_std_on_unicode_space() {
    let lines = [
        "\u{85}x\u{1680}",
        "\u{2000}x y\u{200a}",
        "\u{2028}\u{2029}x\u{202f}\u{205f}",
        "\u{b}\u{c}x",
        "\u{200b}x\u{200b}",
        "\u{180e}x",
        "é \u{3000}",
    ];
    for line in lines {
        assert_eq!(trimmed(line), line.trim());
    }
}

#[test]
fn is_space_agrees_with_std_on_every_char() {
    let mut n: u32 = 0;
    while n <= 0x10FFFF {
        if let Some(c) = char::from_u32(n) {
            assert_eq!(is_space(c), c.is_whitespace(), "U+{:04X}", n);
        }
        n += 1;
    }
}

#[test]
fn trimmed_is_idempotent() {
    let once = trimmed(" \t 2.5 \n");
    assert_eq!(trimmed(once), once);
}

#[test]
fn same_text_compares_characters() {
    assert!(same_text("", ""));
    assert!(same_text("yes", "yes"));
    assert!(!same_text("yes", "Yes"));
    assert!(!same_text("yes", "ye"));
    assert!(!same_text("ye", "yes"));
    assert!(same_text("né", "né"));
    assert!(!same_text("ne", "né"));
}
