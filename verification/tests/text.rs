use board_cli::text::{char_is_white_space, push_decimal, split_lines, to_ascii_uppercase, trim};

#[test]
fn trim_removes_unicode_white_space() {
    assert_eq!(trim("  a b \t\n"), "a b");
    assert_eq!(trim("\u{3000}x\u{a0}"), "x");
    assert_eq!(trim("   "), "");
    assert_eq!(trim(""), "");
    assert_eq!(trim("ab"), "ab");
}

#[test]
fn white_space_matches_std() {
    for c in ['\t', '\n', ' ', '\u{85}', '\u{a0}', '\u{2003}', '\u{3000}', 'a', '_', '\u{200b}'] {
        assert_eq!(char_is_white_space(c), c.is_whitespace());
    }
}

#[test]
fn ascii_upper_case() {
    assert_eq!(to_ascii_uppercase('a'), 'A');
    assert_eq!(to_ascii_uppercase('z'), 'Z');
    assert_eq!(to_ascii_uppercase('A'), 'A');
    assert_eq!(to_ascii_uppercase('1'), '1');
    assert_eq!(to_ascii_uppercase('\u{e9}'), '\u{e9}');
}

#[test]
fn decimal_rendering() {
    for n in [0usize, 7, 10, 42, 1000, 123456789] {
        let mut s = String::from("n=");
        push_decimal(&mut s, n);
        assert_eq!(s, format!("n={}", n));
    }
}

#[test]
fn lines_match_std() {
    for text in ["", "a", "a\n", "a\nb", "a\r\nb\r\n", "a\r", "\n\n", "x\ry\nz", "\r\n"] {
        let ours = split_lines(text);
        let theirs: Vec<String> = text.lines().map(|l| l.to_string()).collect();
        assert_eq!(ours, theirs, "lines of {:?}", text);
    }
}
