use color_traceback::piece::{to_plain_text, Color, Piece};
use color_traceback::text::{center, decimal_text, repeat_text, right_align};

#[test]
fn decimal_of_small_numbers() {
    assert_eq!(decimal_text(0), "0");
    assert_eq!(decimal_text(7), "7");
    assert_eq!(decimal_text(9), "9");
    assert_eq!(decimal_text(10), "10");
    assert_eq!(decimal_text(42), "42");
    assert_eq!(decimal_text(100), "100");
    assert_eq!(decimal_text(1005), "1005");
}

#[test]
fn decimal_of_large_numbers() {
    assert_eq!(decimal_text(4294967295), "4294967295");
    assert_eq!(decimal_text(u64::MAX), "18446744073709551615");
}

#[test]
fn decimal_agrees_with_the_standard_formatting() {
    let mut n: u64 = 1;
    for _ in 0..19 {
        assert_eq!(decimal_text(n), format!("{}", n));
        assert_eq!(decimal_text(n - 1), format!("{}", n - 1));
        n *= 10;
    }
}

#[test]
fn repeat_text_repeats() {
    assert_eq!(repeat_text("-", 0), "");
    assert_eq!(repeat_text("-", 3), "---");
    assert_eq!(repeat_text("ab", 2), "abab");
    assert_eq!(repeat_text("", 5), "");
}

#[test]
fn right_align_pads_with_spaces() {
    assert_eq!(right_align("7", 2), " 7");
    assert_eq!(right_align("42", 6), "    42");
    assert_eq!(right_align("42", 8), "      42");
    assert_eq!(right_align("", 3), "   ");
}

#[test]
fn right_align_leaves_wide_text_alone() {
    assert_eq!(right_align("10", 2), "10");
    assert_eq!(right_align("123", 2), "123");
    assert_eq!(right_align("abc", 0), "abc");
}

#[test]
fn right_align_counts_characters() {
    assert_eq!(right_align("\u{e9}", 3), "  \u{e9}");
    assert_eq!(right_align("\u{1F4A5}", 2), " \u{1F4A5}");
}

#[test]
fn right_align_agrees_with_the_standard_formatting() {
    for n in [0u64, 5, 9, 10, 99, 100, 12345, 1234567, 123456789] {
        let digits = decimal_text(n);
        assert_eq!(right_align(&digits, 2), format!("{:>2}", n));
        assert_eq!(right_align(&digits, 6), format!("{:>6}", n));
        assert_eq!(right_align(&digits, 8), format!("{:>8}", n));
    }
}

#[test]
fn center_puts_the_longer_rule_on_the_right() {
    assert_eq!(center("ab", 5, "-"), "-ab--");
    assert_eq!(center("ab", 6, "-"), "--ab--");
    assert_eq!(center("abc", 4, "*"), "abc*");
    assert_eq!(center("abc", 3, "*"), "abc");
    assert_eq!(center("abcd", 3, "*"), "abcd");
    assert_eq!(center("", 2, "="), "==");
}

#[test]
fn center_of_the_trace_title() {
    let expected = format!("{}[ BACKTRACE ]{}", "-".repeat(33), "-".repeat(34));
    assert_eq!(expected.chars().count(), 80);
    assert_eq!(center("[ BACKTRACE ]", 80, "-"), expected);
    assert_eq!(center("[ BACKTRACE ]", 80, "-"), format!("{:-^80}", "[ BACKTRACE ]"));
}

#[test]
fn plain_text_joins_the_texts_only() {
    let pieces = vec![
        Piece::Fg(Color::Red),
        Piece::Text("a".to_string()),
        Piece::Reset,
        Piece::Text("bc\n".to_string()),
        Piece::Fg(Color::Cyan),
        Piece::Text("".to_string()),
        Piece::Text("d".to_string()),
    ];
    assert_eq!(to_plain_text(&pieces), "abc\nd");
    assert_eq!(to_plain_text(&Vec::new()), "");
    assert_eq!(to_plain_text(&vec![Piece::Reset, Piece::Fg(Color::Green)]), "");
}
