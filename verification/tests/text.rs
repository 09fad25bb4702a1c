use cc_switch::text::{append_bytes, append_text, decimal, push_decimal, single_line};

#[test]
fn single_line_flattens_breaks_and_tabs() {
    assert_eq!(single_line("a\r\nb\tc"), "a  b c");
    assert_eq!(single_line("\n"), " ");
}

#[test]
fn single_line_keeps_other_text() {
    assert_eq!(single_line(""), "");
    assert_eq!(single_line("连接 reset\u{0b}"), "连接 reset\u{0b}");
}

#[test]
fn flattening_twice_changes_nothing() {
    let once = single_line("x\ty\nz");
    assert_eq!(single_line(&once), once);
    assert_eq!(once.chars().count(), 5);
}

#[test]
fn appends_add_at_the_end() {
    let mut output = vec![1u8, 2];
    append_bytes(&mut output, &[3, 4]);
    append_text(&mut output, "é");
    append_text(&mut output, "");
    assert_eq!(output, vec![1, 2, 3, 4, 0xc3, 0xa9]);
}

#[test]
fn decimal_covers_the_whole_range() {
    assert_eq!(decimal(0), "0");
    assert_eq!(decimal(19), "19");
    assert_eq!(decimal(-7), "-7");
    assert_eq!(decimal(i64::MAX), "9223372036854775807");
    assert_eq!(decimal(i64::MIN), "-9223372036854775808");
}

#[test]
fn push_decimal_adds_behind_a_text() {
    let mut text = String::from("n=");
    push_decimal(&mut text, 1024);
    assert_eq!(text, "n=1024");
    let mut largest = String::new();
    push_decimal(&mut largest, u64::MAX);
    assert_eq!(largest, "18446744073709551615");
}
