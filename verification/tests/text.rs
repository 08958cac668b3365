use jgrab_client::text::{join, same_text, to_decimal, trim};

fn strings(parts: &[&str]) -> Vec<String> {
    parts.iter().map(|part| part.to_string()).collect()
}

#[test]
fn join_puts_the_separator_between_neighbours() {
    assert_eq!(join(&strings(&["a", "b", "c"]), " "), "a b c");
    assert_eq!(join(&strings(&["a", "b"]), ", "), "a, b");
}

#[test]
fn join_of_one_part_is_that_part() {
    assert_eq!(join(&strings(&["alone"]), " "), "alone");
}

#[test]
fn join_of_nothing_is_empty() {
    assert_eq!(join(&strings(&[]), " "), "");
}

#[test]
fn join_keeps_empty_parts() {
    assert_eq!(join(&strings(&["", "x", ""]), " "), " x ");
}

#[test]
fn join_agrees_with_the_standard_join() {
    let parts = strings(&["System.out.println(1", "+", "2);"]);
    assert_eq!(join(&parts, " "), parts.join(" "));
}

#[test]
fn trim_removes_white_space_at_both_ends() {
    assert_eq!(trim("  --help \n"), "--help");
    assert_eq!(trim("\t-e"), "-e");
    assert_eq!(trim("-v\r\n"), "-v");
}

#[test]
fn trim_keeps_white_space_inside() {
    assert_eq!(trim(" a b  c "), "a b  c");
}

#[test]
fn trim_of_white_space_only_is_empty() {
    assert_eq!(trim(" \t\n "), "");
    assert_eq!(trim(""), "");
}

#[test]
fn trim_knows_white_space_beyond_ascii() {
    assert_eq!(trim("\u{00A0}\u{2003}x\u{3000}\u{0085}"), "x");
    assert_eq!(trim("\u{200B}x"), "\u{200B}x");
}

#[test]
fn trim_agrees_with_the_standard_trim() {
    let samples = [
        "", " ", "a", " a", "a ", " a ", "\u{1680}é \u{2028}", "日本 語\u{205F}", "\u{000B}\u{000C}z",
        "\u{001C}x",
    ];
    for sample in samples {
        assert_eq!(trim(sample), sample.trim());
    }
}

#[test]
fn same_text_compares_character_for_character() {
    assert!(same_text("--stop", "--stop"));
    assert!(!same_text("--stop", "--stop "));
    assert!(!same_text("--stop", "--stoq"));
    assert!(!same_text("", "x"));
    assert!(same_text("", ""));
    assert!(same_text("é日本", "é日本"));
}

#[test]
fn to_decimal_writes_numbers_without_leading_zeros() {
    assert_eq!(to_decimal(0), "0");
    assert_eq!(to_decimal(7), "7");
    assert_eq!(to_decimal(10), "10");
    assert_eq!(to_decimal(5002), "5002");
    assert_eq!(to_decimal(1234567890), "1234567890");
    assert_eq!(to_decimal(u64::MAX), "18446744073709551615");
}
