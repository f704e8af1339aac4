use timesheets::providence::{trunc, Providence};

fn at(line: usize, column: usize, src: &str) -> Providence {
    Providence { start: 0, end: src.len(), line, column, src: src.to_string() }
}

#[test]
fn short_text_is_quoted_whole() {
    assert_eq!(trunc("abc", 40), "\"abc\"");
    assert_eq!(trunc("abc", 3), "\"abc\"");
    assert_eq!(trunc("", 0), "\"\"");
}

#[test]
fn long_text_is_cut_and_marked() {
    assert_eq!(trunc("abcdef", 3), "\"abc\"..");
    assert_eq!(trunc("abc", 0), "\"\"..");
}

#[test]
fn quoting_escapes_what_needs_it() {
    assert_eq!(trunc("a\"b\n\tc\\", 40), "\"a\\\"b\\n\\tc\\\\\"");
}

#[test]
fn the_limit_counts_bytes_and_the_cut_counts_characters() {
    // Five characters in ten bytes: over a limit of seven bytes, and cut to
    // seven characters, of which there are only five.
    assert_eq!(trunc("ééééé", 7), "\"ééééé\"..");
    assert_eq!(trunc("ééééé", 10), "\"ééééé\"");
    assert_eq!(trunc("ééééé", 2), "\"éé\"..");
}

#[test]
fn as_string_and_as_trimmed_string() {
    let p = at(1, 1, "  Monday\t\n");
    assert_eq!(p.as_string(), "  Monday\t\n");
    assert_eq!(p.as_trimmed_string(), "Monday");
    assert_eq!(at(1, 1, "\u{2028}x\u{85}").as_trimmed_string(), "x");
    assert_eq!(at(1, 1, "\u{200b}x").as_trimmed_string(), "\u{200b}x");
    assert_eq!(at(1, 1, "").as_trimmed_string(), "");
}

#[test]
fn description_shows_position_and_excerpt() {
    assert_eq!(at(3, 14, "work 1h").describe(), "At 3:14, source code: \"work 1h\"");
    assert_eq!(at(0, 1000, "").describe(), "At 0:1000, source code: \"\"");
    let long = "x".repeat(41);
    assert_eq!(
        at(12, 1, &long).describe(),
        format!("At 12:1, source code: \"{}\"..", "x".repeat(40))
    );
    let fits = "x".repeat(40);
    assert_eq!(at(12, 1, &fits).describe(), format!("At 12:1, source code: \"{}\"", fits));
}
