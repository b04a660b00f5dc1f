use badges::is_control_char;
use badges::measure;
use badges::preferred_width;

#[test]
fn test_measure_empty_is_zero() {
    assert_eq!(measure(""), 0);
}

#[test]
fn test_measure_known_widths() {
    // widths are in tenths of a unit
    assert_eq!(measure("m"), 107);
    assert_eq!(measure("i"), 27);
    assert_eq!(measure("hi"), 90);
    assert_eq!(measure("build"), 241);
    assert_eq!(measure("passing"), 378);
    assert_eq!(measure("0123456789"), 640);
}

#[test]
fn test_measure_additive_under_concatenation() {
    assert_eq!(measure("buildpassing"), measure("build") + measure("passing"));
    assert_eq!(measure("a b"), measure("a ") + measure("b"));
    assert_eq!(measure("mm"), 2 * measure("m"));
}

#[test]
fn test_measure_control_chars_contribute_nothing() {
    assert_eq!(measure("\u{0}\u{1}\u{1f}\u{7f}"), 0);
    assert_eq!(measure("a\u{1}b"), measure("ab"));
    assert_eq!(measure("\tm\n"), measure("m"));
}

#[test]
fn test_measure_unmapped_falls_back_to_m_width() {
    // an emoji is outside the table: it gets the width of the letter m
    assert_eq!(measure("\u{1F600}"), 107);
    assert_eq!(measure("\u{2603}"), 107);
}

#[test]
fn test_measure_range_lookup() {
    // codepoints inside a multi-codepoint range of the table
    assert_eq!(measure("\u{c1}"), 70); // inside 192..=214
    assert_eq!(measure("\u{f6}"), 62); // inside 216..=246
    assert_eq!(measure("\u{153}"), 65); // inside 256..=383
    assert_eq!(measure("\u{a0}"), 35); // the single-codepoint entry at 160
}

#[test]
fn test_is_control_char() {
    assert!(is_control_char(0));
    assert!(is_control_char(31));
    assert!(!is_control_char(32));
    assert!(is_control_char(127));
    assert!(!is_control_char(126));
    assert!(!is_control_char(128));
}

#[test]
fn test_preferred_width_empty() {
    assert_eq!(preferred_width(""), 0);
}

#[test]
fn test_preferred_width_bumps_even_integers() {
    // " -" measures 8.0, an exact even integer, so it is bumped to 9.0
    assert_eq!(measure(" -"), 80);
    assert_eq!(preferred_width(" -"), 90);
    // "!" measures 4.0, also even
    assert_eq!(measure("!"), 40);
    assert_eq!(preferred_width("!"), 50);
}

#[test]
fn test_preferred_width_passes_others_through() {
    // "i" measures 2.7, not an integer: unchanged
    assert_eq!(preferred_width("i"), 27);
    // "ii" measures 5.4, an integer multiple of tenths but not even: unchanged
    assert_eq!(preferred_width("ii"), 54);
    // "build" measures 24.1: unchanged
    assert_eq!(preferred_width("build"), 241);
}
