use hoshizora_parser::decimal::{parse_decimal, Decimal};
use hoshizora_parser::error::ErrorKind;
use hoshizora_parser::parse;
use hoshizora_parser::text::{parse_i32, parse_u32, parse_u8, split_lines_str, trim_str};

fn dec(negative: bool, mantissa: u64, scale: u32) -> Decimal {
    Decimal::from_parts(negative, mantissa, scale)
}

#[test]
fn decimal_literals_are_read_exactly() {
    assert_eq!(parse_decimal("0.75").unwrap(), dec(false, 75, 2));
    assert_eq!(parse_decimal("5").unwrap(), dec(false, 5, 0));
    assert_eq!(parse_decimal("5.0").unwrap(), dec(false, 5, 0));
    assert_eq!(parse_decimal("5.").unwrap(), dec(false, 5, 0));
    assert_eq!(parse_decimal(".5").unwrap(), dec(false, 5, 1));
    assert_eq!(parse_decimal("+1.40").unwrap(), dec(false, 14, 1));
    assert_eq!(parse_decimal("-2.5").unwrap(), dec(true, 25, 1));
    assert_eq!(parse_decimal("-0.0").unwrap(), dec(false, 0, 0));
}

#[test]
fn decimal_rejects_everything_else() {
    assert!(parse_decimal("").is_none());
    assert!(parse_decimal(".").is_none());
    assert!(parse_decimal("-").is_none());
    assert!(parse_decimal("1.2.3").is_none());
    assert!(parse_decimal("1e3").is_none());
    assert!(parse_decimal("12a").is_none());
    assert!(parse_decimal(" 1").is_none());
}

#[test]
fn normalization_makes_equal_values_structurally_equal() {
    assert_eq!(dec(false, 500, 2), dec(false, 5, 0));
    assert_eq!(dec(false, 500, 2), Decimal::from_int(5));
    assert_eq!(dec(true, 0, 3), Decimal::from_int(0));
    assert_ne!(dec(false, 5, 1), dec(false, 5, 0));
}

#[test]
fn integer_parsers_are_strict() {
    assert_eq!(parse_u32("10"), Some(10));
    assert_eq!(parse_u32("+7"), Some(7));
    assert_eq!(parse_u32("-1"), None);
    assert_eq!(parse_u32("4294967295"), Some(u32::MAX));
    assert_eq!(parse_u32("4294967296"), None);
    assert_eq!(parse_u32("10 "), None);
    assert_eq!(parse_u32(""), None);
    assert_eq!(parse_i32("-1"), Some(-1));
    assert_eq!(parse_i32("-2147483648"), Some(i32::MIN));
    assert_eq!(parse_i32("-2147483649"), None);
    assert_eq!(parse_i32("2147483647"), Some(i32::MAX));
    assert_eq!(parse_i32("2147483648"), None);
    assert_eq!(parse_u8("255"), Some(255));
    assert_eq!(parse_u8("256"), None);
}

#[test]
fn boolean_toggles_read_any_nonzero_byte_as_true() {
    let beatmap = parse("[General]\nLetterboxInBreaks: 2\nUseSkinSprites: 0\n").unwrap();
    assert!(beatmap.general.letterbox_in_breaks);
    assert!(!beatmap.general.use_skin_sprites);
    let err = parse("[General]\nLetterboxInBreaks: 256\n").unwrap_err();
    assert_eq!(
        err.kind,
        ErrorKind::NumericConversionFailed {
            key: String::from("LetterboxInBreaks"),
            value: String::from("256"),
        }
    );
}

#[test]
fn keys_and_values_are_trimmed_before_use() {
    let beatmap = parse("[General]\n  AudioFilename  :   spaced.mp3  \n").unwrap();
    assert_eq!(beatmap.general.audio_filename, "spaced.mp3");
}

#[test]
fn keys_are_case_sensitive() {
    let beatmap = parse("[General]\naudiofilename: x.mp3\n").unwrap();
    assert_eq!(beatmap.general.audio_filename, "");
}

#[test]
fn headers_match_exactly_after_trimming() {
    let beatmap = parse("  [General]  \nAudioFilename: a.mp3\n").unwrap();
    assert_eq!(beatmap.general.audio_filename, "a.mp3");
    // An unknown bracketed name is not a header: it is content of the
    // current section.
    let err = parse("[General]\n[NoSuchSection]\n").unwrap_err();
    assert_eq!(err.kind, ErrorKind::MissingColon);
}

#[test]
fn blank_and_comment_lines_do_not_touch_section_state() {
    let text = "[Difficulty]\n\n   \n// CircleSize:9\nCircleSize:4.2\n";
    let beatmap = parse(text).unwrap();
    assert_eq!(beatmap.difficulty.cs, dec(false, 42, 1));
}

#[test]
fn later_sections_and_carriage_returns_are_handled() {
    let text = "[General]\r\nMode: 3\r\n[Metadata]\r\nTitle:CRLF\r\n";
    let beatmap = parse(text).unwrap();
    assert_eq!(beatmap.metadata.title, "CRLF");
}

#[test]
fn line_splitting_matches_the_line_grammar() {
    let owned = |v: Vec<&str>| -> Vec<String> { v.into_iter().map(String::from).collect() };
    assert_eq!(split_lines_str(""), Vec::<String>::new());
    assert_eq!(split_lines_str("a\nb"), owned(vec!["a", "b"]));
    assert_eq!(split_lines_str("a\n"), owned(vec!["a"]));
    assert_eq!(split_lines_str("a\r\nb\r\n"), owned(vec!["a", "b"]));
    assert_eq!(split_lines_str("a\n\nb"), owned(vec!["a", "", "b"]));
}

#[test]
fn trimming_removes_surrounding_whitespace_only() {
    assert_eq!(trim_str("  a b \t"), "a b");
    assert_eq!(trim_str(""), "");
    assert_eq!(trim_str(" \t "), "");
}
