use hoshizora_parser::decimal::Decimal;
use hoshizora_parser::error::{ErrorKind, ParseError};
use hoshizora_parser::file_sections::FileSections;
use hoshizora_parser::general::{parse_general, Countdown, Mode, OverlayPosition, SampleSet};
use hoshizora_parser::parse;
use hoshizora_parser::Beatmap;

fn dec(negative: bool, mantissa: u64, scale: u32) -> Decimal {
    Decimal::from_parts(negative, mantissa, scale)
}

#[test]
fn parsing_is_deterministic_and_repeatable() {
    let text = "[General]\nAudioFilename: a.mp3\n[Difficulty]\nCircleSize:4.2\n";
    let first = parse(text).unwrap();
    let second = parse(text).unwrap();
    assert_eq!(first, second);
}

#[test]
fn empty_input_yields_all_defaults() {
    let beatmap = parse("").unwrap();
    assert_eq!(beatmap, Beatmap::default());
    assert_eq!(beatmap.general.preview_time, -1);
    assert_eq!(beatmap.general.stack_leniency, dec(false, 7, 1));
    assert_eq!(beatmap.general.countdown, Countdown::Normal);
    assert_eq!(beatmap.general.sample_set, SampleSet::Normal);
    assert_eq!(beatmap.general.mode, Mode::Osu);
    assert_eq!(beatmap.general.overlay_position, OverlayPosition::NoChange);
    assert!(beatmap.general.story_fire_in_front);
    assert!(!beatmap.general.letterbox_in_breaks);
    assert!(!beatmap.general.use_skin_sprites);
    assert!(!beatmap.general.always_show_playfield);
    assert!(!beatmap.general.epilepsy_warning);
    assert!(!beatmap.general.special_style);
    assert!(!beatmap.general.widescreen_storyboard);
    assert!(!beatmap.general.samples_match_playback_rate);
    assert_eq!(beatmap.difficulty.hp, dec(false, 5, 0));
    assert_eq!(beatmap.difficulty.cs, dec(false, 5, 0));
    assert_eq!(beatmap.difficulty.od, dec(false, 5, 0));
    assert_eq!(beatmap.difficulty.ar, dec(false, 5, 0));
    assert_eq!(beatmap.difficulty.slider_multiplier, dec(false, 14, 1));
    assert_eq!(beatmap.difficulty.slider_tickrate, dec(false, 1, 0));
    assert!(beatmap.metadata.tags.is_empty());
    assert_eq!(beatmap.metadata.beatmap_id, 0);
}

#[test]
fn header_only_input_yields_all_defaults() {
    let text = "[General]\n\n// a comment line\n[Metadata]\n  [Difficulty]  \n";
    let beatmap = parse(text).unwrap();
    assert_eq!(beatmap, Beatmap::default());
}

#[test]
fn countdown_decodes_each_code_and_rejects_the_rest() {
    assert_eq!(Countdown::from_str("0").unwrap(), Countdown::NoCountdown);
    assert_eq!(Countdown::from_str("1").unwrap(), Countdown::Normal);
    assert_eq!(Countdown::from_str("2").unwrap(), Countdown::Half);
    assert_eq!(Countdown::from_str("3").unwrap(), Countdown::Double);
    let err = Countdown::from_str("4").unwrap_err();
    assert_eq!(
        err,
        ErrorKind::UnknownEnumerationValue {
            enumeration: String::from("Countdown"),
            value: String::from("4"),
        }
    );
    assert!(Countdown::from_str("half").is_err());
    assert!(Countdown::from_str("").is_err());
}

#[test]
fn sample_set_keeps_the_documented_overload() {
    assert_eq!(SampleSet::from_str("0").unwrap(), SampleSet::Default);
    assert_eq!(SampleSet::from_str("1").unwrap(), SampleSet::Default);
    assert_eq!(SampleSet::from_str("Normal").unwrap(), SampleSet::Default);
    assert_eq!(SampleSet::from_str("2").unwrap(), SampleSet::Soft);
    assert_eq!(SampleSet::from_str("Soft").unwrap(), SampleSet::Soft);
    assert_eq!(SampleSet::from_str("3").unwrap(), SampleSet::Drum);
    assert_eq!(SampleSet::from_str("Drum").unwrap(), SampleSet::Drum);
    assert!(SampleSet::from_str("Default").is_err());
    assert!(SampleSet::from_str("drum").is_err());
}

#[test]
fn overlay_position_is_case_sensitive() {
    assert_eq!(
        OverlayPosition::from_str("Below").unwrap(),
        OverlayPosition::Below
    );
    assert_eq!(
        OverlayPosition::from_str("Above").unwrap(),
        OverlayPosition::Above
    );
    assert_eq!(
        OverlayPosition::from_str("NoChange").unwrap(),
        OverlayPosition::NoChange
    );
    let err = OverlayPosition::from_str("below").unwrap_err();
    assert_eq!(
        err,
        ErrorKind::UnknownEnumerationValue {
            enumeration: String::from("OverlayPosition"),
            value: String::from("below"),
        }
    );
}

#[test]
fn unknown_key_is_ignored_silently() {
    let beatmap = parse("[General]\nSomeFutureKey: whatever\n").unwrap();
    assert_eq!(beatmap, Beatmap::default());

    let mut direct = Beatmap::default();
    parse_general("NotAKey: 17", &mut direct).unwrap();
    assert_eq!(direct, Beatmap::default());
}

#[test]
fn tags_split_on_single_spaces() {
    let beatmap = parse("[Metadata]\nTags:a b c\n").unwrap();
    assert_eq!(
        beatmap.metadata.tags,
        vec![String::from("a"), String::from("b"), String::from("c")]
    );
}

#[test]
fn empty_tags_value_yields_no_tokens() {
    let beatmap = parse("[Metadata]\nTags:\n").unwrap();
    assert!(beatmap.metadata.tags.is_empty());
}

#[test]
fn adjacent_spaces_keep_an_empty_token() {
    let beatmap = parse("[Metadata]\nTags:a  b\n").unwrap();
    assert_eq!(
        beatmap.metadata.tags,
        vec![String::from("a"), String::new(), String::from("b")]
    );
}

#[test]
fn duplicate_tags_and_order_are_kept() {
    let beatmap = parse("[Metadata]\nTags:b a b\n").unwrap();
    assert_eq!(
        beatmap.metadata.tags,
        vec![String::from("b"), String::from("a"), String::from("b")]
    );
}

#[test]
fn general_end_to_end_scenario() {
    let text = "[General]\nAudioFilename: audio.mp3\nPreviewTime: 10\nCountdown: 0\nMode: 1\nOverlayPosition: Below\n";
    let beatmap = parse(text).unwrap();
    assert_eq!(beatmap.general.audio_filename, "audio.mp3");
    assert_eq!(beatmap.general.preview_time, 10);
    assert_eq!(beatmap.general.countdown, Countdown::NoCountdown);
    assert_eq!(beatmap.general.mode, Mode::Taiko);
    assert_eq!(beatmap.general.overlay_position, OverlayPosition::Below);
    let mut expected = Beatmap::default();
    expected.general.audio_filename = String::from("audio.mp3");
    expected.general.preview_time = 10;
    expected.general.countdown = Countdown::NoCountdown;
    expected.general.mode = Mode::Taiko;
    expected.general.overlay_position = OverlayPosition::Below;
    assert_eq!(beatmap, expected);
}

#[test]
fn metadata_end_to_end_scenario() {
    let beatmap = parse("[Metadata]\nBeatmapID:2797865\nBeatmapSetID:1351450\n").unwrap();
    assert_eq!(beatmap.metadata.beatmap_id, 2797865);
    assert_eq!(beatmap.metadata.beatmap_set_id, 1351450);
    assert_eq!(beatmap.metadata.title, "");
    assert_eq!(beatmap.metadata.artist, "");
    assert_eq!(beatmap.metadata.creator, "");
    assert!(beatmap.metadata.tags.is_empty());
}

#[test]
fn missing_colon_is_a_typed_error_with_context() {
    let err = parse("[General]\nthis line has no separator\n").unwrap_err();
    assert_eq!(
        err,
        ParseError {
            line_number: 2,
            line: String::from("this line has no separator"),
            kind: ErrorKind::MissingColon,
        }
    );
}

#[test]
fn numeric_failure_names_the_key_and_value() {
    let err = parse("[Difficulty]\nHPDrainRate:notanumber\n").unwrap_err();
    assert_eq!(
        err,
        ParseError {
            line_number: 2,
            line: String::from("HPDrainRate:notanumber"),
            kind: ErrorKind::NumericConversionFailed {
                key: String::from("HPDrainRate"),
                value: String::from("notanumber"),
            },
        }
    );
}

#[test]
fn earlier_fields_survive_a_later_failure() {
    let err = parse("[General]\nAudioFilename: kept.mp3\nPreviewTime: oops\n").unwrap_err();
    assert_eq!(err.line_number, 3);
    assert_eq!(
        err.kind,
        ErrorKind::NumericConversionFailed {
            key: String::from("PreviewTime"),
            value: String::from("oops"),
        }
    );
}

#[test]
fn content_in_an_unimplemented_section_is_an_unsupported_section_error() {
    let err = parse("[Events]\n0,0,\"bg.jpg\"\n").unwrap_err();
    assert_eq!(
        err.kind,
        ErrorKind::UnsupportedSection {
            section: FileSections::Events
        }
    );
    assert_eq!(err.line_number, 2);
}

#[test]
fn content_before_any_header_is_routed_to_the_format_section() {
    let err = parse("osu file format v14\n").unwrap_err();
    assert_eq!(
        err.kind,
        ErrorKind::UnsupportedSection {
            section: FileSections::Format
        }
    );
    assert_eq!(err.line_number, 1);
}
