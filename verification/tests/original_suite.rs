use hoshizora_parser::decimal::Decimal;
use hoshizora_parser::difficulty::{parse_difficulty, Difficulty};
use hoshizora_parser::general::{
    parse_general, Countdown, General, Mode, OverlayPosition, SampleSet,
};
use hoshizora_parser::metadata::{parse_metadata, Metadata};
use hoshizora_parser::{Beatmap, Editor, Format};

fn dec(negative: bool, mantissa: u64, scale: u32) -> Decimal {
    Decimal::from_parts(negative, mantissa, scale)
}

#[test]
fn general_test_parse_general() {
    let test_str = "AudioFilename: audio.mp3
            AudioLeadIn: 0
            AudioHash: afjskldfjaldksfjklasf
            PreviewTime: 10
            Countdown: 0
            SampleSet: Drum
            StackLeniency: 0.75
            Mode: 1
            LetterboxInBreaks: 1
            StoryFireInFront: 0
            UseSkinSprites: 1
            AlwaysShowPlayfield: 1
            OverlayPosition: Below
            SkinPreference: Seoul v10
            EpilepsyWarning: 1
            CountdownOffset: 1
            SpecialStyle: 1
            WidescreenStoryboard: 1
            SamplesMatchPlaybackRate: 1";
    let mut beatmap = Beatmap::default();
    for line in test_str.lines() {
        parse_general(line, &mut beatmap).unwrap();
    }

    assert_eq!(
        beatmap,
        Beatmap {
            format: Format {},
            general: General {
                audio_filename: String::from("audio.mp3"),
                audio_lead_in: 0,
                audio_hash: String::from("afjskldfjaldksfjklasf"),
                preview_time: 10,
                countdown: Countdown::NoCountdown,
                sample_set: SampleSet::Drum,
                stack_leniency: dec(false, 75, 2),
                mode: Mode::Taiko,
                letterbox_in_breaks: true,
                story_fire_in_front: false,
                use_skin_sprites: true,
                always_show_playfield: true,
                overlay_position: OverlayPosition::Below,
                skin_preference: String::from("Seoul v10"),
                epilepsy_warning: true,
                countdown_offset: 1,
                special_style: true,
                widescreen_storyboard: true,
                samples_match_playback_rate: true,
            },
            editor: Editor {},
            metadata: Metadata::default(),
            difficulty: Difficulty::default(),
            timing_points: Vec::new(),
            hit_objects: Vec::new(),
        }
    );
}

#[test]
fn test_parse_metadata() {
    let test_str = "Title:End Time
            TitleUnicode:End Time
            Artist:Cres
            ArtistUnicode:Cres
            Creator:PaRaDogi
            Version:Dogi
            Source:
            Tags:DeviousPanda
            BeatmapID:2797865
            BeatmapSetID:1351450";
    let mut beatmap = Beatmap::default();
    for line in test_str.lines() {
        parse_metadata(line, &mut beatmap).unwrap();
    }

    assert_eq!(
        beatmap,
        Beatmap {
            format: Format {},
            general: General::default(),
            editor: Editor {},
            metadata: Metadata {
                title: String::from("End Time"),
                title_unicode: String::from("End Time"),
                artist: String::from("Cres"),
                artist_unicode: String::from("Cres"),
                creator: String::from("PaRaDogi"),
                version: String::from("Dogi"),
                source: String::new(),
                tags: vec![String::from("DeviousPanda")],
                beatmap_id: 2797865,
                beatmap_set_id: 1351450,
            },
            difficulty: Difficulty::default(),
            timing_points: Vec::new(),
            hit_objects: Vec::new(),
        }
    );
}

#[test]
fn difficulty_test_parse_difficulty() {
    let test_str = "HPDrainRate:6.0
            CircleSize:4.2
            OverallDifficulty:8.5
            ApproachRate:9.8
            SliderMultiplier:1.4
            SliderTickRate:2.0";
    let mut beatmap = Beatmap::new();
    for line in test_str.lines() {
        parse_difficulty(line, &mut beatmap).unwrap();
    }

    assert_eq!(
        beatmap,
        Beatmap {
            format: Format {},
            general: General::new(),
            editor: Editor {},
            metadata: Metadata::default(),
            difficulty: Difficulty {
                hp: dec(false, 6, 0),
                cs: dec(false, 42, 1),
                od: dec(false, 85, 1),
                ar: dec(false, 98, 1),
                slider_multiplier: dec(false, 14, 1),
                slider_tickrate: dec(false, 2, 0),
            },
            timing_points: Vec::new(),
            hit_objects: Vec::new(),
        }
    );
}

#[test]
fn lib_test_parse_general() {
    let test_str = "AudioFilename: audio.mp3
            AudioLeadIn: 0
            AudioHash: afjskldfjaldksfjklasf
            PreviewTime: 10
            Countdown: 0
            SampleSet: Drum
            StackLeniency: 0.75
            Mode: 1
            LetterboxInBreaks: 1
            StoryFireInFront: 0
            UseSkinSprites: 1
            AlwaysShowPlayfield: 1
            OverlayPosition: Below
            SkinPreference: Seoul v10
            EpilepsyWarning: 1
            CountdownOffset: 1
            SpecialStyle: 1
            WidescreenStoryboard: 1
            SamplesMatchPlaybackRate: 1";
    let mut beatmap = Beatmap::new();
    for line in test_str.lines() {
        parse_general(line, &mut beatmap).unwrap();
    }

    assert_eq!(
        beatmap,
        Beatmap {
            format: Format {},
            general: General {
                audio_filename: String::from("audio.mp3"),
                audio_lead_in: 0,
                audio_hash: String::from("afjskldfjaldksfjklasf"),
                preview_time: 10,
                countdown: Countdown::NoCountdown,
                sample_set: SampleSet::Drum,
                stack_leniency: dec(false, 75, 2),
                mode: Mode::Taiko,
                letterbox_in_breaks: true,
                story_fire_in_front: false,
                use_skin_sprites: true,
                always_show_playfield: true,
                overlay_position: OverlayPosition::Below,
                skin_preference: String::from("Seoul v10"),
                epilepsy_warning: true,
                countdown_offset: 1,
                special_style: true,
                widescreen_storyboard: true,
                samples_match_playback_rate: true,
            },
            editor: Editor {},
            metadata: Metadata::default(),
            difficulty: Difficulty::new(),
            timing_points: Vec::new(),
            hit_objects: Vec::new(),
        }
    );
}

#[test]
fn lib_test_parse_difficulty() {
    let test_str = "HPDrainRate:6.0
            CircleSize:4.2
            OverallDifficulty:8.5
            ApproachRate:9.8
            SliderMultiplier:1.4
            SliderTickRate:2.0";
    let mut beatmap = Beatmap::new();
    for line in test_str.lines() {
        parse_difficulty(line, &mut beatmap).unwrap();
    }

    assert_eq!(
        beatmap,
        Beatmap {
            format: Format {},
            general: General::new(),
            editor: Editor {},
            metadata: Metadata::default(),
            difficulty: Difficulty {
                hp: dec(false, 6, 0),
                cs: dec(false, 42, 1),
                od: dec(false, 85, 1),
                ar: dec(false, 98, 1),
                slider_multiplier: dec(false, 14, 1),
                slider_tickrate: dec(false, 2, 0),
            },
            timing_points: Vec::new(),
            hit_objects: Vec::new(),
        }
    );
}
