//! The `[General]` section: its enumerations, its struct and its decoder.
use vstd::prelude::*;
use vstd::string::StringExecFns;
use crate::decimal::{parse_decimal, parse_decimal_spec, Decimal};
use crate::error::{ErrorKind, ErrorKindModel};
use crate::text::{
    parse_i32, parse_i32_spec, parse_u32, parse_u32_spec, parse_u8, parse_u8_spec, split_first,
    split_once_at, str_eq, trim_str, trimmed,
};
use crate::{Beatmap, BeatmapModel};

verus! {

/// Pre-play countdown display mode, selected by integer code 0 to 3.
/// Code 0 means no countdown at all.
#[derive(Debug, Clone, Copy, PartialEq, Eq, Structural)]
pub enum Countdown {
    NoCountdown,
    Normal,
    Half,
    Double,
}

/// Default audio sample bank. The text codes `0`, `1` and the name
/// `Normal` all resolve to `Default`: the overlap is documented behavior
/// of the format and is preserved here as data, not corrected.
#[derive(Debug, Clone, Copy, PartialEq, Eq, Structural)]
pub enum SampleSet {
    Default,
    Normal,
    Soft,
    Drum,
}

/// Gameplay ruleset variant, selected by integer code 0 to 3.
#[derive(Debug, Clone, Copy, PartialEq, Eq, Structural)]
pub enum Mode {
    Osu,
    Taiko,
    Catch,
    Mania,
}

/// Placement of the skin overlay relative to gameplay elements, selected
/// by exact case-sensitive name only; there is no numeric form.
#[derive(Debug, Clone, Copy, PartialEq, Eq, Structural)]
pub enum OverlayPosition {
    NoChange,
    Below,
    Above,
}

/// The countdown denoted by a token: an integer code 0 to 3 after
/// trimming; anything else is unknown.
#[verifier::opaque]
pub open spec fn countdown_of(s: Seq<char>) -> Option<Countdown> {
    match parse_i32_spec(trimmed(s)) {
        Some(t) => if t == 0 {
            Some(Countdown::NoCountdown)
        } else if t == 1 {
            Some(Countdown::Normal)
        } else if t == 2 {
            Some(Countdown::Half)
        } else if t == 3 {
            Some(Countdown::Double)
        } else {
            None
        },
        None => None,
    }
}

/// The sample set denoted by a token after trimming. `0`, `1` and
/// `Normal` all denote `Default`; there is no token for the `Normal`
/// variant.
#[verifier::opaque]
pub open spec fn sample_set_of(s: Seq<char>) -> Option<SampleSet> {
    let t = trimmed(s);
    if t == "0"@ || t == "1"@ || t == "Normal"@ {
        Some(SampleSet::Default)
    } else if t == "2"@ || t == "Soft"@ {
        Some(SampleSet::Soft)
    } else if t == "3"@ || t == "Drum"@ {
        Some(SampleSet::Drum)
    } else {
        None
    }
}

/// The mode denoted by a token: an integer code 0 to 3 after trimming.
#[verifier::opaque]
pub open spec fn mode_of(s: Seq<char>) -> Option<Mode> {
    match parse_i32_spec(trimmed(s)) {
        Some(t) => if t == 0 {
            Some(Mode::Osu)
        } else if t == 1 {
            Some(Mode::Taiko)
        } else if t == 2 {
            Some(Mode::Catch)
        } else if t == 3 {
            Some(Mode::Mania)
        } else {
            None
        },
        None => None,
    }
}

/// The overlay position denoted by a token: the exact variant name,
/// case-sensitive, without trimming.
#[verifier::opaque]
pub open spec fn overlay_position_of(s: Seq<char>) -> Option<OverlayPosition> {
    if s == "NoChange"@ {
        Some(OverlayPosition::NoChange)
    } else if s == "Below"@ {
        Some(OverlayPosition::Below)
    } else if s == "Above"@ {
        Some(OverlayPosition::Above)
    } else {
        None
    }
}

impl Countdown {
    /// Decodes a countdown token, or reports it unknown.
    pub fn from_str(s: &str) -> (r: Result<Countdown, ErrorKind>)
        ensures
            match r {
                Ok(c) => countdown_of(s@) == Some(c),
                Err(e) => countdown_of(s@) is None && e@
                    == (ErrorKindModel::UnknownEnumerationValue {
                    enumeration: "Countdown"@,
                    value: s@,
                }),
            },
    {
        proof {
            reveal(countdown_of);
        }
        match parse_i32(trim_str(s)) {
            Some(0) => Ok(Countdown::NoCountdown),
            Some(1) => Ok(Countdown::Normal),
            Some(2) => Ok(Countdown::Half),
            Some(3) => Ok(Countdown::Double),
            _ => Err(
                ErrorKind::UnknownEnumerationValue {
                    enumeration: String::from_str("Countdown"),
                    value: s.to_owned(),
                },
            ),
        }
    }
}

impl SampleSet {
    /// Decodes a sample-set token, or reports it unknown.
    pub fn from_str(s: &str) -> (r: Result<SampleSet, ErrorKind>)
        ensures
            match r {
                Ok(c) => sample_set_of(s@) == Some(c),
                Err(e) => sample_set_of(s@) is None && e@
                    == (ErrorKindModel::UnknownEnumerationValue {
                    enumeration: "SampleSet"@,
                    value: s@,
                }),
            },
    {
        proof {
            reveal(sample_set_of);
        }
        let t = trim_str(s);
        if str_eq(t, "0") || str_eq(t, "1") || str_eq(t, "Normal") {
            Ok(SampleSet::Default)
        } else if str_eq(t, "2") || str_eq(t, "Soft") {
            Ok(SampleSet::Soft)
        } else if str_eq(t, "3") || str_eq(t, "Drum") {
            Ok(SampleSet::Drum)
        } else {
            Err(
                ErrorKind::UnknownEnumerationValue {
                    enumeration: String::from_str("SampleSet"),
                    value: s.to_owned(),
                },
            )
        }
    }
}

impl Mode {
    /// Decodes a mode token, or reports it unknown.
    pub fn from_str(s: &str) -> (r: Result<Mode, ErrorKind>)
        ensures
            match r {
                Ok(c) => mode_of(s@) == Some(c),
                Err(e) => mode_of(s@) is None && e@ == (ErrorKindModel::UnknownEnumerationValue {
                    enumeration: "Mode"@,
                    value: s@,
                }),
            },
    {
        proof {
            reveal(mode_of);
        }
        match parse_i32(trim_str(s)) {
            Some(0) => Ok(Mode::Osu),
            Some(1) => Ok(Mode::Taiko),
            Some(2) => Ok(Mode::Catch),
            Some(3) => Ok(Mode::Mania),
            _ => Err(
                ErrorKind::UnknownEnumerationValue {
                    enumeration: String::from_str("Mode"),
                    value: s.to_owned(),
                },
            ),
        }
    }
}

impl OverlayPosition {
    /// Decodes an overlay-position token, or reports it unknown.
    pub fn from_str(s: &str) -> (r: Result<OverlayPosition, ErrorKind>)
        ensures
            match r {
                Ok(c) => overlay_position_of(s@) == Some(c),
                Err(e) => overlay_position_of(s@) is None && e@
                    == (ErrorKindModel::UnknownEnumerationValue {
                    enumeration: "OverlayPosition"@,
                    value: s@,
                }),
            },
    {
        proof {
            reveal(overlay_position_of);
        }
        if str_eq(s, "NoChange") {
            Ok(OverlayPosition::NoChange)
        } else if str_eq(s, "Below") {
            Ok(OverlayPosition::Below)
        } else if str_eq(s, "Above") {
            Ok(OverlayPosition::Above)
        } else {
            Err(
                ErrorKind::UnknownEnumerationValue {
                    enumeration: String::from_str("OverlayPosition"),
                    value: s.to_owned(),
                },
            )
        }
    }
}

/// Audio and gameplay configuration of a beatmap.
#[derive(Debug, Clone, PartialEq)]
pub struct General {
    pub audio_filename: String,
    pub audio_lead_in: u32,
    pub audio_hash: String,
    pub preview_time: i32,
    pub countdown: Countdown,
    pub sample_set: SampleSet,
    pub stack_leniency: Decimal,
    pub mode: Mode,
    pub letterbox_in_breaks: bool,
    pub story_fire_in_front: bool,
    pub use_skin_sprites: bool,
    pub always_show_playfield: bool,
    pub overlay_position: OverlayPosition,
    pub skin_preference: String,
    pub epilepsy_warning: bool,
    pub countdown_offset: u32,
    pub special_style: bool,
    pub widescreen_storyboard: bool,
    pub samples_match_playback_rate: bool,
}

/// The mathematical image of a [`General`] value.
pub ghost struct GeneralModel {
    pub audio_filename: Seq<char>,
    pub audio_lead_in: u32,
    pub audio_hash: Seq<char>,
    pub preview_time: i32,
    pub countdown: Countdown,
    pub sample_set: SampleSet,
    pub stack_leniency: Decimal,
    pub mode: Mode,
    pub letterbox_in_breaks: bool,
    pub story_fire_in_front: bool,
    pub use_skin_sprites: bool,
    pub always_show_playfield: bool,
    pub overlay_position: OverlayPosition,
    pub skin_preference: Seq<char>,
    pub epilepsy_warning: bool,
    pub countdown_offset: u32,
    pub special_style: bool,
    pub widescreen_storyboard: bool,
    pub samples_match_playback_rate: bool,
}

impl View for General {
    type V = GeneralModel;

    open spec fn view(&self) -> GeneralModel {
        GeneralModel {
            audio_filename: self.audio_filename@,
            audio_lead_in: self.audio_lead_in,
            audio_hash: self.audio_hash@,
            preview_time: self.preview_time,
            countdown: self.countdown,
            sample_set: self.sample_set,
            stack_leniency: self.stack_leniency,
            mode: self.mode,
            letterbox_in_breaks: self.letterbox_in_breaks,
            story_fire_in_front: self.story_fire_in_front,
            use_skin_sprites: self.use_skin_sprites,
            always_show_playfield: self.always_show_playfield,
            overlay_position: self.overlay_position,
            skin_preference: self.skin_preference@,
            epilepsy_warning: self.epilepsy_warning,
            countdown_offset: self.countdown_offset,
            special_style: self.special_style,
            widescreen_storyboard: self.widescreen_storyboard,
            samples_match_playback_rate: self.samples_match_playback_rate,
        }
    }
}

/// The documented default values of the section: in force for every field
/// whose key is absent from the input.
pub open spec fn default_general() -> GeneralModel {
    GeneralModel {
        audio_filename: Seq::empty(),
        audio_lead_in: 0,
        audio_hash: Seq::empty(),
        preview_time: -1 as i32,
        countdown: Countdown::Normal,
        sample_set: SampleSet::Normal,
        stack_leniency: Decimal { negative: false, mantissa: 7, scale: 1 },
        mode: Mode::Osu,
        letterbox_in_breaks: false,
        story_fire_in_front: true,
        use_skin_sprites: false,
        always_show_playfield: false,
        overlay_position: OverlayPosition::NoChange,
        skin_preference: Seq::empty(),
        epilepsy_warning: false,
        countdown_offset: 0,
        special_style: false,
        widescreen_storyboard: false,
        samples_match_playback_rate: false,
    }
}

impl General {
    /// A section with every field at its documented default.
    pub fn new() -> (r: General)
        ensures
            r@ == default_general(),
    {
        General {
            audio_filename: String::new(),
            audio_lead_in: 0,
            audio_hash: String::new(),
            preview_time: -1,
            countdown: Countdown::Normal,
            sample_set: SampleSet::Normal,
            stack_leniency: Decimal { negative: false, mantissa: 7, scale: 1 },
            mode: Mode::Osu,
            letterbox_in_breaks: false,
            story_fire_in_front: true,
            use_skin_sprites: false,
            always_show_playfield: false,
            overlay_position: OverlayPosition::NoChange,
            skin_preference: String::new(),
            epilepsy_warning: false,
            countdown_offset: 0,
            special_style: false,
            widescreen_storyboard: false,
            samples_match_playback_rate: false,
        }
    }
}

impl Default for General {
    fn default() -> (r: General)
        ensures
            r@ == default_general(),
    {
        General::new()
    }
}

/// The recognized keys of the section; every other key is unrecognized
/// and its line is ignored.
#[derive(Debug, Clone, Copy, PartialEq, Eq, Structural)]
pub enum GeneralKey {
    AudioFilename,
    AudioLeadIn,
    AudioHash,
    PreviewTime,
    CountdownKey,
    SampleSetKey,
    StackLeniency,
    ModeKey,
    LetterboxInBreaks,
    StoryFireInFront,
    UseSkinSprites,
    AlwaysShowPlayfield,
    OverlayPositionKey,
    SkinPreference,
    EpilepsyWarning,
    CountdownOffset,
    SpecialStyle,
    WidescreenStoryboard,
    SamplesMatchPlaybackRate,
    Unrecognized,
}

/// The static table of recognized keys: which field a trimmed key
/// addresses.
pub open spec fn general_key_of(key: Seq<char>) -> GeneralKey {
    if key == "AudioFilename"@ {
        GeneralKey::AudioFilename
    } else if key == "AudioLeadIn"@ {
        GeneralKey::AudioLeadIn
    } else if key == "AudioHash"@ {
        GeneralKey::AudioHash
    } else if key == "PreviewTime"@ {
        GeneralKey::PreviewTime
    } else if key == "Countdown"@ {
        GeneralKey::CountdownKey
    } else if key == "SampleSet"@ {
        GeneralKey::SampleSetKey
    } else if key == "StackLeniency"@ {
        GeneralKey::StackLeniency
    } else if key == "Mode"@ {
        GeneralKey::ModeKey
    } else if key == "LetterboxInBreaks"@ {
        GeneralKey::LetterboxInBreaks
    } else if key == "StoryFireInFront"@ {
        GeneralKey::StoryFireInFront
    } else if key == "UseSkinSprites"@ {
        GeneralKey::UseSkinSprites
    } else if key == "AlwaysShowPlayfield"@ {
        GeneralKey::AlwaysShowPlayfield
    } else if key == "OverlayPosition"@ {
        GeneralKey::OverlayPositionKey
    } else if key == "SkinPreference"@ {
        GeneralKey::SkinPreference
    } else if key == "EpilepsyWarning"@ {
        GeneralKey::EpilepsyWarning
    } else if key == "CountdownOffset"@ {
        GeneralKey::CountdownOffset
    } else if key == "SpecialStyle"@ {
        GeneralKey::SpecialStyle
    } else if key == "WidescreenStoryboard"@ {
        GeneralKey::WidescreenStoryboard
    } else if key == "SamplesMatchPlaybackRate"@ {
        GeneralKey::SamplesMatchPlaybackRate
    } else {
        GeneralKey::Unrecognized
    }
}

/// Looks a trimmed key up in the table of recognized keys.
fn general_key(key: &str) -> (k: GeneralKey)
    ensures
        k == general_key_of(key@),
{
    if str_eq(key, "AudioFilename") {
        GeneralKey::AudioFilename
    } else if str_eq(key, "AudioLeadIn") {
        GeneralKey::AudioLeadIn
    } else if str_eq(key, "AudioHash") {
        GeneralKey::AudioHash
    } else if str_eq(key, "PreviewTime") {
        GeneralKey::PreviewTime
    } else if str_eq(key, "Countdown") {
        GeneralKey::CountdownKey
    } else if str_eq(key, "SampleSet") {
        GeneralKey::SampleSetKey
    } else if str_eq(key, "StackLeniency") {
        GeneralKey::StackLeniency
    } else if str_eq(key, "Mode") {
        GeneralKey::ModeKey
    } else if str_eq(key, "LetterboxInBreaks") {
        GeneralKey::LetterboxInBreaks
    } else if str_eq(key, "StoryFireInFront") {
        GeneralKey::StoryFireInFront
    } else if str_eq(key, "UseSkinSprites") {
        GeneralKey::UseSkinSprites
    } else if str_eq(key, "AlwaysShowPlayfield") {
        GeneralKey::AlwaysShowPlayfield
    } else if str_eq(key, "OverlayPosition") {
        GeneralKey::OverlayPositionKey
    } else if str_eq(key, "SkinPreference") {
        GeneralKey::SkinPreference
    } else if str_eq(key, "EpilepsyWarning") {
        GeneralKey::EpilepsyWarning
    } else if str_eq(key, "CountdownOffset") {
        GeneralKey::CountdownOffset
    } else if str_eq(key, "SpecialStyle") {
        GeneralKey::SpecialStyle
    } else if str_eq(key, "WidescreenStoryboard") {
        GeneralKey::WidescreenStoryboard
    } else if str_eq(key, "SamplesMatchPlaybackRate") {
        GeneralKey::SamplesMatchPlaybackRate
    } else {
        GeneralKey::Unrecognized
    }
}

/// The error for a value that is not a number of the expected kind.
pub open spec fn numeric_error(key: Seq<char>, val: Seq<char>) -> ErrorKindModel {
    ErrorKindModel::NumericConversionFailed { key: key, value: val }
}

/// The error for a token outside its enumeration.
pub open spec fn enum_error(enumeration: Seq<char>, val: Seq<char>) -> ErrorKindModel {
    ErrorKindModel::UnknownEnumerationValue { enumeration: enumeration, value: val }
}

/// What a recognized key does with its trimmed value: the updated
/// section, or the error that stops decoding.
pub open spec fn general_update(
    g: GeneralModel,
    k: GeneralKey,
    key: Seq<char>,
    val: Seq<char>,
) -> Result<GeneralModel, ErrorKindModel> {
    match k {
        GeneralKey::AudioFilename => Ok(GeneralModel { audio_filename: val, ..g }),
        GeneralKey::AudioLeadIn => match parse_u32_spec(val) {
            Some(v) => Ok(GeneralModel { audio_lead_in: v, ..g }),
            None => Err(numeric_error(key, val)),
        },
        GeneralKey::AudioHash => Ok(GeneralModel { audio_hash: val, ..g }),
        GeneralKey::PreviewTime => match parse_i32_spec(val) {
            Some(v) => Ok(GeneralModel { preview_time: v, ..g }),
            None => Err(numeric_error(key, val)),
        },
        GeneralKey::CountdownKey => match countdown_of(val) {
            Some(v) => Ok(GeneralModel { countdown: v, ..g }),
            None => Err(enum_error("Countdown"@, val)),
        },
        GeneralKey::SampleSetKey => match sample_set_of(val) {
            Some(v) => Ok(GeneralModel { sample_set: v, ..g }),
            None => Err(enum_error("SampleSet"@, val)),
        },
        GeneralKey::StackLeniency => match parse_decimal_spec(val) {
            Some(v) => Ok(GeneralModel { stack_leniency: v, ..g }),
            None => Err(numeric_error(key, val)),
        },
        GeneralKey::ModeKey => match mode_of(val) {
            Some(v) => Ok(GeneralModel { mode: v, ..g }),
            None => Err(enum_error("Mode"@, val)),
        },
        GeneralKey::LetterboxInBreaks => match parse_u8_spec(val) {
            Some(v) => Ok(GeneralModel { letterbox_in_breaks: v != 0, ..g }),
            None => Err(numeric_error(key, val)),
        },
        GeneralKey::StoryFireInFront => match parse_u8_spec(val) {
            Some(v) => Ok(GeneralModel { story_fire_in_front: v != 0, ..g }),
            None => Err(numeric_error(key, val)),
        },
        GeneralKey::UseSkinSprites => match parse_u8_spec(val) {
            Some(v) => Ok(GeneralModel { use_skin_sprites: v != 0, ..g }),
            None => Err(numeric_error(key, val)),
        },
        GeneralKey::AlwaysShowPlayfield => match parse_u8_spec(val) {
            Some(v) => Ok(GeneralModel { always_show_playfield: v != 0, ..g }),
            None => Err(numeric_error(key, val)),
        },
        GeneralKey::OverlayPositionKey => match overlay_position_of(val) {
            Some(v) => Ok(GeneralModel { overlay_position: v, ..g }),
            None => Err(enum_error("OverlayPosition"@, val)),
        },
        GeneralKey::SkinPreference => Ok(GeneralModel { skin_preference: val, ..g }),
        GeneralKey::EpilepsyWarning => match parse_u8_spec(val) {
            Some(v) => Ok(GeneralModel { epilepsy_warning: v != 0, ..g }),
            None => Err(numeric_error(key, val)),
        },
        GeneralKey::CountdownOffset => match parse_u32_spec(val) {
            Some(v) => Ok(GeneralModel { countdown_offset: v, ..g }),
            None => Err(numeric_error(key, val)),
        },
        GeneralKey::SpecialStyle => match parse_u8_spec(val) {
            Some(v) => Ok(GeneralModel { special_style: v != 0, ..g }),
            None => Err(numeric_error(key, val)),
        },
        GeneralKey::WidescreenStoryboard => match parse_u8_spec(val) {
            Some(v) => Ok(GeneralModel { widescreen_storyboard: v != 0, ..g }),
            None => Err(numeric_error(key, val)),
        },
        GeneralKey::SamplesMatchPlaybackRate => match parse_u8_spec(val) {
            Some(v) => Ok(GeneralModel { samples_match_playback_rate: v != 0, ..g }),
            None => Err(numeric_error(key, val)),
        },
        GeneralKey::Unrecognized => Ok(g),
    }
}

/// What one content line does to the section: the updated section, or the
/// error that stops decoding. A line without `:` fails; a recognized key
/// converts its trimmed value; an unrecognized key changes nothing.
pub open spec fn decode_general(g: GeneralModel, line: Seq<char>) -> Result<
    GeneralModel,
    ErrorKindModel,
> {
    match split_first(line, ':') {
        None => Err(ErrorKindModel::MissingColon),
        Some(p) => general_update(
            g,
            general_key_of(trimmed(p.0)),
            trimmed(p.0),
            trimmed(p.1),
        ),
    }
}

pub fn parse_general(line: &str, beatmap: &mut Beatmap) -> (r: Result<(), ErrorKind>)
    ensures
        match r {
            Ok(_) => {
                &&& decode_general(old(beatmap)@.general, line@) == Ok::<_, ErrorKindModel>(
                    final(beatmap)@.general,
                )
                &&& final(beatmap)@ == (BeatmapModel {
                    general: final(beatmap)@.general,
                    ..old(beatmap)@
                })
            },
            Err(e) => {
                &&& decode_general(old(beatmap)@.general, line@) == Err::<GeneralModel, _>(e@)
                &&& final(beatmap)@ == old(beatmap)@
            },
        },
{
    match split_once_at(line, ':') {
        None => Err(ErrorKind::MissingColon),
        Some((k, v)) => {
            let key = trim_str(k);
            let val = trim_str(v);
            let kk = general_key(key);
            apply_general(kk, key, val, &mut beatmap.general)
        },
    }
}

/// Applies one recognized key's converter to the beatmap's `[General]`
/// section: the audio, display and enumeration keys stand here, the
/// boolean toggles and counters in [`apply_general_toggles`].
#[verifier::rlimit(100)]
#[verifier::spinoff_prover]
fn apply_general(kk: GeneralKey, key: &str, val: &str, g: &mut General) -> (r: Result<
    (),
    ErrorKind,
>)
    ensures
        match r {
            Ok(_) => general_update(old(g)@, kk, key@, val@) == Ok::<_, ErrorKindModel>(
                final(g)@,
            ),
            Err(e) => general_update(old(g)@, kk, key@, val@) == Err::<GeneralModel, _>(e@)
                && final(g)@ == old(g)@,
        },
{
    match kk {
        GeneralKey::AudioFilename => {
            g.audio_filename = val.to_owned();
            Ok(())
        },
        GeneralKey::AudioLeadIn => match parse_u32(val) {
            Some(x) => {
                g.audio_lead_in = x;
                Ok(())
            },
            None => Err(numeric_error_kind(key, val)),
        },
        GeneralKey::AudioHash => {
            g.audio_hash = val.to_owned();
            Ok(())
        },
        GeneralKey::PreviewTime => match parse_i32(val) {
            Some(x) => {
                g.preview_time = x;
                Ok(())
            },
            None => Err(numeric_error_kind(key, val)),
        },
        GeneralKey::CountdownKey => match Countdown::from_str(val) {
            Ok(x) => {
                g.countdown = x;
                Ok(())
            },
            Err(e) => Err(e),
        },
        GeneralKey::SampleSetKey => match SampleSet::from_str(val) {
            Ok(x) => {
                g.sample_set = x;
                Ok(())
            },
            Err(e) => Err(e),
        },
        GeneralKey::StackLeniency => match parse_decimal(val) {
            Some(x) => {
                g.stack_leniency = x;
                Ok(())
            },
            None => Err(numeric_error_kind(key, val)),
        },
        GeneralKey::ModeKey => match Mode::from_str(val) {
            Ok(x) => {
                g.mode = x;
                Ok(())
            },
            Err(e) => Err(e),
        },
        GeneralKey::OverlayPositionKey => match OverlayPosition::from_str(val) {
            Ok(x) => {
                g.overlay_position = x;
                Ok(())
            },
            Err(e) => Err(e),
        },
        GeneralKey::SkinPreference => {
            g.skin_preference = val.to_owned();
            Ok(())
        },
        _ => apply_general_toggles(kk, key, val, g),
    }
}

/// The keys whose converters stand in [`apply_general_toggles`]: the
/// boolean toggles, the countdown offset, and the unrecognized case.
pub open spec fn is_toggle_key(k: GeneralKey) -> bool {
    match k {
        GeneralKey::LetterboxInBreaks => true,
        GeneralKey::StoryFireInFront => true,
        GeneralKey::UseSkinSprites => true,
        GeneralKey::AlwaysShowPlayfield => true,
        GeneralKey::EpilepsyWarning => true,
        GeneralKey::CountdownOffset => true,
        GeneralKey::SpecialStyle => true,
        GeneralKey::WidescreenStoryboard => true,
        GeneralKey::SamplesMatchPlaybackRate => true,
        GeneralKey::Unrecognized => true,
        _ => false,
    }
}

/// Applies the boolean toggle keys and the countdown offset.
#[verifier::rlimit(100)]
#[verifier::spinoff_prover]
fn apply_general_toggles(kk: GeneralKey, key: &str, val: &str, g: &mut General) -> (r: Result<
    (),
    ErrorKind,
>)
    requires
        is_toggle_key(kk),
    ensures
        match r {
            Ok(_) => general_update(old(g)@, kk, key@, val@) == Ok::<_, ErrorKindModel>(
                final(g)@,
            ),
            Err(e) => general_update(old(g)@, kk, key@, val@) == Err::<GeneralModel, _>(e@)
                && final(g)@ == old(g)@,
        },
{
    match kk {
        GeneralKey::LetterboxInBreaks => match parse_u8(val) {
            Some(x) => {
                g.letterbox_in_breaks = x != 0;
                Ok(())
            },
            None => Err(numeric_error_kind(key, val)),
        },
        GeneralKey::StoryFireInFront => match parse_u8(val) {
            Some(x) => {
                g.story_fire_in_front = x != 0;
                Ok(())
            },
            None => Err(numeric_error_kind(key, val)),
        },
        GeneralKey::UseSkinSprites => match parse_u8(val) {
            Some(x) => {
                g.use_skin_sprites = x != 0;
                Ok(())
            },
            None => Err(numeric_error_kind(key, val)),
        },
        GeneralKey::AlwaysShowPlayfield => match parse_u8(val) {
            Some(x) => {
                g.always_show_playfield = x != 0;
                Ok(())
            },
            None => Err(numeric_error_kind(key, val)),
        },
        GeneralKey::EpilepsyWarning => match parse_u8(val) {
            Some(x) => {
                g.epilepsy_warning = x != 0;
                Ok(())
            },
            None => Err(numeric_error_kind(key, val)),
        },
        GeneralKey::CountdownOffset => match parse_u32(val) {
            Some(x) => {
                g.countdown_offset = x;
                Ok(())
            },
            None => Err(numeric_error_kind(key, val)),
        },
        GeneralKey::SpecialStyle => match parse_u8(val) {
            Some(x) => {
                g.special_style = x != 0;
                Ok(())
            },
            None => Err(numeric_error_kind(key, val)),
        },
        GeneralKey::WidescreenStoryboard => match parse_u8(val) {
            Some(x) => {
                g.widescreen_storyboard = x != 0;
                Ok(())
            },
            None => Err(numeric_error_kind(key, val)),
        },
        GeneralKey::SamplesMatchPlaybackRate => match parse_u8(val) {
            Some(x) => {
                g.samples_match_playback_rate = x != 0;
                Ok(())
            },
            None => Err(numeric_error_kind(key, val)),
        },
        _ => Ok(()),
    }
}

/// Unknown-key tolerance: a content line whose trimmed key is absent from
/// the table of recognized keys decodes without error and leaves every
/// field of the section exactly as it was.
pub proof fn lemma_unknown_key_ignored(g: GeneralModel, line: Seq<char>)
    requires
        split_first(line, ':') is Some,
        general_key_of(trimmed(split_first(line, ':')->Some_0.0)) == GeneralKey::Unrecognized,
    ensures
        decode_general(g, line) == Ok::<GeneralModel, ErrorKindModel>(g),
{
}

/// Builds the numeric-conversion error for a recognized key.
fn numeric_error_kind(key: &str, val: &str) -> (r: ErrorKind)
    ensures
        r@ == numeric_error(key@, val@),
{
    ErrorKind::NumericConversionFailed { key: key.to_owned(), value: val.to_owned() }
}

} // verus!
