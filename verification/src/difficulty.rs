//! The `[Difficulty]` section: the six fractional difficulty settings.
use vstd::prelude::*;
use crate::decimal::{parse_decimal, parse_decimal_spec, Decimal};
use crate::error::{ErrorKind, ErrorKindModel};
use crate::general::numeric_error;
use crate::text::{split_first, split_once_at, str_eq, trim_str, trimmed};
use crate::{Beatmap, BeatmapModel};

verus! {

/// The difficulty settings of a beatmap. All fields are exact decimals,
/// so the struct is its own mathematical model.
#[derive(Debug, Clone, Copy, PartialEq, Eq, Structural)]
pub struct Difficulty {
    pub hp: Decimal,
    pub cs: Decimal,
    pub od: Decimal,
    pub ar: Decimal,
    pub slider_multiplier: Decimal,
    pub slider_tickrate: Decimal,
}

/// The documented defaults: 5 for the four rates, 1.4 and 1 for the two
/// slider settings.
pub open spec fn default_difficulty() -> Difficulty {
    Difficulty {
        hp: Decimal { negative: false, mantissa: 5, scale: 0 },
        cs: Decimal { negative: false, mantissa: 5, scale: 0 },
        od: Decimal { negative: false, mantissa: 5, scale: 0 },
        ar: Decimal { negative: false, mantissa: 5, scale: 0 },
        slider_multiplier: Decimal { negative: false, mantissa: 14, scale: 1 },
        slider_tickrate: Decimal { negative: false, mantissa: 1, scale: 0 },
    }
}

impl Difficulty {
    /// A section with every setting at its documented default.
    pub fn new() -> (r: Difficulty)
        ensures
            r == default_difficulty(),
    {
        Difficulty {
            hp: Decimal { negative: false, mantissa: 5, scale: 0 },
            cs: Decimal { negative: false, mantissa: 5, scale: 0 },
            od: Decimal { negative: false, mantissa: 5, scale: 0 },
            ar: Decimal { negative: false, mantissa: 5, scale: 0 },
            slider_multiplier: Decimal { negative: false, mantissa: 14, scale: 1 },
            slider_tickrate: Decimal { negative: false, mantissa: 1, scale: 0 },
        }
    }
}

impl Default for Difficulty {
    fn default() -> (r: Difficulty)
        ensures
            r == default_difficulty(),
    {
        Difficulty::new()
    }
}

/// What one content line does to the section: the updated section, or the
/// error that stops decoding.
pub open spec fn decode_difficulty(d: Difficulty, line: Seq<char>) -> Result<
    Difficulty,
    ErrorKindModel,
> {
    match split_first(line, ':') {
        None => Err(ErrorKindModel::MissingColon),
        Some(p) => {
            let key = trimmed(p.0);
            let val = trimmed(p.1);
            if key == "HPDrainRate"@ {
                match parse_decimal_spec(val) {
                    Some(v) => Ok(Difficulty { hp: v, ..d }),
                    None => Err(numeric_error(key, val)),
                }
            } else if key == "CircleSize"@ {
                match parse_decimal_spec(val) {
                    Some(v) => Ok(Difficulty { cs: v, ..d }),
                    None => Err(numeric_error(key, val)),
                }
            } else if key == "OverallDifficulty"@ {
                match parse_decimal_spec(val) {
                    Some(v) => Ok(Difficulty { od: v, ..d }),
                    None => Err(numeric_error(key, val)),
                }
            } else if key == "ApproachRate"@ {
                match parse_decimal_spec(val) {
                    Some(v) => Ok(Difficulty { ar: v, ..d }),
                    None => Err(numeric_error(key, val)),
                }
            } else if key == "SliderMultiplier"@ {
                match parse_decimal_spec(val) {
                    Some(v) => Ok(Difficulty { slider_multiplier: v, ..d }),
                    None => Err(numeric_error(key, val)),
                }
            } else if key == "SliderTickRate"@ {
                match parse_decimal_spec(val) {
                    Some(v) => Ok(Difficulty { slider_tickrate: v, ..d }),
                    None => Err(numeric_error(key, val)),
                }
            } else {
                Ok(d)
            }
        },
    }
}

/// Decodes one `[Difficulty]` content line into the beatmap. On success
/// only the addressed field changes; on failure nothing changes and the
/// error says why.
pub fn parse_difficulty(line: &str, beatmap: &mut Beatmap) -> (r: Result<(), ErrorKind>)
    ensures
        match r {
            Ok(_) => {
                &&& decode_difficulty(old(beatmap)@.difficulty, line@) == Ok::<_, ErrorKindModel>(
                    final(beatmap)@.difficulty,
                )
                &&& final(beatmap)@ == (BeatmapModel {
                    difficulty: final(beatmap)@.difficulty,
                    ..old(beatmap)@
                })
            },
            Err(e) => {
                &&& decode_difficulty(old(beatmap)@.difficulty, line@) == Err::<Difficulty, _>(e@)
                &&& final(beatmap)@ == old(beatmap)@
            },
        },
{
    match split_once_at(line, ':') {
        None => Err(ErrorKind::MissingColon),
        Some((k, v)) => {
            let key = trim_str(k);
            let val = trim_str(v);
            if str_eq(key, "HPDrainRate") {
                match parse_decimal(val) {
                    Some(x) => {
                        beatmap.difficulty.hp = x;
                        Ok(())
                    },
                    None => Err(numeric_kind(key, val)),
                }
            } else if str_eq(key, "CircleSize") {
                match parse_decimal(val) {
                    Some(x) => {
                        beatmap.difficulty.cs = x;
                        Ok(())
                    },
                    None => Err(numeric_kind(key, val)),
                }
            } else if str_eq(key, "OverallDifficulty") {
                match parse_decimal(val) {
                    Some(x) => {
                        beatmap.difficulty.od = x;
                        Ok(())
                    },
                    None => Err(numeric_kind(key, val)),
                }
            } else if str_eq(key, "ApproachRate") {
                match parse_decimal(val) {
                    Some(x) => {
                        beatmap.difficulty.ar = x;
                        Ok(())
                    },
                    None => Err(numeric_kind(key, val)),
                }
            } else if str_eq(key, "SliderMultiplier") {
                match parse_decimal(val) {
                    Some(x) => {
                        beatmap.difficulty.slider_multiplier = x;
                        Ok(())
                    },
                    None => Err(numeric_kind(key, val)),
                }
            } else if str_eq(key, "SliderTickRate") {
                match parse_decimal(val) {
                    Some(x) => {
                        beatmap.difficulty.slider_tickrate = x;
                        Ok(())
                    },
                    None => Err(numeric_kind(key, val)),
                }
            } else {
                Ok(())
            }
        },
    }
}

/// Builds the numeric-conversion error for a recognized key.
fn numeric_kind(key: &str, val: &str) -> (r: ErrorKind)
    ensures
        r@ == numeric_error(key@, val@),
{
    ErrorKind::NumericConversionFailed { key: key.to_owned(), value: val.to_owned() }
}

} // verus!
