//! The section classifier: decides whether a line opens a named section.
use vstd::prelude::*;
use crate::text::{str_eq, trim_str, trimmed};

verus! {

/// The named sections of the format, in document order. The decoder also
/// uses this as its "current section" state, starting in `Format`.
#[derive(Debug, Clone, Copy, PartialEq, Eq, Structural)]
pub enum FileSections {
    Format,
    General,
    Editor,
    Metadata,
    Difficulty,
    Events,
    TimingPoints,
    Colours,
    HitObjects,
}

/// The section that a header line opens: the trimmed line must be exactly
/// the bracketed section name. Any other line is not a header.
pub open spec fn section_of(line: Seq<char>) -> Option<FileSections> {
    let t = trimmed(line);
    if t == "[Format]"@ {
        Some(FileSections::Format)
    } else if t == "[General]"@ {
        Some(FileSections::General)
    } else if t == "[Editor]"@ {
        Some(FileSections::Editor)
    } else if t == "[Metadata]"@ {
        Some(FileSections::Metadata)
    } else if t == "[Difficulty]"@ {
        Some(FileSections::Difficulty)
    } else if t == "[Events]"@ {
        Some(FileSections::Events)
    } else if t == "[TimingPoints]"@ {
        Some(FileSections::TimingPoints)
    } else if t == "[Colours]"@ {
        Some(FileSections::Colours)
    } else if t == "[HitObjects]"@ {
        Some(FileSections::HitObjects)
    } else {
        None
    }
}

/// Classifies one line: the section its header opens, or nothing for an
/// ordinary content line.
pub fn get_section(line: &str) -> (r: Option<FileSections>)
    ensures
        r == section_of(line@),
{
    let t = trim_str(line);
    if str_eq(t, "[Format]") {
        Some(FileSections::Format)
    } else if str_eq(t, "[General]") {
        Some(FileSections::General)
    } else if str_eq(t, "[Editor]") {
        Some(FileSections::Editor)
    } else if str_eq(t, "[Metadata]") {
        Some(FileSections::Metadata)
    } else if str_eq(t, "[Difficulty]") {
        Some(FileSections::Difficulty)
    } else if str_eq(t, "[Events]") {
        Some(FileSections::Events)
    } else if str_eq(t, "[TimingPoints]") {
        Some(FileSections::TimingPoints)
    } else if str_eq(t, "[Colours]") {
        Some(FileSections::Colours)
    } else if str_eq(t, "[HitObjects]") {
        Some(FileSections::HitObjects)
    } else {
        None
    }
}

} // verus!
