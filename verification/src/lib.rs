//! Decoder for a line-oriented, section-delimited beatmap text format.
//!
//! The input is a single text blob of newline-separated lines. A bracketed
//! header line such as `[General]` opens a section; every other non-blank,
//! non-comment line is a `Key:Value` field of the current section. Decoding
//! produces one fully populated [`Beatmap`] value, or a typed error that
//! names the offending line.
use vstd::prelude::*;

pub mod decimal;
pub mod difficulty;
pub mod error;
pub mod file_sections;
pub mod general;
pub mod metadata;
pub mod text;

use difficulty::{decode_difficulty, default_difficulty, parse_difficulty, Difficulty};
use error::{ErrorKind, ErrorKindModel, ParseError, ParseErrorModel};
use file_sections::{get_section, section_of, FileSections};
use general::{decode_general, default_general, parse_general, General, GeneralModel};
use metadata::{decode_metadata, default_metadata, parse_metadata, Metadata, MetadataModel};
use text::{split_lines, split_lines_str, trim_str, trimmed};
use vstd::string::StrSliceExecFns;

verus! {

/// The format header section. Not decoded at this stage: it is a dispatch
/// stub only, so it carries no fields yet.
#[derive(Debug, Clone, Copy, PartialEq, Eq, Structural)]
pub struct Format {}

/// The `[Editor]` section. Not decoded at this stage.
#[derive(Debug, Clone, Copy, PartialEq, Eq, Structural)]
pub struct Editor {}

/// One timing point. The timeline parser is outside this core: the
/// sequence on the beatmap stays empty here.
#[derive(Debug, Clone, Copy, PartialEq, Eq, Structural)]
pub struct TimingPoint {}

/// One hit object. The object parser is outside this core: the sequence
/// on the beatmap stays empty here.
#[derive(Debug, Clone, Copy, PartialEq, Eq, Structural)]
pub struct HitObject {}

/// The decoded document: one value per section, plus the (still empty)
/// ordered timelines.
#[derive(Debug, Clone, PartialEq)]
pub struct Beatmap {
    pub format: Format,
    pub general: General,
    pub editor: Editor,
    pub metadata: Metadata,
    pub difficulty: Difficulty,
    pub timing_points: Vec<TimingPoint>,
    pub hit_objects: Vec<HitObject>,
}

/// The mathematical image of a [`Beatmap`].
pub ghost struct BeatmapModel {
    pub format: Format,
    pub general: GeneralModel,
    pub editor: Editor,
    pub metadata: MetadataModel,
    pub difficulty: Difficulty,
    pub timing_points: Seq<TimingPoint>,
    pub hit_objects: Seq<HitObject>,
}

impl View for Beatmap {
    type V = BeatmapModel;

    open spec fn view(&self) -> BeatmapModel {
        BeatmapModel {
            format: self.format,
            general: self.general@,
            editor: self.editor,
            metadata: self.metadata@,
            difficulty: self.difficulty,
            timing_points: self.timing_points@,
            hit_objects: self.hit_objects@,
        }
    }
}

/// The document before any line is decoded: every section at its
/// documented defaults, both timelines empty.
pub open spec fn default_beatmap() -> BeatmapModel {
    BeatmapModel {
        format: Format {  },
        general: default_general(),
        editor: Editor {  },
        metadata: default_metadata(),
        difficulty: default_difficulty(),
        timing_points: Seq::empty(),
        hit_objects: Seq::empty(),
    }
}

impl Beatmap {
    /// A document with every field at its documented default.
    pub fn new() -> (r: Beatmap)
        ensures
            r@ == default_beatmap(),
    {
        Beatmap {
            format: Format {  },
            general: General::new(),
            editor: Editor {  },
            metadata: Metadata::default(),
            difficulty: Difficulty::new(),
            timing_points: Vec::new(),
            hit_objects: Vec::new(),
        }
    }
}

impl Default for Beatmap {
    fn default() -> (r: Beatmap)
        ensures
            r@ == default_beatmap(),
    {
        Beatmap::new()
    }
}

/// Whether a line is structurally ignored: blank after trimming, or a
/// comment line. Such a line never advances or resets section state.
pub open spec fn skip_line(line: Seq<char>) -> bool {
    trimmed(line).len() == 0 || (line.len() >= 2 && line[0] == '/' && line[1] == '/')
}

/// What one line does to the document and the current section: a
/// structural line changes nothing, a header changes the section, any
/// other line is decoded by the current section's parser. A content line
/// in a section without a parser is an unsupported-section error, never
/// an abort.
pub open spec fn decode_line(b: BeatmapModel, sec: FileSections, line: Seq<char>) -> Result<
    (BeatmapModel, FileSections),
    ErrorKindModel,
> {
    if skip_line(line) {
        Ok((b, sec))
    } else {
        match section_of(line) {
            Some(ns) => Ok((b, ns)),
            None => match sec {
                FileSections::General => match decode_general(b.general, line) {
                    Ok(g) => Ok((BeatmapModel { general: g, ..b }, sec)),
                    Err(e) => Err(e),
                },
                FileSections::Metadata => match decode_metadata(b.metadata, line) {
                    Ok(m) => Ok((BeatmapModel { metadata: m, ..b }, sec)),
                    Err(e) => Err(e),
                },
                FileSections::Difficulty => match decode_difficulty(b.difficulty, line) {
                    Ok(d) => Ok((BeatmapModel { difficulty: d, ..b }, sec)),
                    Err(e) => Err(e),
                },
                _ => Err(ErrorKindModel::UnsupportedSection { section: sec }),
            },
        }
    }
}

/// Folds [`decode_line`] over the lines, numbering them from `n`: the
/// finished document, or the first error with its line's number and text.
pub open spec fn decode_lines(
    b: BeatmapModel,
    sec: FileSections,
    lines: Seq<Seq<char>>,
    n: int,
) -> Result<BeatmapModel, ParseErrorModel>
    decreases lines.len(),
{
    if lines.len() == 0 {
        Ok(b)
    } else {
        match decode_line(b, sec, lines[0]) {
            Ok(p) => decode_lines(p.0, p.1, lines.drop_first(), n + 1),
            Err(k) => Err(ParseErrorModel { line_number: n, line: lines[0], kind: k }),
        }
    }
}

/// What decoding a whole text means: every section at its defaults, the
/// section state at `Format`, then one pass over the lines.
pub open spec fn parse_spec(text: Seq<char>) -> Result<BeatmapModel, ParseErrorModel> {
    decode_lines(default_beatmap(), FileSections::Format, split_lines(text), 1)
}

fn is_comment_line(line: &str) -> (r: bool)
    ensures
        r == (line@.len() >= 2 && line@[0] == '/' && line@[1] == '/'),
{
    line.unicode_len() >= 2 && line.get_char(0) == '/' && line.get_char(1) == '/'
}

/// Decodes a whole text into a beatmap: one pass over its lines, left to
/// right, stopping at the first failing line.
pub fn parse(text: &str) -> (r: Result<Beatmap, ParseError>)
    ensures
        match r {
            Ok(b) => parse_spec(text@) == Ok::<_, ParseErrorModel>(b@),
            Err(e) => parse_spec(text@) == Err::<BeatmapModel, _>(e@),
        },
{
    let lines = split_lines_str(text);
    let ghost all: Seq<Seq<char>> = lines@.map_values(|l: String| l@);
    let mut beatmap = Beatmap::new();
    let mut section = FileSections::Format;
    let mut i: usize = 0;
    proof {
        assert(all.subrange(0, all.len() as int) =~= all);
    }
    while i < lines.len()
        invariant
            i <= lines.len(),
            all == lines@.map_values(|l: String| l@),
            all == split_lines(text@),
            decode_lines(default_beatmap(), FileSections::Format, all, 1) == decode_lines(
                beatmap@,
                section,
                all.subrange(i as int, all.len() as int),
                i + 1,
            ),
        decreases lines.len() - i,
    {
        let ghost rem = all.subrange(i as int, all.len() as int);
        let line: &str = lines[i].as_str();
        proof {
            assert(rem[0] == line@);
            assert(rem.drop_first() =~= all.subrange(i + 1, all.len() as int));
        }
        let blank = trim_str(line).unicode_len() == 0;
        if !(blank || is_comment_line(line)) {
            match get_section(line) {
                Some(ns) => {
                    section = ns;
                },
                None => {
                    let res: Result<(), ErrorKind> = match section {
                        FileSections::General => parse_general(line, &mut beatmap),
                        FileSections::Metadata => parse_metadata(line, &mut beatmap),
                        FileSections::Difficulty => parse_difficulty(line, &mut beatmap),
                        _ => Err(ErrorKind::UnsupportedSection { section }),
                    };
                    match res {
                        Ok(_) => {
                        },
                        Err(k) => {
                            return Err(
                                ParseError {
                                    line_number: i + 1,
                                    line: lines[i].clone(),
                                    kind: k,
                                },
                            );
                        },
                    }
                },
            }
        }
        i += 1;
    }
    proof {
        assert(all.subrange(all.len() as int, all.len() as int) =~= Seq::<Seq<char>>::empty());
    }
    Ok(beatmap)
}

/// Decoding is deterministic: it is a function of the text alone, so two
/// decodes of equal texts are structurally equal documents or errors.
pub proof fn lemma_parse_deterministic(t1: Seq<char>, t2: Seq<char>)
    requires
        t1 == t2,
    ensures
        parse_spec(t1) == parse_spec(t2),
{
}

/// A structural line: blank, comment, or a section header. A text of
/// nothing else decodes to the default document.
pub open spec fn structural_line(line: Seq<char>) -> bool {
    skip_line(line) || section_of(line) is Some
}

proof fn lemma_decode_lines_structural(
    b: BeatmapModel,
    sec: FileSections,
    lines: Seq<Seq<char>>,
    n: int,
)
    requires
        forall|i: int| 0 <= i < lines.len() ==> structural_line(#[trigger] lines[i]),
    ensures
        decode_lines(b, sec, lines, n) == Ok::<_, ParseErrorModel>(b),
    decreases lines.len(),
{
    if lines.len() > 0 {
        let next = decode_line(b, sec, lines[0])->Ok_0;
        assert(forall|i: int|
            0 <= i < lines.drop_first().len() ==> structural_line(
                #[trigger] lines.drop_first()[i],
            ));
        lemma_decode_lines_structural(next.0, next.1, lines.drop_first(), n + 1);
    }
}

/// Default construction: a text whose every line is blank, a comment or a
/// section header decodes to the document with every field at its
/// documented default. An empty text has no lines at all.
pub proof fn lemma_default_construction(t: Seq<char>)
    requires
        forall|i: int|
            0 <= i < split_lines(t).len() ==> structural_line(#[trigger] split_lines(t)[i]),
    ensures
        parse_spec(t) == Ok::<_, ParseErrorModel>(default_beatmap()),
{
    lemma_decode_lines_structural(default_beatmap(), FileSections::Format, split_lines(t), 1);
}

proof fn lemma_decode_lines_error(
    b: BeatmapModel,
    sec: FileSections,
    lines: Seq<Seq<char>>,
    n: int,
)
    requires
        decode_lines(b, sec, lines, n) is Err,
    ensures
        ({
            let e = decode_lines(b, sec, lines, n)->Err_0;
            &&& n <= e.line_number < n + lines.len()
            &&& e.line == lines[e.line_number - n]
        }),
    decreases lines.len(),
{
    if lines.len() > 0 {
        match decode_line(b, sec, lines[0]) {
            Ok(p) => {
                lemma_decode_lines_error(p.0, p.1, lines.drop_first(), n + 1);
            },
            Err(_) => {
            },
        }
    }
}

/// Every decoding failure identifies a real line of the input: the
/// error's 1-based line number indexes the text's lines, and the error
/// carries exactly that line's text.
pub proof fn lemma_error_identifies_line(t: Seq<char>)
    requires
        parse_spec(t) is Err,
    ensures
        ({
            let e = parse_spec(t)->Err_0;
            &&& 1 <= e.line_number <= split_lines(t).len()
            &&& e.line == split_lines(t)[e.line_number - 1]
        }),
{
    lemma_decode_lines_error(default_beatmap(), FileSections::Format, split_lines(t), 1);
}

} // verus!
