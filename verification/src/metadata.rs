//! The `[Metadata]` section: descriptive text fields, tags and ids.
use vstd::prelude::*;
use crate::error::{ErrorKind, ErrorKindModel};
use crate::general::numeric_error;
use crate::text::{
    parse_u32, parse_u32_spec, split_all, split_all_str, split_first, split_once_at, str_eq,
    trim_str, trimmed,
};
use crate::{Beatmap, BeatmapModel};
use vstd::string::StrSliceExecFns;

verus! {

/// Descriptive information about a beatmap.
#[derive(Debug, Clone, PartialEq)]
pub struct Metadata {
    pub title: String,
    pub title_unicode: String,
    pub artist: String,
    pub artist_unicode: String,
    pub creator: String,
    pub version: String,
    pub source: String,
    pub tags: Vec<String>,
    pub beatmap_id: u32,
    pub beatmap_set_id: u32,
}

/// The mathematical image of a [`Metadata`] value.
pub ghost struct MetadataModel {
    pub title: Seq<char>,
    pub title_unicode: Seq<char>,
    pub artist: Seq<char>,
    pub artist_unicode: Seq<char>,
    pub creator: Seq<char>,
    pub version: Seq<char>,
    pub source: Seq<char>,
    pub tags: Seq<Seq<char>>,
    pub beatmap_id: u32,
    pub beatmap_set_id: u32,
}

impl View for Metadata {
    type V = MetadataModel;

    open spec fn view(&self) -> MetadataModel {
        MetadataModel {
            title: self.title@,
            title_unicode: self.title_unicode@,
            artist: self.artist@,
            artist_unicode: self.artist_unicode@,
            creator: self.creator@,
            version: self.version@,
            source: self.source@,
            tags: self.tags@.map_values(|s: String| s@),
            beatmap_id: self.beatmap_id,
            beatmap_set_id: self.beatmap_set_id,
        }
    }
}

/// The defaults of the section: empty text, no tags, zero ids.
pub open spec fn default_metadata() -> MetadataModel {
    MetadataModel {
        title: Seq::empty(),
        title_unicode: Seq::empty(),
        artist: Seq::empty(),
        artist_unicode: Seq::empty(),
        creator: Seq::empty(),
        version: Seq::empty(),
        source: Seq::empty(),
        tags: Seq::empty(),
        beatmap_id: 0,
        beatmap_set_id: 0,
    }
}

impl Metadata {
    /// A section built from each field's value.
    #[allow(clippy::too_many_arguments)]
    pub fn new(
        title: String,
        title_unicode: String,
        artist: String,
        artist_unicode: String,
        creator: String,
        version: String,
        source: String,
        tags: Vec<String>,
        beatmap_id: u32,
        beatmap_set_id: u32,
    ) -> (r: Metadata)
        ensures
            r@ == (MetadataModel {
                title: title@,
                title_unicode: title_unicode@,
                artist: artist@,
                artist_unicode: artist_unicode@,
                creator: creator@,
                version: version@,
                source: source@,
                tags: tags@.map_values(|s: String| s@),
                beatmap_id: beatmap_id,
                beatmap_set_id: beatmap_set_id,
            }),
    {
        Metadata {
            title,
            title_unicode,
            artist,
            artist_unicode,
            creator,
            version,
            source,
            tags,
            beatmap_id,
            beatmap_set_id,
        }
    }
}

impl Default for Metadata {
    fn default() -> (r: Metadata)
        ensures
            r@ == default_metadata(),
    {
        let r = Metadata {
            title: String::new(),
            title_unicode: String::new(),
            artist: String::new(),
            artist_unicode: String::new(),
            creator: String::new(),
            version: String::new(),
            source: String::new(),
            tags: Vec::new(),
            beatmap_id: 0,
            beatmap_set_id: 0,
        };
        proof {
            assert(r.tags@.map_values(|s: String| s@) =~= Seq::<Seq<char>>::empty());
        }
        r
    }
}

/// The ordered tag tokens of a tag value: the pieces between single
/// spaces, order and duplicates kept; an empty value has no tokens.
pub open spec fn tags_of(val: Seq<char>) -> Seq<Seq<char>> {
    if val.len() == 0 {
        Seq::empty()
    } else {
        split_all(val, ' ')
    }
}

/// What one content line does to the section: the updated section, or the
/// error that stops decoding.
pub open spec fn decode_metadata(m: MetadataModel, line: Seq<char>) -> Result<
    MetadataModel,
    ErrorKindModel,
> {
    match split_first(line, ':') {
        None => Err(ErrorKindModel::MissingColon),
        Some(p) => {
            let key = trimmed(p.0);
            let val = trimmed(p.1);
            if key == "Title"@ {
                Ok(MetadataModel { title: val, ..m })
            } else if key == "TitleUnicode"@ {
                Ok(MetadataModel { title_unicode: val, ..m })
            } else if key == "Artist"@ {
                Ok(MetadataModel { artist: val, ..m })
            } else if key == "ArtistUnicode"@ {
                Ok(MetadataModel { artist_unicode: val, ..m })
            } else if key == "Creator"@ {
                Ok(MetadataModel { creator: val, ..m })
            } else if key == "Version"@ {
                Ok(MetadataModel { version: val, ..m })
            } else if key == "Source"@ {
                Ok(MetadataModel { source: val, ..m })
            } else if key == "Tags"@ {
                Ok(MetadataModel { tags: tags_of(val), ..m })
            } else if key == "BeatmapID"@ {
                match parse_u32_spec(val) {
                    Some(v) => Ok(MetadataModel { beatmap_id: v, ..m }),
                    None => Err(numeric_error(key, val)),
                }
            } else if key == "BeatmapSetID"@ {
                match parse_u32_spec(val) {
                    Some(v) => Ok(MetadataModel { beatmap_set_id: v, ..m }),
                    None => Err(numeric_error(key, val)),
                }
            } else {
                Ok(m)
            }
        },
    }
}

/// Decodes one `[Metadata]` content line into the beatmap. On success only
/// the addressed field changes; on failure nothing changes and the error
/// says why.
pub fn parse_metadata(line: &str, beatmap: &mut Beatmap) -> (r: Result<(), ErrorKind>)
    ensures
        match r {
            Ok(_) => {
                &&& decode_metadata(old(beatmap)@.metadata, line@) == Ok::<_, ErrorKindModel>(
                    final(beatmap)@.metadata,
                )
                &&& final(beatmap)@ == (BeatmapModel {
                    metadata: final(beatmap)@.metadata,
                    ..old(beatmap)@
                })
            },
            Err(e) => {
                &&& decode_metadata(old(beatmap)@.metadata, line@) == Err::<MetadataModel, _>(e@)
                &&& final(beatmap)@ == old(beatmap)@
            },
        },
{
    match split_once_at(line, ':') {
        None => Err(ErrorKind::MissingColon),
        Some((k, v)) => {
            let key = trim_str(k);
            let val = trim_str(v);
            if str_eq(key, "Title") {
                beatmap.metadata.title = val.to_owned();
                Ok(())
            } else if str_eq(key, "TitleUnicode") {
                beatmap.metadata.title_unicode = val.to_owned();
                Ok(())
            } else if str_eq(key, "Artist") {
                beatmap.metadata.artist = val.to_owned();
                Ok(())
            } else if str_eq(key, "ArtistUnicode") {
                beatmap.metadata.artist_unicode = val.to_owned();
                Ok(())
            } else if str_eq(key, "Creator") {
                beatmap.metadata.creator = val.to_owned();
                Ok(())
            } else if str_eq(key, "Version") {
                beatmap.metadata.version = val.to_owned();
                Ok(())
            } else if str_eq(key, "Source") {
                beatmap.metadata.source = val.to_owned();
                Ok(())
            } else if str_eq(key, "Tags") {
                if val.unicode_len() == 0 {
                    let empty: Vec<String> = Vec::new();
                    beatmap.metadata.tags = empty;
                    proof {
                        assert(beatmap.metadata.tags@.map_values(|s: String| s@)
                            =~= Seq::<Seq<char>>::empty());
                    }
                } else {
                    beatmap.metadata.tags = split_all_str(val, ' ');
                }
                Ok(())
            } else if str_eq(key, "BeatmapID") {
                match parse_u32(val) {
                    Some(x) => {
                        beatmap.metadata.beatmap_id = x;
                        Ok(())
                    },
                    None => Err(
                        ErrorKind::NumericConversionFailed {
                            key: key.to_owned(),
                            value: val.to_owned(),
                        },
                    ),
                }
            } else if str_eq(key, "BeatmapSetID") {
                match parse_u32(val) {
                    Some(x) => {
                        beatmap.metadata.beatmap_set_id = x;
                        Ok(())
                    },
                    None => Err(
                        ErrorKind::NumericConversionFailed {
                            key: key.to_owned(),
                            value: val.to_owned(),
                        },
                    ),
                }
            } else {
                Ok(())
            }
        },
    }
}

} // verus!
