//! The font-glyph-provider contract and font-format sniffing.
//!
//! Text drawing asks a provider for a combined glyph outline; the provider
//! owns parsing and shaping.  The library itself only sniffs raw font
//! bytes for their container format, so a caller knows whether the bytes
//! must be decompressed first.

use vstd::prelude::*;
use crate::paint::FillRule;
use crate::path::PathData;
use crate::transform::Transform;

verus! {

/// A combined glyph outline, its fill rule and the transform that places
/// it.
#[derive(Clone, Debug)]
pub struct Glyph {
    pub path: PathData,
    pub fill_rule: FillRule,
    pub transform: Transform,
}

/// The slant of a face.
#[derive(Clone, Copy, PartialEq, Eq, Structural, Debug)]
pub enum FontStyle {
    Normal,
    Italic,
    Oblique,
}

impl Default for FontStyle {
    /// Faces are upright by default.
    fn default() -> (r: Self)
        ensures
            r == FontStyle::Normal,
    {
        FontStyle::Normal
    }
}

/// A font request: family, raw size and style parameters.
#[derive(Clone, Debug)]
pub struct FontStyles {
    pub family: String,
    pub size: i64,
    pub stretch: String,
    pub style: FontStyle,
    pub variant: String,
    pub weight: String,
    pub line_height: i64,
}

/// What a glyph provider offers: ingesting raw font bytes and producing a
/// combined outline for a string of text.  Implementations live outside
/// the library; nothing is promised of them.
pub trait FontBucket {
    /// A fallback glyph for the given style.
    fn default_glyph(&self, style: &FontStyles) -> Glyph;

    /// The combined outline of `text` under `style`, or nothing when no
    /// face covers the request.
    fn get_glyph(&mut self, style: &FontStyles, text: &str) -> Option<Glyph>;

    /// Ingests raw font bytes; nothing when the bytes are not a usable
    /// font.
    fn load_font(&mut self, buf: &[u8]) -> Option<()>;
}

/// The signature of a plain TrueType container.
pub const SFNT_VERSION_TRUE_TYPE1: u32 = 0x00010000;

/// The signature `true` of an old TrueType container.
pub const SFNT_VERSION_TRUE_TYPE2: u32 = 0x74727565;

/// The signature `typ1` of an old TrueType container.
pub const SFNT_VERSION_TRUE_TYPE3: u32 = 0x74797031;

/// The signature `OTTO` of an OpenType container.
pub const SFNT_VERSION_OPEN_TYPE: u32 = 0x4F54544F;

/// The signature `wOFF` of a compressed container.
pub const SFNT_VERSION_WOFF: u32 = 0x774F4646;

/// The big-endian 32-bit word of `data` at `offset`, if the four bytes
/// are there.
pub open spec fn spec_word_at(data: Seq<u8>, offset: int) -> Option<u32> {
    if offset + 4 <= data.len() && 0 <= offset {
        Some((data[offset] * 0x100_0000 + data[offset + 1] * 0x1_0000
            + data[offset + 2] * 0x100 + data[offset + 3]) as u32)
    } else {
        None
    }
}

fn get_data(data: &[u8], offset: usize) -> (r: Option<u32>)
    ensures
        r == spec_word_at(data@, offset as int),
{
    if data.len() < 4 || offset > data.len() - 4 {
        return None;
    }
    let b0 = data[offset];
    let b1 = data[offset + 1];
    let b2 = data[offset + 2];
    let b3 = data[offset + 3];
    Some((b0 as u32) * 0x100_0000 + (b1 as u32) * 0x1_0000 + (b2 as u32) * 0x100 + (b3 as u32))
}

/// What the sniffer reports of font bytes: the container kind and whether
/// the payload is compressed.
pub open spec fn spec_check_type(data: Seq<u8>) -> Option<(Seq<char>, bool)> {
    match spec_word_at(data, 0) {
        None => None,
        Some(signature) => {
            if signature == SFNT_VERSION_TRUE_TYPE1 || signature == SFNT_VERSION_TRUE_TYPE2
                || signature == SFNT_VERSION_TRUE_TYPE3 {
                Some(("ttf"@, false))
            } else if signature == SFNT_VERSION_OPEN_TYPE {
                Some(("otf"@, false))
            } else if signature == SFNT_VERSION_WOFF {
                match spec_word_at(data, 4) {
                    None => None,
                    Some(tag) => {
                        if tag == SFNT_VERSION_TRUE_TYPE1 {
                            Some(("ttf"@, true))
                        } else if tag == SFNT_VERSION_OPEN_TYPE {
                            Some(("otf"@, true))
                        } else {
                            None
                        }
                    },
                }
            } else {
                None
            }
        },
    }
}

/// Sniffs raw font bytes: the container kind (`ttf` or `otf`) and whether
/// the payload needs decompression first; nothing for any other bytes.
pub fn check_type(data: &[u8]) -> (r: Option<(String, bool)>)
    ensures
        match r {
            Some(p) => spec_check_type(data@) == Some((p.0@, p.1)),
            None => spec_check_type(data@) is None,
        },
{
    let signature = match get_data(data, 0) {
        Some(s) => s,
        None => {
            return None;
        }
    };
    if signature == SFNT_VERSION_TRUE_TYPE1 || signature == SFNT_VERSION_TRUE_TYPE2
        || signature == SFNT_VERSION_TRUE_TYPE3 {
        Some(("ttf".to_owned(), false))
    } else if signature == SFNT_VERSION_OPEN_TYPE {
        Some(("otf".to_owned(), false))
    } else if signature == SFNT_VERSION_WOFF {
        let tag = match get_data(data, 4) {
            Some(t) => t,
            None => {
                return None;
            }
        };
        if tag == SFNT_VERSION_TRUE_TYPE1 {
            Some(("ttf".to_owned(), true))
        } else if tag == SFNT_VERSION_OPEN_TYPE {
            Some(("otf".to_owned(), true))
        } else {
            None
        }
    } else {
        None
    }
}

} // verus!
