//! Reading TrueType/OpenType faces with `ttf-parser`.
//!
//! A face is kept as its raw bytes and face index; each query parses the face again
//! (parsing is cheap and deterministic) and asks `ttf-parser`. What a query returns is
//! given a name below, a function of the bytes and the index; where the crate's source
//! states more in a few lines, the contract says so.
use vstd::prelude::*;
use ttf_parser::{Face, FaceParsingError, GlyphId};

verus! {

/// Why a face could not be parsed (mirrors `ttf_parser::FaceParsingError`).
#[derive(Debug, Clone, Copy, PartialEq, Eq, Structural)]
pub enum FontParseError {
    MalformedFont,
    UnknownMagic,
    FaceIndexOutOfBounds,
    NoHeadTable,
    NoHheaTable,
    NoMaxpTable,
}

/// The outcome of `Face::parse` on these bytes and face index.
pub uninterp spec fn ttf_face_parse(data: Seq<u8>, index: u32) -> Result<(), FontParseError>;

/// `Face::units_per_em` of the parsed face.
pub uninterp spec fn ttf_units_per_em(data: Seq<u8>, index: u32) -> u16;

/// `Face::ascender` of the parsed face.
pub uninterp spec fn ttf_ascender(data: Seq<u8>, index: u32) -> i16;

/// `Face::descender` of the parsed face.
pub uninterp spec fn ttf_descender(data: Seq<u8>, index: u32) -> i16;

/// `Face::italic_angle` of the parsed face, converted to an integer with `as i64`.
pub uninterp spec fn ttf_italic_angle(data: Seq<u8>, index: u32) -> i64;

/// `Face::number_of_glyphs` of the parsed face.
pub uninterp spec fn ttf_number_of_glyphs(data: Seq<u8>, index: u32) -> u16;

/// `Face::glyph_hor_advance` of the parsed face for a glyph.
pub uninterp spec fn ttf_glyph_hor_advance(data: Seq<u8>, index: u32, glyph: u16) -> Option<u16>;

/// The vertical extent `(y_min, y_max)` of `Face::glyph_bounding_box` for a glyph.
pub uninterp spec fn ttf_glyph_y_bounds(data: Seq<u8>, index: u32, glyph: u16) -> Option<(i16, i16)>;

/// The number of encoding subtables of the `cmap` table, `None` without a `cmap` table.
pub uninterp spec fn ttf_cmap_len(data: Seq<u8>, index: u32) -> Option<u16>;

/// Whether `cmap` subtable `i` is Unicode (`Subtable::is_unicode`); `None` when
/// `Subtables::get` gives no subtable at `i`.
pub uninterp spec fn ttf_subtable_is_unicode(data: Seq<u8>, index: u32, i: u16) -> Option<bool>;

/// The glyph that `cmap` subtable `i` maps a code point to (`Subtable::glyph_index`).
pub uninterp spec fn ttf_subtable_glyph(data: Seq<u8>, index: u32, i: u16, code_point: u32) -> Option<u16>;

/// The code points that `Subtable::codepoints` lists for `cmap` subtable `i`, in order.
pub uninterp spec fn ttf_subtable_codepoints(data: Seq<u8>, index: u32, i: u16) -> Seq<u32>;

/// The number of records of the `name` table (`Names::len`).
pub uninterp spec fn ttf_name_count(data: Seq<u8>, index: u32) -> u16;

/// Record `i` of the `name` table: its name id and its text when it is Unicode
/// (`Names::get`, `Name::to_string`).
pub uninterp spec fn ttf_name_record(data: Seq<u8>, index: u32, i: u16) -> Option<(u16, Option<Seq<char>>)>;

/// Which colour glyph tables the face has: `COLR`, `sbix`, `CBDT`, `SVG `.
pub uninterp spec fn ttf_color_tables(data: Seq<u8>, index: u32) -> (bool, bool, bool, bool);

/// Whether the face at `index` in `data` parses.
pub open spec fn ttf_parses(data: Seq<u8>, index: u32) -> bool {
    ttf_face_parse(data, index) is Ok
}

/// `Face::glyph_index`: the first Unicode subtable, from subtable `i` on, that maps the code
/// point; walking the subtables stops at the first one that cannot be read.
pub open spec fn face_glyph_lookup(data: Seq<u8>, index: u32, code_point: u32, i: nat, len: nat) -> Option<u16>
    decreases len - i,
{
    if i >= len || i > u16::MAX {
        None
    } else {
        match ttf_subtable_is_unicode(data, index, i as u16) {
            None => None,
            Some(false) => face_glyph_lookup(data, index, code_point, i + 1, len),
            Some(true) => match ttf_subtable_glyph(data, index, i as u16, code_point) {
                Some(g) => Some(g),
                None => face_glyph_lookup(data, index, code_point, i + 1, len),
            },
        }
    }
}

/// `Face::glyph_index` for a code point, over the `cmap` subtables.
pub open spec fn face_glyph_index(data: Seq<u8>, index: u32, code_point: u32) -> Option<u16> {
    match ttf_cmap_len(data, index) {
        None => None,
        Some(len) => face_glyph_lookup(data, index, code_point, 0, len as nat),
    }
}

/// Parses the face at `index` in `data` with `Face::parse` and reports the outcome;
/// the contract names it `ttf_face_parse`.
#[verifier::external_body]
pub(crate) fn ttf_parse(data: &[u8], index: u32) -> (r: Result<(), FontParseError>)
    ensures
        r == ttf_face_parse(data@, index),
{
    match Face::parse(data, index) {
        Ok(_) => Ok(()),
        Err(FaceParsingError::MalformedFont) => Err(FontParseError::MalformedFont),
        Err(FaceParsingError::UnknownMagic) => Err(FontParseError::UnknownMagic),
        Err(FaceParsingError::FaceIndexOutOfBounds) => Err(FontParseError::FaceIndexOutOfBounds),
        Err(FaceParsingError::NoHeadTable) => Err(FontParseError::NoHeadTable),
        Err(FaceParsingError::NoHheaTable) => Err(FontParseError::NoHheaTable),
        Err(FaceParsingError::NoMaxpTable) => Err(FontParseError::NoMaxpTable),
    }
}

/// `Face::units_per_em`, which the crate documents (and its `head` parser enforces)
/// to lie in `16..=16384`.
#[verifier::external_body]
pub(crate) fn ttf_units_per_em_of(data: &[u8], index: u32) -> (r: u16)
    requires
        ttf_parses(data@, index),
    ensures
        r == ttf_units_per_em(data@, index),
        16 <= r <= 16384,
{
    Face::parse(data, index).unwrap().units_per_em()
}

/// `Face::ascender`.
#[verifier::external_body]
pub(crate) fn ttf_ascender_of(data: &[u8], index: u32) -> (r: i16)
    requires
        ttf_parses(data@, index),
    ensures
        r == ttf_ascender(data@, index),
{
    Face::parse(data, index).unwrap().ascender()
}

/// `Face::descender`.
#[verifier::external_body]
pub(crate) fn ttf_descender_of(data: &[u8], index: u32) -> (r: i16)
    requires
        ttf_parses(data@, index),
    ensures
        r == ttf_descender(data@, index),
{
    Face::parse(data, index).unwrap().descender()
}

/// `Face::italic_angle`, converted to an integer with `as i64`.
#[verifier::external_body]
pub(crate) fn ttf_italic_angle_of(data: &[u8], index: u32) -> (r: i64)
    requires
        ttf_parses(data@, index),
    ensures
        r == ttf_italic_angle(data@, index),
{
    Face::parse(data, index).unwrap().italic_angle() as i64
}

/// `Face::number_of_glyphs`, which the crate documents as never zero.
#[verifier::external_body]
pub(crate) fn ttf_number_of_glyphs_of(data: &[u8], index: u32) -> (r: u16)
    requires
        ttf_parses(data@, index),
    ensures
        r == ttf_number_of_glyphs(data@, index),
        r > 0,
{
    Face::parse(data, index).unwrap().number_of_glyphs()
}

/// `Face::glyph_index`: walks the `cmap` subtables in order, skips those that are not
/// Unicode, and gives the first glyph that one of them maps the character to; the walk
/// ends at the first subtable that cannot be read.
#[verifier::external_body]
pub(crate) fn ttf_glyph_index_of(data: &[u8], index: u32, c: char) -> (r: Option<u16>)
    requires
        ttf_parses(data@, index),
    ensures
        r == face_glyph_index(data@, index, c as u32),
{
    match Face::parse(data, index).unwrap().glyph_index(c) {
        Some(id) => Some(id.0),
        None => None,
    }
}

/// `Face::glyph_hor_advance`.
#[verifier::external_body]
pub(crate) fn ttf_glyph_hor_advance_of(data: &[u8], index: u32, glyph: u16) -> (r: Option<u16>)
    requires
        ttf_parses(data@, index),
    ensures
        r == ttf_glyph_hor_advance(data@, index, glyph),
{
    Face::parse(data, index).unwrap().glyph_hor_advance(GlyphId(glyph))
}

/// `Face::glyph_bounding_box`, keeping `(y_min, y_max)`.
#[verifier::external_body]
pub(crate) fn ttf_glyph_y_bounds_of(data: &[u8], index: u32, glyph: u16) -> (r: Option<(i16, i16)>)
    requires
        ttf_parses(data@, index),
    ensures
        r == ttf_glyph_y_bounds(data@, index, glyph),
{
    match Face::parse(data, index).unwrap().glyph_bounding_box(GlyphId(glyph)) {
        Some(rect) => Some((rect.y_min, rect.y_max)),
        None => None,
    }
}

/// `Subtables::len` of the face's `cmap` table, `None` when it has none.
#[verifier::external_body]
pub(crate) fn ttf_cmap_len_of(data: &[u8], index: u32) -> (r: Option<u16>)
    requires
        ttf_parses(data@, index),
    ensures
        r == ttf_cmap_len(data@, index),
{
    match Face::parse(data, index).unwrap().tables().cmap {
        Some(cmap) => Some(cmap.subtables.len()),
        None => None,
    }
}

/// `Subtable::is_unicode` of `cmap` subtable `i`, `None` when `Subtables::get` gives none.
#[verifier::external_body]
pub(crate) fn ttf_subtable_is_unicode_of(data: &[u8], index: u32, i: u16) -> (r: Option<bool>)
    requires
        ttf_parses(data@, index),
    ensures
        r == ttf_subtable_is_unicode(data@, index, i),
{
    match Face::parse(data, index).unwrap().tables().cmap {
        Some(cmap) => match cmap.subtables.get(i) {
            Some(subtable) => Some(subtable.is_unicode()),
            None => None,
        },
        None => None,
    }
}

/// `Subtable::glyph_index` of `cmap` subtable `i` for a code point.
#[verifier::external_body]
pub(crate) fn ttf_subtable_glyph_of(data: &[u8], index: u32, i: u16, code_point: u32) -> (r: Option<u16>)
    requires
        ttf_parses(data@, index),
    ensures
        r == ttf_subtable_glyph(data@, index, i, code_point),
{
    let face = Face::parse(data, index).unwrap();
    match face.tables().cmap {
        Some(cmap) => match cmap.subtables.get(i) {
            Some(subtable) => match subtable.glyph_index(code_point) {
                Some(id) => Some(id.0),
                None => None,
            },
            None => None,
        },
        None => None,
    }
}

/// Appends a code point to a list (the callback handed to `Subtable::codepoints`).
pub(crate) fn record_code_point(list: &mut Vec<u32>, code_point: u32)
    ensures
        final(list)@ == old(list)@.push(code_point),
{
    list.push(code_point);
}

/// `Subtable::codepoints` of `cmap` subtable `i`, collected in the order they are listed.
#[verifier::external_body]
pub(crate) fn ttf_subtable_codepoints_of(data: &[u8], index: u32, i: u16) -> (r: Vec<u32>)
    requires
        ttf_parses(data@, index),
    ensures
        r@ == ttf_subtable_codepoints(data@, index, i),
{
    let face = Face::parse(data, index).unwrap();
    let mut list = Vec::new();
    if let Some(cmap) = face.tables().cmap {
        if let Some(subtable) = cmap.subtables.get(i) {
            subtable.codepoints(|code_point| record_code_point(&mut list, code_point));
        }
    }
    list
}

/// `Names::len` of the face's `name` table.
#[verifier::external_body]
pub(crate) fn ttf_name_count_of(data: &[u8], index: u32) -> (r: u16)
    requires
        ttf_parses(data@, index),
    ensures
        r == ttf_name_count(data@, index),
{
    Face::parse(data, index).unwrap().names().len()
}

/// Record `i` of the `name` table (`Names::get`): its name id, and its text
/// (`Name::to_string`, which decodes Unicode records only).
#[verifier::external_body]
pub(crate) fn ttf_name_record_of(data: &[u8], index: u32, i: u16) -> (r: Option<(u16, Option<String>)>)
    requires
        ttf_parses(data@, index),
    ensures
        match r {
            None => ttf_name_record(data@, index, i) is None,
            Some((id, text)) => ttf_name_record(data@, index, i) == Some(
                (id, match text { Some(t) => Some(t@), None => None }),
            ),
        },
{
    match Face::parse(data, index).unwrap().names().get(i) {
        Some(name) => Some((name.name_id, name.to_string())),
        None => None,
    }
}

/// Whether the face has the `COLR`, `sbix`, `CBDT` and `SVG ` tables (fields of `Face::tables`).
#[verifier::external_body]
pub(crate) fn ttf_color_tables_of(data: &[u8], index: u32) -> (r: (bool, bool, bool, bool))
    requires
        ttf_parses(data@, index),
    ensures
        r == ttf_color_tables(data@, index),
{
    let face = Face::parse(data, index).unwrap();
    let tables = face.tables();
    (tables.colr.is_some(), tables.sbix.is_some(), tables.cbdt.is_some(), tables.svg.is_some())
}

} // verus!
