//! The fonts of a document: registered built-in fonts, and loaded fonts under unique ids.
use vstd::prelude::*;
use crate::font::{BuiltinFont, FontId, FontRef, GlyphMetrics};
use crate::font_face::{ExternalFont, family_name, has_color_tables, glyph_char_map, glyph_metrics_spec};
use crate::cmap::{cmap_blocks, cmap_blocks_spec, cid_to_unicode_map, generate_cid_to_unicode_map};
use crate::ids::{fresh_name, padded, random_character_string, is_alphanumeric, name_taken};
use crate::text_out::push_char;
use crate::font::{builtin_id, builtin_name};
use crate::pdf_object::{entries_view, obj_view, ObjView, PdfObject};
use crate::pdf_dicts::{embedded_font_objects, FontObject};
use crate::pdf_types::{BuiltinFontSubType, FontEncoding};
use crate::writer::DocumentWriter;
use crate::key_order::{key_before, keys_in_order, lemma_key_order, lemma_keys_in_order_insert, str_before};
use crate::ttf::{face_glyph_index, FontParseError, ttf_ascender, ttf_descender, ttf_italic_angle, ttf_units_per_em, ttf_number_of_glyphs};
use crate::image::ImageError;
use vstd::string::StringSliceAdditionalSpecFns;

verus! {

/// The errors of this library.
#[derive(Debug, Clone, PartialEq)]
pub enum TuxPdfError {
    /// A font could not be parsed.
    FontParse(FontParseError),
    /// An image could not be converted.
    Image(ImageError),
    /// A document without pages cannot be written.
    NoPagesCreated,
    /// An object id that does not exist.
    InvalidObjectId(String),
}

/// A loaded font, with the name it is embedded under.
#[derive(Debug, Clone, PartialEq)]
pub struct ParsedFont {
    pub font: ExternalFont,
    pub font_name: String,
    pub has_color_glyphs: bool,
}

/// The two bytes of a glyph id, high byte first.
pub open spec fn glyph_bytes(g: u16) -> Seq<u8> {
    seq![(g / 256) as u8, (g % 256) as u8]
}

/// The glyph ids of the characters that the face maps, two bytes each, in order;
/// characters without a glyph are left out.
pub open spec fn encode_chars(data: Seq<u8>, index: u32, chars: Seq<char>) -> Seq<u8>
    decreases chars.len(),
{
    if chars.len() == 0 {
        Seq::empty()
    } else {
        encode_chars(data, index, chars.drop_last()) + match face_glyph_index(
            data,
            index,
            chars.last() as u32,
        ) {
            Some(g) => glyph_bytes(g),
            None => Seq::empty(),
        }
    }
}

impl ParsedFont {
    /// The glyph of a character in this font.
    pub fn get_glyph_id(&self, c: char) -> (r: Option<u16>)
        ensures
            r == face_glyph_index(self.font.bytes(), self.font.face_index(), c as u32),
    {
        self.font.glyph_id(c)
    }

    /// Encodes text for this font (with `Identity-H` encoding): each character's glyph id
    /// in two bytes, high byte first; characters that the font lacks are left out.
    pub fn encode_text(&self, text: &str) -> (r: Vec<u8>)
        ensures
            r@ == encode_chars(self.font.bytes(), self.font.face_index(), text@),
    {
        let mut out: Vec<u8> = Vec::new();
        for c in iter: text.chars()
            invariant
                iter.seq() == text@,
                out@ == encode_chars(self.font.bytes(), self.font.face_index(), text@.take(iter.index() as int)),
        {
            let ghost k = iter.index();
            proof {
                assert(text@.take(k + 1).drop_last() == text@.take(k as int));
                assert(text@.take(k + 1).last() == c);
            }
            match self.get_glyph_id(c) {
                Some(g) => {
                    let hi = (g >> 8u16) as u8;
                    let lo = (g & 255u16) as u8;
                    assert(hi == (g / 256) as u8 && lo == (g % 256) as u8) by (bit_vector)
                        requires
                            hi == (g >> 8u16) as u8,
                            lo == (g & 255u16) as u8,
                    ;
                    out.push(hi);
                    out.push(lo);
                    assert(out@ == encode_chars(self.font.bytes(), self.font.face_index(), text@.take(k + 1)));
                },
                None => {},
            }
        }
        proof {
            assert(text@.take(text@.len() as int) == text@);
        }
        out
    }
}

/// Law of encoding text: appending a character to a text appends the two bytes of its glyph
/// id, high byte first, which read back as the glyph id; a character the face does not map
/// adds nothing.
pub proof fn law_encoded_glyph_reads_back(data: Seq<u8>, index: u32, chars: Seq<char>, c: char)
    ensures
        ({
            let before = encode_chars(data, index, chars);
            let after = encode_chars(data, index, chars.push(c));
            match face_glyph_index(data, index, c as u32) {
                Some(g) => {
                    &&& after.len() == before.len() + 2
                    &&& after.subrange(0, before.len() as int) == before
                    &&& 256 * after[before.len() as int] + after[before.len() as int + 1] == g
                },
                None => after == before,
            }
        }),
{
    assert(chars.push(c).drop_last() =~= chars);
    let before = encode_chars(data, index, chars);
    let after = encode_chars(data, index, chars.push(c));
    match face_glyph_index(data, index, c as u32) {
        Some(g) => {
            let b = glyph_bytes(g);
            assert(after == before + b);
            assert(after.subrange(0, before.len() as int) =~= before);
            assert(b[0] == (g / 256) as u8 && b[1] == (g % 256) as u8);
            assert(256 * ((g / 256) as u8) + ((g % 256) as u8) == g) by (bit_vector);
        },
        None => {
            assert(after =~= before);
        },
    }
}

/// Whether the `k`-th loaded font `e` was written: with the writer's ids from `m` on, its
/// embedded font's objects stand at `4 k .. 4 k + 3` of `objects` and its font dictionary
/// after them, and the resource dictionary's entry `entry` names it under its id.
pub open spec fn font_written(
    e: (FontId, ParsedFont),
    widths: Seq<Option<i64>>,
    m: int,
    k: int,
    entry: (String, PdfObject),
    objects: Seq<((u32, u16), PdfObject)>,
) -> bool {
    let font_id = ((m + 4 * k + 4) as u32, 0u16);
    &&& entry.0@ == e.0.0@
    &&& obj_view(entry.1) == ObjView::Reference(font_id.0, font_id.1)
    &&& objects[4 * k + 3].0 == font_id
    &&& exists|data: CidFontData| {
        &&& #[trigger] cid_data_of(e.1, data)
        &&& objects[4 * k + 3].1 matches PdfObject::Dictionary(d) && embedded_font_objects(
            data,
            e.1.font.bytes(),
            widths,
            (m + 4 * k) as u32,
            objects.subrange(4 * k, 4 * k + 3),
            d@,
        )
    }
}

/// Whether the `k`-th built-in font `f` was written after `n` loaded fonts: with the writer's
/// ids from `m` on, its dictionary stands at `4 n + k` of `objects`, and the resource
/// dictionary's entry `entry` names it under its dedicated id.
pub open spec fn builtin_written(
    f: BuiltinFont,
    m: int,
    n: int,
    k: int,
    entry: (String, PdfObject),
    objects: Seq<((u32, u16), PdfObject)>,
) -> bool {
    let id = ((m + 4 * n + k + 1) as u32, 0u16);
    &&& entry.0@ == builtin_id(f)
    &&& obj_view(entry.1) == ObjView::Reference(id.0, id.1)
    &&& objects[4 * n + k].0 == id
    &&& obj_view(objects[4 * n + k].1) == ObjView::Dictionary(builtin_font_entries(f))
}

/// The dictionary of a built-in font: a Type 1 font with the WinAnsi encoding.
pub open spec fn builtin_font_entries(f: BuiltinFont) -> Seq<(Seq<char>, ObjView)> {
    seq![
        ("Type"@, ObjView::Name("Font"@)),
        ("Subtype"@, ObjView::Name("Type1"@)),
        ("BaseFont"@, ObjView::Name(builtin_name(f))),
        ("Encoding"@, ObjView::Name("WinAnsiEncoding"@)),
    ]
}

/// Whether `data` is what the CID font dictionary of the loaded font `p` is made of (as
/// `ParsedFont::cid_font_data` computes it).
pub open spec fn cid_data_of(p: ParsedFont, data: CidFontData) -> bool {
    let bytes = p.font.bytes();
    let index = p.font.face_index();
    &&& data.font_name@ == p.font_name@
    &&& cmap_rows_of(bytes, index, data.cmap@)
    &&& data.max_height == max_height_of(data.cmap@.drop_first())
    &&& data.total_width == total_width_of(data.cmap@.drop_first())
    &&& data.to_unicode@ == cid_to_unicode_map(p.font_name@, cmap_blocks_spec(cmap_entries(data.cmap@)))
    &&& data.ascent == ttf_ascender(bytes, index)
    &&& data.descent == ttf_descender(bytes, index)
    &&& data.italic_angle == ttf_italic_angle(bytes, index)
    &&& data.units_per_em == ttf_units_per_em(bytes, index)
    &&& data.glyph_widths.len() == ttf_number_of_glyphs(bytes, index)
    &&& forall|g: int| 0 <= g < data.glyph_widths.len() ==> data.glyph_widths@[g] == match glyph_metrics_spec(
        bytes,
        index,
        g as u16,
    ) {
        Some(m) => Some(m.width),
        None => None,
    }
}

/// What a CID font dictionary of a loaded font is made of.
#[derive(Debug, Clone, PartialEq)]
pub struct CidFontData {
    /// The name the font is embedded under.
    pub font_name: String,
    /// Per glyph: (glyph id, character, width, height), in glyph order; the first row is
    /// glyph 0, `(0, 0, 1000, 1000)`, then every mapped glyph that has metrics.
    pub cmap: Vec<(u32, u32, u32, u32)>,
    /// The ToUnicode CMap text.
    pub to_unicode: String,
    /// The greatest glyph height among the mapped glyphs (0 without any).
    pub max_height: u32,
    /// The sum of the widths of the mapped glyphs.
    pub total_width: u32,
    /// The face's ascender (also used as cap height).
    pub ascent: i16,
    /// The face's descender.
    pub descent: i16,
    /// The face's italic angle.
    pub italic_angle: i64,
    /// The face's units per em.
    pub units_per_em: u16,
    /// The width of each glyph, by glyph id, `None` for a glyph without metrics.
    pub glyph_widths: Vec<Option<u32>>,
}

/// The greatest height among rows (0 without rows).
pub open spec fn max_height_of(rows: Seq<(u32, u32, u32, u32)>) -> u32
    decreases rows.len(),
{
    if rows.len() == 0 {
        0
    } else {
        let m = max_height_of(rows.drop_last());
        if rows.last().3 > m {
            rows.last().3
        } else {
            m
        }
    }
}

/// The sum of the widths of rows.
pub open spec fn total_width_of(rows: Seq<(u32, u32, u32, u32)>) -> int
    decreases rows.len(),
{
    if rows.len() == 0 {
        0
    } else {
        total_width_of(rows.drop_last()) + rows.last().2
    }
}

/// The (glyph id, character) entries of the rows.
pub open spec fn cmap_entries(rows: Seq<(u32, u32, u32, u32)>) -> Seq<(u32, u32)> {
    rows.map_values(|r: (u32, u32, u32, u32)| (r.0, r.1))
}

/// Whether `cmap` lists, after the row of glyph 0, every glyph that the face maps a
/// character to and that has metrics, once, in glyph order, with its character and metrics.
pub open spec fn cmap_rows_of(data: Seq<u8>, index: u32, cmap: Seq<(u32, u32, u32, u32)>) -> bool {
    let m = glyph_char_map(data, index);
    &&& cmap.len() >= 1
    &&& cmap[0] == (0u32, 0u32, 1000u32, 1000u32)
    &&& forall|a: int, b: int| 1 <= a < b < cmap.len() ==> cmap[a].0 < cmap[b].0
    &&& forall|k: int| #![trigger cmap[k]] 1 <= k < cmap.len() ==> {
        let g = cmap[k].0;
        &&& g <= u16::MAX
        &&& m.contains_key(g as u16)
        &&& m[g as u16] == cmap[k].1
        &&& glyph_metrics_spec(data, index, g as u16) == Some(GlyphMetrics { width: cmap[k].2, height: cmap[k].3 })
    }
    &&& forall|g: u16| m.contains_key(g) && glyph_metrics_spec(data, index, g) is Some ==> exists|k: int|
        1 <= k < cmap.len() && cmap[k].0 == g
}

impl ParsedFont {
    /// The rows of the font's glyphs: glyph 0 first, then every mapped glyph with metrics.
    #[verifier::spinoff_prover]
    #[verifier::rlimit(60)]
    fn glyph_rows(&self) -> (r: (Vec<(u32, u32, u32, u32)>, u32, u32))
        ensures
            cmap_rows_of(self.font.bytes(), self.font.face_index(), r.0@),
            r.1 == max_height_of(r.0@.drop_first()),
            r.2 == total_width_of(r.0@.drop_first()),
    {
        let ghost data = self.font.bytes();
        let ghost index = self.font.face_index();
        let ghost m = glyph_char_map(data, index);
        let glyphs = self.font.glyph_ids();
        let mut cmap: Vec<(u32, u32, u32, u32)> = Vec::new();
        cmap.push((0, 0, 1000, 1000));
        let mut max_height: u32 = 0;
        let mut total_width: u32 = 0;
        let mut i: usize = 0;
        while i < glyphs.len()
            invariant
                data == self.font.bytes(),
                index == self.font.face_index(),
                m == glyph_char_map(data, index),
                i <= glyphs.len() <= 65536,
                forall|a: int, b: int| 0 <= a < b < glyphs.len() ==> glyphs[a].0 < glyphs[b].0,
                forall|k: int| 0 <= k < glyphs.len() ==> m.contains_key(#[trigger] glyphs[k].0) && m[glyphs[k].0] == glyphs[k].1,
                cmap.len() >= 1,
                cmap.len() <= i + 1,
                cmap@[0] == (0u32, 0u32, 1000u32, 1000u32),
                forall|a: int, b: int| 1 <= a < b < cmap.len() ==> cmap[a].0 < cmap[b].0,
                forall|k: int| #![trigger cmap[k]] 1 <= k < cmap.len() ==> exists|j: int| 0 <= j < i && cmap[k].0 == glyphs[j].0,
                forall|k: int| #![trigger cmap@[k]] 1 <= k < cmap.len() ==> {
                    let g = cmap@[k].0;
                    &&& g <= u16::MAX
                    &&& m.contains_key(g as u16)
                    &&& m[g as u16] == cmap[k].1
                    &&& glyph_metrics_spec(data, index, g as u16) == Some(
                        GlyphMetrics { width: cmap[k].2, height: cmap[k].3 },
                    )
                },
                forall|j: int| 0 <= j < i && glyph_metrics_spec(data, index, glyphs[j].0) is Some ==> exists|k: int|
                    1 <= k < cmap.len() && cmap[k].0 == glyphs[j].0,
                forall|k: int| 1 <= k < cmap.len() ==> cmap[k].2 <= 65535,
                max_height == max_height_of(cmap@.drop_first()),
                total_width == total_width_of(cmap@.drop_first()),
                total_width <= 65535 * (cmap.len() - 1),
            decreases glyphs.len() - i,
        {
            let (g, c) = glyphs[i];
            match self.font.glyph_metrics(g) {
                Some(metrics) => {
                    let ghost before = cmap@;
                    proof {
                        assert(metrics.width <= 65535);
                        assert(total_width + metrics.width <= 65535 * cmap.len()) by (nonlinear_arith)
                            requires
                                total_width <= 65535 * (cmap.len() - 1),
                                metrics.width <= 65535,
                                cmap.len() >= 1,
                        ;
                        assert(65535 * cmap.len() <= 65535 * 65536) by (nonlinear_arith)
                            requires
                                cmap.len() <= 65536,
                        ;
                    }
                    if metrics.height > max_height {
                        max_height = metrics.height;
                    }
                    total_width = total_width + metrics.width;
                    cmap.push((g as u32, c, metrics.width, metrics.height));
                    proof {
                        assert(cmap@.drop_first().drop_last() =~= before.drop_first());
                        assert forall|a: int, b: int| 1 <= a < b < cmap.len() implies cmap[a].0 < cmap[b].0 by {
                            if b == cmap.len() - 1 && a >= 1 {
                                let j = choose|j: int| 0 <= j < i && before[a].0 == glyphs[j].0;
                                assert(glyphs[j].0 < glyphs[i as int].0);
                            }
                        }
                        assert forall|k: int| #![trigger cmap[k]] 1 <= k < cmap.len() implies exists|j: int| 0 <= j < i + 1 && cmap[k].0
                            == glyphs[j].0 by {
                            if k == cmap.len() - 1 {
                                assert(cmap[k].0 == glyphs[i as int].0);
                            } else {
                                let j = choose|j: int| 0 <= j < i && before[k].0 == glyphs[j].0;
                                assert(cmap[k].0 == glyphs[j].0);
                            }
                        }
                        assert forall|j: int| 0 <= j < i + 1 && glyph_metrics_spec(data, index, glyphs[j].0) is Some
                            implies exists|k: int| 1 <= k < cmap.len() && cmap[k].0 == glyphs[j].0 by {
                            if j == i {
                                assert(cmap[cmap.len() - 1].0 == glyphs[j].0);
                            } else {
                                let k = choose|k: int| 1 <= k < before.len() && before[k].0 == glyphs[j].0;
                                assert(cmap[k].0 == glyphs[j].0);
                            }
                        }
                    }
                },
                None => {
                    proof {
                        assert forall|k: int| #![trigger cmap[k]] 1 <= k < cmap.len() implies exists|j: int| 0 <= j < i + 1 && cmap[k].0
                            == glyphs[j].0 by {
                            let j = choose|j: int| 0 <= j < i && cmap[k].0 == glyphs[j].0;
                        }
                    }
                },
            }
            i = i + 1;
        }
        proof {
            assert forall|g: u16| m.contains_key(g) && glyph_metrics_spec(data, index, g) is Some implies exists|k: int|
                1 <= k < cmap.len() && cmap[k].0 == g by {
                let j = choose|j: int| 0 <= j < glyphs.len() && glyphs[j].0 == g;
                assert(glyph_metrics_spec(data, index, glyphs[j].0) is Some);
            }
        }
        (cmap, max_height, total_width)
    }

    /// The width of every glyph of the font, by glyph id.
    fn glyph_widths(&self) -> (r: Vec<Option<u32>>)
        ensures
            r.len() == ttf_number_of_glyphs(self.font.bytes(), self.font.face_index()),
            forall|g: int| 0 <= g < r.len() ==> r@[g] == match glyph_metrics_spec(self.font.bytes(), self.font.face_index(), g as u16) {
                Some(m) => Some(m.width),
                None => None,
            },
    {
        let count = self.font.glyph_count();
        let mut r: Vec<Option<u32>> = Vec::new();
        let mut g: u16 = 0;
        while g < count
            invariant
                count == ttf_number_of_glyphs(self.font.bytes(), self.font.face_index()),
                g <= count,
                r.len() == g,
                forall|h: int| 0 <= h < g ==> r@[h] == match glyph_metrics_spec(self.font.bytes(), self.font.face_index(), h as u16) {
                    Some(m) => Some(m.width),
                    None => None,
                },
            decreases count - g,
        {
            match self.font.glyph_metrics(g) {
                Some(m) => r.push(Some(m.width)),
                None => r.push(None),
            }
            g = g + 1;
        }
        r
    }

    /// What the CID font dictionary of this font is made of: the glyph rows, the
    /// ToUnicode CMap built from them, the bounding box figures, the face's metrics and
    /// the width of every glyph.
    pub fn cid_font_data(&self) -> (r: CidFontData)
        ensures
            cid_data_of(*self, r),
            r.font_name@ == self.font_name@,
            cmap_rows_of(self.font.bytes(), self.font.face_index(), r.cmap@),
            r.max_height == max_height_of(r.cmap@.drop_first()),
            r.total_width == total_width_of(r.cmap@.drop_first()),
            r.to_unicode@ == cid_to_unicode_map(self.font_name@, cmap_blocks_spec(cmap_entries(r.cmap@))),
            r.ascent == ttf_ascender(self.font.bytes(), self.font.face_index()),
            r.descent == ttf_descender(self.font.bytes(), self.font.face_index()),
            r.italic_angle == ttf_italic_angle(self.font.bytes(), self.font.face_index()),
            r.units_per_em == ttf_units_per_em(self.font.bytes(), self.font.face_index()),
            r.glyph_widths.len() == ttf_number_of_glyphs(self.font.bytes(), self.font.face_index()),
            forall|g: int| 0 <= g < r.glyph_widths.len() ==> r.glyph_widths@[g] == match glyph_metrics_spec(
                self.font.bytes(),
                self.font.face_index(),
                g as u16,
            ) {
                Some(m) => Some(m.width),
                None => None,
            },
    {
        let (cmap, max_height, total_width) = self.glyph_rows();
        let mut entries: Vec<(u32, u32)> = Vec::new();
        let mut i: usize = 0;
        while i < cmap.len()
            invariant
                i <= cmap.len(),
                entries@ == cmap_entries(cmap@.take(i as int)),
            decreases cmap.len() - i,
        {
            let row = cmap[i];
            entries.push((row.0, row.1));
            assert(cmap_entries(cmap@.take(i + 1)) =~= cmap_entries(cmap@.take(i as int)).push((row.0, row.1)));
            i = i + 1;
        }
        assert(cmap@.take(cmap.len() as int) =~= cmap@);
        let blocks = cmap_blocks(&entries);
        let to_unicode = generate_cid_to_unicode_map(self.font_name.clone(), blocks);
        CidFontData {
            font_name: self.font_name.clone(),
            cmap,
            to_unicode,
            max_height,
            total_width,
            ascent: self.font.ascender(),
            descent: self.font.descender(),
            italic_angle: self.font.italic_angle(),
            units_per_em: self.font.units_per_em(),
            glyph_widths: self.glyph_widths(),
        }
    }
}

impl CidFontData {
    /// The font bounding box: `[0, max height, total width, max height]`.
    pub fn font_bbox(&self) -> (r: (i64, i64, i64, i64))
        ensures
            r == (0i64, self.max_height as i64, self.total_width as i64, self.max_height as i64),
    {
        (0, self.max_height as i64, self.total_width as i64, self.max_height as i64)
    }
}

/// A font as the text operations see it: a loaded font, or a built-in one.
#[derive(Debug, Clone, Copy, PartialEq)]
pub enum InternalFontTypes<'font> {
    External(&'font ParsedFont),
    Builtin(BuiltinFont),
}

impl<'font> InternalFontTypes<'font> {
    /// Encodes text for the font: glyph ids for a loaded font (see `ParsedFont::encode_text`),
    /// the UTF-8 bytes of the text for a built-in font.
    pub fn encode_text(&self, text: &str) -> (r: Vec<u8>)
        ensures
            match *self {
                InternalFontTypes::External(f) => r@ == encode_chars(f.font.bytes(), f.font.face_index(), text@),
                InternalFontTypes::Builtin(_) => r@ == text.spec_bytes(),
            },
    {
        match self {
            InternalFontTypes::External(font) => font.encode_text(text),
            InternalFontTypes::Builtin(_) => vstd::slice::slice_to_vec(text.as_bytes()),
        }
    }
}

/// The fonts of a document, under their ids, and the built-in fonts in use.
#[derive(Debug, Clone, PartialEq)]
pub struct PdfFontMap {
    map: Vec<(FontId, ParsedFont)>,
    registered_builtin_fonts: Vec<BuiltinFont>,
}

/// The font stored under `key`: the last entry with that key.
pub open spec fn entries_lookup(entries: Seq<(FontId, ParsedFont)>, key: Seq<char>) -> Option<ParsedFont>
    decreases entries.len(),
{
    if entries.len() == 0 {
        None
    } else if entries.last().0.0@ == key {
        Some(entries.last().1)
    } else {
        entries_lookup(entries.drop_last(), key)
    }
}

/// Whether a font registration put `font` under the fresh id `id`, leaving the rest as it was.
pub open spec fn registered_under(
    before: PdfFontMap,
    after: PdfFontMap,
    id: Seq<char>,
    font: ExternalFont,
) -> bool {
    &&& before.font(id) is None
    &&& after.font(id) matches Some(p) && p.font == font && p.font_name@ == id && p.has_color_glyphs
        == has_color_tables(font.bytes(), font.face_index())
    &&& forall|k: Seq<char>| k != id ==> after.font(k) == before.font(k)
    &&& forall|b: BuiltinFont| after.has_builtin(b) == before.has_builtin(b)
    &&& after.builtins() == before.builtins()
    &&& after.wf()
}

/// The shape of a fresh id: `base` followed by as few `0` as make it unused (none when
/// `base` is unused).
pub open spec fn fresh_id_for(before: PdfFontMap, base: Seq<char>, id: Seq<char>) -> bool {
    exists|k: nat| id == padded(base, k) && forall|j: nat| j < k ==> before.keys().contains(#[trigger] padded(base, j))
}

/// The base of an id for a font with this family name: the name, `-` and 8 letters or
/// digits; 32 letters or digits without a name.
pub open spec fn id_base_for(family: Option<Seq<char>>, base: Seq<char>) -> bool {
    match family {
        Some(name) => base.len() == name.len() + 9 && base.subrange(0, name.len() + 1int) == name.push('-')
            && all_alphanumeric(base.subrange(name.len() + 1int, base.len() as int)),
        None => base.len() == 32 && all_alphanumeric(base),
    }
}

/// Whether every character of `s` is an ASCII letter or digit.
pub open spec fn all_alphanumeric(s: Seq<char>) -> bool {
    forall|i: int| 0 <= i < s.len() ==> is_alphanumeric(#[trigger] s[i])
}

impl PdfFontMap {
    /// The entries, in the order of their ids.
    pub closed spec fn entries(self) -> Seq<(FontId, ParsedFont)> {
        self.map@
    }

    /// The ids in use.
    pub closed spec fn keys(self) -> Seq<Seq<char>> {
        self.map@.map_values(|e: (FontId, ParsedFont)| e.0.0@)
    }

    /// The font registered under an id.
    pub closed spec fn font(self, id: Seq<char>) -> Option<ParsedFont> {
        entries_lookup(self.map@, id)
    }

    /// The registered built-in fonts, in registration order.
    pub closed spec fn builtins(self) -> Seq<BuiltinFont> {
        self.registered_builtin_fonts@
    }

    /// Whether a built-in font is registered.
    pub closed spec fn has_builtin(self, f: BuiltinFont) -> bool {
        self.registered_builtin_fonts@.contains(f)
    }

    /// The ids come in order, each once; no built-in font is listed twice.
    pub closed spec fn wf(self) -> bool {
        &&& self.keys().no_duplicates()
        &&& keys_in_order(self.keys())
        &&& self.registered_builtin_fonts@.no_duplicates()
    }

    /// An empty font map.
    pub fn new() -> (r: Self)
        ensures
            r.wf(),
            r.entries().len() == 0,
            r.builtins().len() == 0,
            forall|id: Seq<char>| r.font(id) is None,
            forall|b: BuiltinFont| !r.has_builtin(b),
    {
        PdfFontMap { map: Vec::new(), registered_builtin_fonts: Vec::new() }
    }

    /// Registers a built-in font, and returns the reference to it.
    pub fn register_builtin_font(&mut self, font: BuiltinFont) -> (r: FontRef)
        requires
            old(self).wf(),
        ensures
            r == FontRef::Builtin(font),
            final(self).wf(),
            forall|b: BuiltinFont| final(self).has_builtin(b) == (old(self).has_builtin(b) || b == font),
            forall|id: Seq<char>| final(self).font(id) == old(self).font(id),
            final(self).entries() == old(self).entries(),
            final(self).builtins() == if old(self).has_builtin(font) {
                old(self).builtins()
            } else {
                old(self).builtins().push(font)
            },
    {
        if !self.is_built_in_registered(&font) {
            let ghost before = self.registered_builtin_fonts@;
            self.registered_builtin_fonts.push(font);
            proof {
                assert forall|b: BuiltinFont| self.registered_builtin_fonts@.contains(b) == (before.contains(b) || b == font) by {
                    if b == font {
                        assert(self.registered_builtin_fonts@[before.len() as int] == b);
                    }
                    if before.contains(b) {
                        let i = choose|i: int| 0 <= i < before.len() && before[i] == b;
                        assert(self.registered_builtin_fonts@[i] == b);
                    }
                }
                assert forall|i: int, j: int| 0 <= i < self.registered_builtin_fonts@.len() && 0 <= j
                    < self.registered_builtin_fonts@.len() && i != j implies self.registered_builtin_fonts@[i]
                    != self.registered_builtin_fonts@[j] by {
                    if i == before.len() {
                        assert(!before.contains(font));
                    } else if j == before.len() {
                        assert(!before.contains(font));
                    }
                }
            }
        }
        FontRef::Builtin(font)
    }

    /// Whether a built-in font is registered.
    pub fn is_built_in_registered(&self, font: &BuiltinFont) -> (r: bool)
        ensures
            r == self.has_builtin(*font),
    {
        let mut i: usize = 0;
        while i < self.registered_builtin_fonts.len()
            invariant
                i <= self.registered_builtin_fonts.len(),
                forall|j: int| 0 <= j < i ==> self.registered_builtin_fonts@[j] != *font,
            decreases self.registered_builtin_fonts.len() - i,
        {
            if self.registered_builtin_fonts[i] == *font {
                return true;
            }
            i = i + 1;
        }
        false
    }

    /// The ids in use, as strings.
    fn key_strings(&self) -> (r: Vec<String>)
        ensures
            r@.map_values(|k: String| k@) == self.keys(),
    {
        let mut r: Vec<String> = Vec::new();
        let mut i: usize = 0;
        while i < self.map.len()
            invariant
                i <= self.map.len(),
                r@.map_values(|k: String| k@) == self.keys().take(i as int),
            decreases self.map.len() - i,
        {
            let k = self.map[i].0.0.clone();
            let ghost prev = r@;
            r.push(k);
            proof {
                assert(r@.map_values(|k: String| k@) =~= prev.map_values(|k: String| k@).push(k@));
                assert(self.keys().take(i + 1) =~= self.keys().take(i as int).push(self.keys()[i as int]));
            }
            i = i + 1;
        }
        assert(self.keys().take(self.map.len() as int) =~= self.keys());
        r
    }

    /// Adds `font` under the id `base`, made unique by trailing `0` characters when taken.
    fn insert_fresh(&mut self, base: String, font: ExternalFont) -> (r: FontId)
        requires
            old(self).wf(),
        ensures
            fresh_id_for(*old(self), base@, r.0@),
            registered_under(*old(self), *final(self), r.0@, font),
    {
        let keys = self.key_strings();
        let id = fresh_name(&keys, base);
        let has_color_glyphs = font.has_color_glyphs();
        let font_name = id.clone();
        let key_string = id.clone();
        let ghost before = *self;
        let entry = (FontId(id), ParsedFont { font, font_name, has_color_glyphs });
        let key = FontId(key_string);
        let ghost ks = before.keys();
        let mut p: usize = 0;
        while p < self.map.len() && str_before(self.map[p].0.0.as_str(), key.0.as_str())
            invariant
                p <= self.map@.len(),
                *self == before,
                ks == before.keys(),
                forall|j: int| 0 <= j < p ==> key_before(#[trigger] ks[j], key.0@),
            decreases self.map@.len() - p,
        {
            assert(ks[p as int] == self.map@[p as int].0.0@);
            p = p + 1;
        }
        proof {
            assert(!ks.contains(key.0@));
            if p < ks.len() {
                assert(ks[p as int] == self.map@[p as int].0.0@);
                assert(ks[p as int] != key.0@);
                lemma_key_order(key.0@, ks[p as int], key.0@);
            }
            lemma_keys_in_order_insert(ks, p as int, key.0@);
        }
        self.map.insert(p, entry);
        proof {
            assert(self.keys() =~= ks.insert(p as int, key.0@));
            crate::key_order::lemma_keys_in_order_distinct(self.keys());
            assert(before.font(key.0@) is None) by {
                lemma_lookup_absent(before.map@, key.0@);
            }
            assert forall|i: int| 0 <= i < before.map@.len() implies #[trigger] before.map@[i].0.0@ != key.0@ by {
                assert(ks[i] == before.map@[i].0.0@);
            }
            lemma_lookup_insert_new(before.map@, p as int, self.map@[p as int]);
            assert forall|k: Seq<char>| k != key.0@ implies self.font(k) == before.font(k) by {
                lemma_lookup_insert_other(before.map@, p as int, self.map@[p as int], k);
            }
        }
        key
    }

    /// A new random id base: `prefix`, `-` and 8 random letters and digits, or 32 random
    /// letters and digits without a prefix.
    fn random_base(prefix: &Option<String>) -> (r: String)
        ensures
            id_base_for(
                match prefix {
                    Some(p) => Some(p@),
                    None => None,
                },
                r@,
            ),
    {
        match prefix {
            Some(name) => {
                let mut b = name.clone();
                let ghost n = b@;
                push_char(&mut b, '-');
                let suffix = random_character_string(8);
                b.append(suffix.as_str());
                proof {
                    assert(b@.subrange(0, n.len() + 1int) =~= n.push('-'));
                    assert(b@.subrange(n.len() + 1int, b@.len() as int) =~= suffix@);
                }
                b
            },
            None => random_character_string(32),
        }
    }

    /// Registers a font under a new id of the shape that `random_base` draws: a drawn id
    /// that is taken is drawn again, a few times, and should the last one still be taken,
    /// `0` characters are added until it is not.
    fn register_with_prefix(&mut self, prefix: Option<String>, font: ExternalFont) -> (r: FontId)
        requires
            old(self).wf(),
        ensures
            registered_under(*old(self), *final(self), r.0@, font),
            exists|base: Seq<char>| {
                &&& fresh_id_for(*old(self), base, r.0@)
                &&& id_base_for(
                    match prefix {
                        Some(p) => Some(p@),
                        None => None,
                    },
                    base,
                )
            },
    {
        let ghost fam = match &prefix {
            Some(p) => Some(p@),
            None => None::<Seq<char>>,
        };
        let mut base = Self::random_base(&prefix);
        let mut tries: usize = 0;
        while tries < 8 && self.has_id(&FontId(base.clone()))
            invariant
                id_base_for(fam, base@),
                fam == match prefix {
                    Some(p) => Some(p@),
                    None => None::<Seq<char>>,
                },
            decreases 8 - tries,
        {
            base = Self::random_base(&prefix);
            tries = tries + 1;
        }
        let ghost b = base@;
        let ghost before = *self;
        let id = self.insert_fresh(base, font);
        assert(fresh_id_for(before, b, id.0@));
        id
    }

    /// Registers a loaded font under a new id, and returns the reference to it.
    ///
    /// The id is the font's family name followed by `-` and 8 random letters and digits,
    /// or 32 random letters and digits for a font without a family name; a taken id is drawn
    /// again (see `register_with_prefix`).
    pub fn register_external_font(&mut self, font: ExternalFont) -> (r: Result<FontRef, TuxPdfError>)
        requires
            old(self).wf(),
        ensures
            r matches Ok(FontRef::External(id)) && registered_under(*old(self), *final(self), id.0@, font)
                && exists|base: Seq<char>| {
                    &&& fresh_id_for(*old(self), base, id.0@)
                    &&& id_base_for(family_name(font.bytes(), font.face_index()), base)
                },
    {
        let prefix = font.font_name();
        let id = self.register_with_prefix(prefix, font);
        Ok(FontRef::External(id))
    }

    /// Registers a loaded font under a new id made from `name`: `name`, `-` and 8 random
    /// letters and digits (a taken id is drawn again, see `register_with_prefix`).
    pub fn register_external_font_with_name(&mut self, name: String, font: ExternalFont) -> (r: Result<
        FontRef,
        TuxPdfError,
    >)
        requires
            old(self).wf(),
        ensures
            r matches Ok(FontRef::External(id)) && registered_under(*old(self), *final(self), id.0@, font)
                && exists|base: Seq<char>| {
                    &&& fresh_id_for(*old(self), base, id.0@)
                    &&& base.len() == name@.len() + 9
                    &&& base.subrange(0, name@.len() + 1int) == name@.push('-')
                    &&& all_alphanumeric(base.subrange(name@.len() + 1int, base.len() as int))
                },
    {
        let ghost n = name@;
        let id = self.register_with_prefix(Some(name), font);
        Ok(FontRef::External(id))
    }

    /// The loaded fonts with their ids, in the order of the ids.
    pub fn registered_fonts(&self) -> (r: &[(FontId, ParsedFont)])
        ensures
            r@ == self.entries(),
    {
        self.map.as_slice()
    }

    /// The registered built-in fonts, in registration order.
    pub fn registered_builtins(&self) -> (r: &[BuiltinFont])
        ensures
            r@ == self.builtins(),
            forall|b: BuiltinFont| r@.contains(b) == self.has_builtin(b),
            r@.no_duplicates() <== self.wf(),
    {
        self.registered_builtin_fonts.as_slice()
    }

    /// The loaded font registered under an id.
    pub fn get_external_font(&self, font_id: &FontId) -> (r: Option<&ParsedFont>)
        ensures
            match r {
                Some(p) => self.font(font_id.0@) == Some(*p),
                None => self.font(font_id.0@) is None,
            },
    {
        let mut i: usize = self.map.len();
        assert(self.map@.take(i as int) =~= self.map@);
        while i > 0
            invariant
                i <= self.map.len(),
                self.font(font_id.0@) == entries_lookup(self.map@.take(i as int), font_id.0@),
            decreases i,
        {
            assert(self.map@.take(i as int).drop_last() =~= self.map@.take(i - 1));
            if crate::text_out::str_eq(self.map[i - 1].0.0.as_str(), font_id.0.as_str()) {
                return Some(&self.map[i - 1].1);
            }
            i = i - 1;
        }
        None
    }

    /// The font resource dictionary and the objects it refers to: for each loaded font, in
    /// the order of the ids, the objects of its embedded font (see `CidFontData::dictionary`,
    /// `widths[i]` being the scaled glyph widths of the `i`-th font) and then its font
    /// dictionary; then the dictionary of each built-in font, with the WinAnsi encoding. The
    /// resource dictionary names each font's dictionary under the font's id (a built-in font
    /// under its dedicated id).
    pub fn dictionary(&self, widths: &Vec<Vec<Option<i64>>>, writer: &mut DocumentWriter) -> (r: (
        Vec<(String, PdfObject)>,
        Vec<((u32, u16), PdfObject)>,
    ))
        requires
            widths@.len() == self.entries().len(),
            forall|i: int| 0 <= i < widths@.len() ==> (#[trigger] widths@[i]).len() <= 65535,
            forall|i: int| 0 <= i < self.entries().len() ==> (#[trigger] self.entries()[i]).1.font.bytes().len() <= i64::MAX,
            old(writer).max_id + 4 * self.entries().len() + self.builtins().len() < u32::MAX,
        ensures
            ({
                let m = old(writer).max_id as int;
                let n = self.entries().len() as int;
                let b = self.builtins().len() as int;
                &&& final(writer).max_id == m + 4 * n + b
                &&& r.0@.len() == n + b
                &&& r.1@.len() == 4 * n + b
                &&& forall|j: int| 0 <= j < 4 * n + b ==> (#[trigger] r.1@[j]).0 == ((m + 1 + j) as u32, 0u16)
                &&& forall|i: int| 0 <= i < n ==> font_written(
                    #[trigger] self.entries()[i],
                    widths@[i]@,
                    m,
                    i,
                    r.0@[i],
                    r.1@,
                )
                &&& forall|j: int| 0 <= j < b ==> builtin_written(
                    #[trigger] self.builtins()[j],
                    m,
                    n,
                    j,
                    r.0@[n + j],
                    r.1@,
                )
            }),
            final(writer).layers == old(writer).layers,
            final(writer).fonts == old(writer).fonts,
            final(writer).xobjects == old(writer).xobjects,
            final(writer).pages == old(writer).pages,
            final(writer).pages_id == old(writer).pages_id,
            final(writer).uses_shared_resources == old(writer).uses_shared_resources,
            final(writer).resources_id == old(writer).resources_id,
            final(writer).info_dict == old(writer).info_dict,
            final(writer).catalog_extras == old(writer).catalog_extras,
    {
        let ghost m = writer.max_id as int;
        let ghost es = self.map@;
        let ghost n = es.len() as int;
        let mut dict: Vec<(String, PdfObject)> = Vec::new();
        let mut objects: Vec<((u32, u16), PdfObject)> = Vec::new();
        let mut i: usize = 0;
        while i < self.map.len()
            invariant
                0 <= i <= n,
                es == self.map@,
                n == self.entries().len(),
                widths@.len() == n,
                forall|k: int| 0 <= k < widths@.len() ==> (#[trigger] widths@[k]).len() <= 65535,
                forall|k: int| 0 <= k < n ==> (#[trigger] es[k]).1.font.bytes().len() <= i64::MAX,
                m + 4 * n + self.builtins().len() < u32::MAX,
                writer.max_id == m + 4 * i,
                dict@.len() == i,
                objects@.len() == 4 * i,
                forall|k: int| 0 <= k < 4 * i ==> (#[trigger] objects@[k]).0 == ((m + 1 + k) as u32, 0u16),
                forall|k: int| 0 <= k < i ==> font_written(#[trigger] es[k], widths@[k]@, m, k, dict@[k], objects@),
                writer.layers == old(writer).layers,
                writer.fonts == old(writer).fonts,
                writer.xobjects == old(writer).xobjects,
                writer.pages == old(writer).pages,
                writer.pages_id == old(writer).pages_id,
                writer.uses_shared_resources == old(writer).uses_shared_resources,
                writer.resources_id == old(writer).resources_id,
                writer.info_dict == old(writer).info_dict,
                writer.catalog_extras == old(writer).catalog_extras,
            decreases n - i,
        {
            let ghost before = objects@;
            let ghost dict_before = dict@;
            let font = &self.map[i].1;
            let data = font.cid_font_data();
            let bytes = font.font.font_bytes();
            let (font_dict, mut font_objects) = data.dictionary(bytes, &widths[i], writer);
            let ghost font_objs = font_objects@;
            let ghost fd = font_dict@;
            let id = writer.insert_object();
            objects.append(&mut font_objects);
            objects.push((id, PdfObject::Dictionary(font_dict)));
            dict.push((self.map[i].0.0.clone(), PdfObject::Reference(id.0, id.1)));
            proof {
                assert(objects@.subrange(4 * i, 4 * i + 3) =~= font_objs);
                assert forall|k: int| 0 <= k < 4 * (i + 1) implies (#[trigger] objects@[k]).0 == ((m + 1 + k) as u32, 0u16) by {
                    if k < 4 * i {
                        assert(objects@[k] == before[k]);
                    } else if k < 4 * i + 3 {
                        assert(objects@[k] == font_objs[k - 4 * i]);
                    }
                }
                assert(objects@[4 * i + 3].1 matches PdfObject::Dictionary(d) && d@ == fd);
                assert forall|k: int| 0 <= k < i + 1 implies font_written(
                    #[trigger] es[k],
                    widths@[k]@,
                    m,
                    k,
                    dict@[k],
                    objects@,
                ) by {
                    if k < i {
                        assert(font_written(es[k], widths@[k]@, m, k, dict_before[k], before));
                        assert(objects@.subrange(4 * k, 4 * k + 3) =~= before.subrange(4 * k, 4 * k + 3));
                        assert(objects@[4 * k + 3] == before[4 * k + 3]);
                        assert(dict@[k] == dict_before[k]);
                    } else {
                        assert(cid_data_of(es[k].1, data));
                    }
                }
            }
            i = i + 1;
        }
        let ghost after_fonts = objects@;
        let ghost dict_fonts = dict@;
        let mut j: usize = 0;
        while j < self.registered_builtin_fonts.len()
            invariant
                0 <= j <= self.builtins().len(),
                0 <= n,
                writer.max_id == m + 4 * n + j,
                m + 4 * n + self.builtins().len() < u32::MAX,
                dict@.len() == n + j,
                objects@.len() == 4 * n + j,
                forall|k: int| 0 <= k < 4 * n + j ==> (#[trigger] objects@[k]).0 == ((m + 1 + k) as u32, 0u16),
                objects@.subrange(0, 4 * n) == after_fonts,
                dict@.subrange(0, n) == dict_fonts,
                forall|k: int| 0 <= k < j ==> builtin_written(
                    #[trigger] self.builtins()[k],
                    m,
                    n,
                    k,
                    dict@[n + k],
                    objects@,
                ),
                writer.layers == old(writer).layers,
                writer.fonts == old(writer).fonts,
                writer.xobjects == old(writer).xobjects,
                writer.pages == old(writer).pages,
                writer.pages_id == old(writer).pages_id,
                writer.uses_shared_resources == old(writer).uses_shared_resources,
                writer.resources_id == old(writer).resources_id,
                writer.info_dict == old(writer).info_dict,
                writer.catalog_extras == old(writer).catalog_extras,
            decreases self.builtins().len() - j,
        {
            let ghost objects_before = objects@;
            let ghost dict_before = dict@;
            let builtin = self.registered_builtin_fonts[j];
            let object = FontObject {
                sub_type: BuiltinFontSubType,
                encoding: Some(FontEncoding::WinAnsiEncoding),
                base_font: builtin.name().to_owned(),
            };
            let font_dict = object.into_dictionary();
            assert(entries_view(font_dict@) =~= builtin_font_entries(builtin));
            let id = writer.insert_object();
            objects.push((id, PdfObject::Dictionary(font_dict)));
            dict.push((builtin.dedicated_font_id().to_owned(), PdfObject::Reference(id.0, id.1)));
            proof {
                assert(objects@.subrange(0, 4 * n) =~= objects_before.subrange(0, 4 * n));
                assert forall|k: int| 0 <= k < 4 * n + j + 1 implies (#[trigger] objects@[k]).0 == ((m + 1 + k) as u32, 0u16) by {
                    if k < 4 * n + j {
                        assert(objects@[k] == objects_before[k]);
                    }
                }
                assert(dict@.subrange(0, n) =~= dict_before.subrange(0, n));
                assert forall|k: int| 0 <= k < j + 1 implies builtin_written(
                    #[trigger] self.builtins()[k],
                    m,
                    n,
                    k,
                    dict@[n + k],
                    objects@,
                ) by {
                    if k < j {
                        assert(builtin_written(self.builtins()[k], m, n, k, dict_before[n + k], objects_before));
                        assert(dict@[n + k] == dict_before[n + k]);
                        assert(objects@[4 * n + k] == objects_before[4 * n + k]);
                    }
                }
            }
            j = j + 1;
        }
        proof {
            assert forall|k: int| 0 <= k < n implies font_written(
                #[trigger] es[k],
                widths@[k]@,
                m,
                k,
                dict@[k],
                objects@,
            ) by {
                assert(font_written(es[k], widths@[k]@, m, k, dict_fonts[k], after_fonts));
                assert(objects@.subrange(0, 4 * n)[4 * k + 3] == objects@[4 * k + 3]);
                assert(dict@.subrange(0, n)[k] == dict@[k]);
                assert(objects@.subrange(4 * k, 4 * k + 3) =~= after_fonts.subrange(4 * k, 4 * k + 3));
            }
        }
        (dict, objects)
    }

    /// Whether a loaded font is registered under an id.
    pub fn has_id(&self, id: &FontId) -> (r: bool)
        ensures
            r == self.font(id.0@) is Some,
    {
        self.get_external_font(id).is_some()
    }

    /// The font that a reference names: the loaded font under its id, or the built-in font
    /// when it is registered; `None` otherwise.
    pub fn internal_font_type(&self, font_ref: &FontRef) -> (r: Option<InternalFontTypes<'_>>)
        ensures
            match *font_ref {
                FontRef::External(id) => match self.font(id.0@) {
                    Some(p) => r matches Some(InternalFontTypes::External(q)) && *q == p,
                    None => r is None,
                },
                FontRef::Builtin(b) => if self.has_builtin(b) {
                    r == Some(InternalFontTypes::Builtin(b))
                } else {
                    r is None
                },
            },
    {
        match font_ref {
            FontRef::External(id) => match self.get_external_font(id) {
                Some(p) => Some(InternalFontTypes::External(p)),
                None => None,
            },
            FontRef::Builtin(builtin) => {
                if self.is_built_in_registered(builtin) {
                    Some(InternalFontTypes::Builtin(*builtin))
                } else {
                    None
                }
            },
        }
    }
}

/// Law of registration: a font registered under an id is found under it, with the name it is
/// embedded under equal to the id; registering a second font gives another id and keeps the
/// first one where it was.
pub proof fn law_registered_fonts_are_found(
    m0: PdfFontMap,
    m1: PdfFontMap,
    m2: PdfFontMap,
    id1: Seq<char>,
    f1: ExternalFont,
    id2: Seq<char>,
    f2: ExternalFont,
)
    requires
        registered_under(m0, m1, id1, f1),
        registered_under(m1, m2, id2, f2),
    ensures
        id1 != id2,
        m2.font(id1) matches Some(p) && p.font == f1 && p.font_name@ == id1,
        m2.font(id2) matches Some(p) && p.font == f2 && p.font_name@ == id2,
        forall|k: Seq<char>| k != id1 && k != id2 ==> m2.font(k) == m0.font(k),
{
}

/// Law of built-in registration: registering a built-in font is idempotent, and a registered
/// built-in font is what a reference to it resolves to.
pub proof fn law_builtin_registration_idempotent(m0: PdfFontMap, m1: PdfFontMap, m2: PdfFontMap, b: BuiltinFont)
    requires
        forall|c: BuiltinFont| m1.has_builtin(c) == (m0.has_builtin(c) || c == b),
        forall|c: BuiltinFont| m2.has_builtin(c) == (m1.has_builtin(c) || c == b),
    ensures
        forall|c: BuiltinFont| m2.has_builtin(c) == m1.has_builtin(c),
        m2.has_builtin(b),
{
}

impl Default for PdfFontMap {
    /// An empty font map (see `PdfFontMap::new`).
    fn default() -> (r: Self)
        ensures
            r.wf(),
            r.entries().len() == 0,
            r.builtins().len() == 0,
            forall|id: Seq<char>| r.font(id) is None,
            forall|b: BuiltinFont| !r.has_builtin(b),
    {
        PdfFontMap::new()
    }
}

/// A step of registering fonts, as far as the built-in fonts go: registering the built-in
/// font `Some(b)` adds it; any other registration (`None`) leaves them as they were.
pub open spec fn builtin_step(before: PdfFontMap, after: PdfFontMap, call: Option<BuiltinFont>) -> bool {
    match call {
        Some(b) => forall|c: BuiltinFont| after.has_builtin(c) == (before.has_builtin(c) || c == b),
        None => forall|c: BuiltinFont| after.has_builtin(c) == before.has_builtin(c),
    }
}

/// Law of the registration steps: what `register_external_font` and
/// `register_external_font_with_name` ensure (`registered_under`) is a step that leaves the
/// built-in fonts as they were and registers the loaded font; what `register_builtin_font`
/// ensures is a step that adds the built-in font and leaves the loaded fonts as they were. So
/// `law_builtins_registered_by_calls` and `law_fonts_found_by_calls` hold of any sequence of
/// these calls.
pub proof fn law_registration_steps(
    before: PdfFontMap,
    after_external: PdfFontMap,
    id: Seq<char>,
    font: ExternalFont,
    after_builtin: PdfFontMap,
    b: BuiltinFont,
)
    requires
        registered_under(before, after_external, id, font),
        forall|c: BuiltinFont| after_builtin.has_builtin(c) == (before.has_builtin(c) || c == b),
        forall|k: Seq<char>| after_builtin.font(k) == before.font(k),
    ensures
        builtin_step(before, after_external, None),
        external_step(before, after_external, Some((id, font))),
        builtin_step(before, after_builtin, Some(b)),
        external_step(before, after_builtin, None),
{
}

/// Law of built-in fonts over any sequence of registrations from an empty map (each call a
/// step as `law_registration_steps` gives it): a built-in font is registered exactly when one
/// of the calls was `register_builtin_font` with it.
pub proof fn law_builtins_registered_by_calls(maps: Seq<PdfFontMap>, calls: Seq<Option<BuiltinFont>>)
    requires
        maps.len() == calls.len() + 1,
        forall|b: BuiltinFont| !maps[0].has_builtin(b),
        forall|i: int| 0 <= i < calls.len() ==> builtin_step(maps[i], maps[i + 1], #[trigger] calls[i]),
    ensures
        forall|b: BuiltinFont| maps.last().has_builtin(b) <==> calls.contains(Some(b)),
    decreases calls.len(),
{
    if calls.len() > 0 {
        let n = calls.len() - 1;
        law_builtins_registered_by_calls(maps.drop_last(), calls.drop_last());
        assert(builtin_step(maps[n], maps[n + 1], calls[n]));
        assert forall|b: BuiltinFont| maps.last().has_builtin(b) <==> calls.contains(Some(b)) by {
            assert(maps.drop_last().last() == maps[n]);
            if calls.drop_last().contains(Some(b)) {
                let i = choose|i: int| 0 <= i < calls.drop_last().len() && calls.drop_last()[i] == Some(b);
                assert(calls[i] == Some(b));
            }
            if calls.contains(Some(b)) {
                let i = choose|i: int| 0 <= i < calls.len() && calls[i] == Some(b);
                if i < n {
                    assert(calls.drop_last()[i] == Some(b));
                }
            }
            if calls[n] == Some(b) {
                assert(calls.contains(Some(b)));
            }
        }
    }
}

/// A step of registering fonts, as far as the loaded fonts go: registering a loaded font
/// `Some((id, font))` puts it under the fresh id `id`; any other registration (`None`) leaves
/// the loaded fonts as they were.
pub open spec fn external_step(
    before: PdfFontMap,
    after: PdfFontMap,
    call: Option<(Seq<char>, ExternalFont)>,
) -> bool {
    match call {
        Some((id, font)) => registered_under(before, after, id, font),
        None => forall|k: Seq<char>| after.font(k) == before.font(k),
    }
}

/// Law of ids that no call returned: over any sequence of registrations, from any map, what
/// is found under an id that no registration of a loaded font returned stays what it was.
pub proof fn law_unreturned_ids_unchanged(
    maps: Seq<PdfFontMap>,
    calls: Seq<Option<(Seq<char>, ExternalFont)>>,
    k: Seq<char>,
)
    requires
        maps.len() == calls.len() + 1,
        forall|i: int| 0 <= i < calls.len() ==> external_step(maps[i], maps[i + 1], #[trigger] calls[i]),
        forall|i: int| 0 <= i < calls.len() ==> !(#[trigger] calls[i] matches Some(c) && c.0 == k),
    ensures
        maps.last().font(k) == maps[0].font(k),
    decreases calls.len(),
{
    if calls.len() > 0 {
        let n = calls.len() - 1;
        let pm = maps.drop_last();
        let pc = calls.drop_last();
        assert forall|i: int| 0 <= i < pc.len() implies external_step(pm[i], pm[i + 1], #[trigger] pc[i]) by {
            assert(external_step(maps[i], maps[i + 1], calls[i]));
        }
        assert forall|i: int| 0 <= i < pc.len() implies !(#[trigger] pc[i] matches Some(c) && c.0 == k) by {
            assert(pc[i] == calls[i]);
        }
        law_unreturned_ids_unchanged(pm, pc, k);
        assert(external_step(maps[n], maps[n + 1], calls[n]));
        assert(!(calls[n] matches Some(c) && c.0 == k));
    }
}

/// Law of loaded fonts over any sequence of registrations from an empty map: a font is found
/// under an id exactly when a call returned that id, and it is the font that call registered,
/// embedded under that id.
pub proof fn law_fonts_found_by_calls(maps: Seq<PdfFontMap>, calls: Seq<Option<(Seq<char>, ExternalFont)>>)
    requires
        maps.len() == calls.len() + 1,
        forall|k: Seq<char>| maps[0].font(k) is None,
        forall|i: int| 0 <= i < calls.len() ==> external_step(maps[i], maps[i + 1], #[trigger] calls[i]),
    ensures
        forall|k: Seq<char>|
            maps.last().font(k) is Some <==> exists|i: int| 0 <= i < calls.len() && (#[trigger] calls[i] matches Some(
                c,
            ) && c.0 == k),
        forall|i: int|
            0 <= i < calls.len() ==> (#[trigger] calls[i] matches Some(c) ==> maps.last().font(c.0) matches Some(p)
                && p.font == c.1 && p.font_name@ == c.0),
    decreases calls.len(),
{
    if calls.len() > 0 {
        let n = calls.len() - 1;
        let pm = maps.drop_last();
        let pc = calls.drop_last();
        assert forall|i: int| 0 <= i < pc.len() implies external_step(pm[i], pm[i + 1], #[trigger] pc[i]) by {
            assert(external_step(maps[i], maps[i + 1], calls[i]));
        }
        law_fonts_found_by_calls(pm, pc);
        assert(pm.last() == maps[n]);
        assert(external_step(maps[n], maps[n + 1], calls[n]));
        assert forall|k: Seq<char>|
            maps.last().font(k) is Some <==> exists|i: int| 0 <= i < calls.len() && (#[trigger] calls[i] matches Some(
                c,
            ) && c.0 == k) by {
            if exists|i: int| 0 <= i < pc.len() && (#[trigger] pc[i] matches Some(c) && c.0 == k) {
                let i = choose|i: int| 0 <= i < pc.len() && (#[trigger] pc[i] matches Some(c) && c.0 == k);
                assert(calls[i] == pc[i]);
            }
            if exists|i: int| 0 <= i < calls.len() && (#[trigger] calls[i] matches Some(c) && c.0 == k) {
                let i = choose|i: int| 0 <= i < calls.len() && (#[trigger] calls[i] matches Some(c) && c.0 == k);
                if i < n {
                    assert(pc[i] == calls[i]);
                }
            }
        }
        assert forall|i: int|
            0 <= i < calls.len() implies (#[trigger] calls[i] matches Some(c) ==> maps.last().font(c.0) matches Some(p)
                && p.font == c.1 && p.font_name@ == c.0) by {
            if i < n {
                assert(pc[i] == calls[i]);
                match calls[i] {
                    Some(c) => {
                        assert(pm.last().font(c.0) is Some);
                        match calls[n] {
                            Some(d) => {
                                assert(d.0 != c.0);
                            },
                            None => {},
                        }
                    },
                    None => {},
                }
            }
        }
    }
}

/// Inserting an entry under another id does not change the font found under an id.
proof fn lemma_lookup_insert_other(
    s: Seq<(FontId, ParsedFont)>,
    p: int,
    e: (FontId, ParsedFont),
    k: Seq<char>,
)
    requires
        0 <= p <= s.len(),
        e.0.0@ != k,
    ensures
        entries_lookup(s.insert(p, e), k) == entries_lookup(s, k),
    decreases s.len(),
{
    let t = s.insert(p, e);
    if p == s.len() {
        assert(t.drop_last() =~= s);
    } else {
        assert(t.last() == s.last());
        assert(t.drop_last() =~= s.drop_last().insert(p, e));
        lemma_lookup_insert_other(s.drop_last(), p, e, k);
    }
}

/// Inserting an entry under an id that no entry holds makes its font the one found there.
proof fn lemma_lookup_insert_new(s: Seq<(FontId, ParsedFont)>, p: int, e: (FontId, ParsedFont))
    requires
        0 <= p <= s.len(),
        forall|i: int| 0 <= i < s.len() ==> #[trigger] s[i].0.0@ != e.0.0@,
    ensures
        entries_lookup(s.insert(p, e), e.0.0@) == Some(e.1),
    decreases s.len(),
{
    let t = s.insert(p, e);
    if p == s.len() {
        assert(t.last() == e);
    } else {
        assert(t.last() == s.last());
        assert(s[s.len() - 1].0.0@ != e.0.0@);
        assert(t.drop_last() =~= s.drop_last().insert(p, e));
        lemma_lookup_insert_new(s.drop_last(), p, e);
    }
}

proof fn lemma_lookup_absent(entries: Seq<(FontId, ParsedFont)>, key: Seq<char>)
    requires
        !entries.map_values(|e: (FontId, ParsedFont)| e.0.0@).contains(key),
    ensures
        entries_lookup(entries, key) is None,
    decreases entries.len(),
{
    if entries.len() > 0 {
        let keys = entries.map_values(|e: (FontId, ParsedFont)| e.0.0@);
        assert(keys[entries.len() - 1] == entries.last().0.0@);
        assert(entries.drop_last().map_values(|e: (FontId, ParsedFont)| e.0.0@) =~= keys.drop_last());
        if entries.drop_last().map_values(|e: (FontId, ParsedFont)| e.0.0@).contains(key) {
            let i = choose|i: int| 0 <= i < keys.drop_last().len() && keys.drop_last()[i] == key;
            assert(keys[i] == key);
        }
        lemma_lookup_absent(entries.drop_last(), key);
    }
}

} // verus!
