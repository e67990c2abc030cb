use tux_pdf::cmap::{gid_to_unicode_beg, GID_TO_UNICODE_END};
use tux_pdf::font::{BuiltinFont, FontId, FontRef, GlyphMetrics};
use tux_pdf::font_face::{ExternalFont, OwnedPdfTtfFont, StaticTtfFace};
use tux_pdf::font_map::{InternalFontTypes, PdfFontMap};
use tux_pdf::ttf::FontParseError;

fn be16(v: &mut Vec<u8>, x: u16) {
    v.extend_from_slice(&x.to_be_bytes());
}

fn be32(v: &mut Vec<u8>, x: u32) {
    v.extend_from_slice(&x.to_be_bytes());
}

/// A tiny TrueType font: 4 glyphs, 1000 units per em, ascender 800, descender -200,
/// advances 500, 600, 700 (glyph 3 shares the last advance), and a Unicode `cmap`
/// subtable (format 6) mapping 'A' to glyph 1, 'B' to glyph 2 and 'C' to glyph 0.
fn tiny_font() -> Vec<u8> {
    let mut cmap = Vec::new();
    be16(&mut cmap, 0); // version
    be16(&mut cmap, 1); // number of subtables
    be16(&mut cmap, 0); // platform: Unicode
    be16(&mut cmap, 3); // encoding
    be32(&mut cmap, 12); // offset
    be16(&mut cmap, 6); // format
    be16(&mut cmap, 16); // length
    be16(&mut cmap, 0); // language
    be16(&mut cmap, 0x41); // first code
    be16(&mut cmap, 3); // entry count
    be16(&mut cmap, 1);
    be16(&mut cmap, 2);
    be16(&mut cmap, 0);

    let mut head = Vec::new();
    be32(&mut head, 0x0001_0000);
    be32(&mut head, 0x0001_0000);
    be32(&mut head, 0);
    be32(&mut head, 0x5F0F_3CF5);
    be16(&mut head, 0);
    be16(&mut head, 1000); // units per em
    head.extend_from_slice(&[0u8; 16]); // created, modified
    for _ in 0..4 {
        be16(&mut head, 0); // bbox
    }
    be16(&mut head, 0); // mac style
    be16(&mut head, 8); // lowest ppem
    be16(&mut head, 2); // direction hint
    be16(&mut head, 0); // index to loc format
    be16(&mut head, 0); // glyph data format

    let mut hhea = Vec::new();
    be32(&mut hhea, 0x0001_0000);
    be16(&mut hhea, 800); // ascender
    be16(&mut hhea, (-200i16) as u16); // descender
    be16(&mut hhea, 0); // line gap
    hhea.extend_from_slice(&[0u8; 24]);
    be16(&mut hhea, 3); // number of h metrics

    let mut hmtx = Vec::new();
    for adv in [500u16, 600, 700] {
        be16(&mut hmtx, adv);
        be16(&mut hmtx, 0);
    }
    be16(&mut hmtx, 0); // side bearing of glyph 3

    let mut maxp = Vec::new();
    be32(&mut maxp, 0x0000_5000);
    be16(&mut maxp, 4); // number of glyphs

    let tables: Vec<(&[u8; 4], Vec<u8>)> =
        vec![(b"cmap", cmap), (b"head", head), (b"hhea", hhea), (b"hmtx", hmtx), (b"maxp", maxp)];
    let mut font = Vec::new();
    be32(&mut font, 0x0001_0000);
    be16(&mut font, tables.len() as u16);
    be16(&mut font, 64);
    be16(&mut font, 2);
    be16(&mut font, 16);
    let mut offset = 12 + 16 * tables.len() as u32;
    let mut body = Vec::new();
    for (tag, data) in &tables {
        font.extend_from_slice(&tag[..]);
        be32(&mut font, 0);
        be32(&mut font, offset);
        be32(&mut font, data.len() as u32);
        let mut padded = data.clone();
        while padded.len() % 4 != 0 {
            padded.push(0);
        }
        offset += padded.len() as u32;
        body.extend_from_slice(&padded);
    }
    font.extend_from_slice(&body);
    font
}

fn tiny_external_font() -> ExternalFont {
    ExternalFont::OwnedTtfParser(OwnedPdfTtfFont::new_vec(tiny_font(), 0).unwrap())
}

#[test]
fn garbage_is_not_a_font() {
    let r = OwnedPdfTtfFont::new_vec(vec![1, 2, 3, 4, 5, 6, 7, 8, 9, 10, 11, 12], 0);
    assert_eq!(r.unwrap_err(), FontParseError::UnknownMagic);
}

#[test]
fn empty_data_has_no_magic() {
    let r = OwnedPdfTtfFont::new_vec(vec![], 0);
    assert_eq!(r.unwrap_err(), FontParseError::UnknownMagic);
}

#[test]
fn missing_head_table() {
    // A font header with no tables at all.
    let mut data = vec![0u8, 1, 0, 0];
    data.extend_from_slice(&[0u8; 8]);
    let r = OwnedPdfTtfFont::new_vec(data, 0);
    assert_eq!(r.unwrap_err(), FontParseError::NoHeadTable);
}

#[test]
fn face_index_out_of_bounds() {
    let r = OwnedPdfTtfFont::new_vec(tiny_font(), 3);
    assert_eq!(r.unwrap_err(), FontParseError::FaceIndexOutOfBounds);
}

#[test]
fn static_face_parses() {
    let data: &'static [u8] = Box::leak(tiny_font().into_boxed_slice());
    let face = StaticTtfFace::from_slice(data, 0).unwrap();
    let font = ExternalFont::StaticTtfParser(face);
    assert_eq!(font.units_per_em(), 1000);
    assert_eq!(font.font_bytes(), data);
}

#[test]
fn face_metrics() {
    let font = tiny_external_font();
    assert_eq!(font.units_per_em(), 1000);
    assert_eq!(font.ascender(), 800);
    assert_eq!(font.descender(), -200);
    assert_eq!(font.italic_angle(), 0);
    assert_eq!(font.glyph_count(), 4);
    assert_eq!(font.font_bytes(), &tiny_font()[..]);
    assert_eq!(font.font_name(), None);
    assert!(!font.has_color_glyphs());
}

#[test]
fn glyph_lookup() {
    let font = tiny_external_font();
    assert_eq!(font.glyph_id('A'), Some(1));
    assert_eq!(font.glyph_id('B'), Some(2));
    assert_eq!(font.glyph_id('C'), Some(0));
    assert_eq!(font.glyph_id('Z'), None);
}

#[test]
fn glyph_metrics_without_outlines() {
    let font = tiny_external_font();
    assert_eq!(font.glyph_metrics(0), Some(GlyphMetrics { width: 500, height: 1000 }));
    assert_eq!(font.glyph_metrics(1), Some(GlyphMetrics { width: 600, height: 1000 }));
    // Glyph 3 has no metric record of its own: it takes the last advance.
    assert_eq!(font.glyph_metrics(3), Some(GlyphMetrics { width: 700, height: 1000 }));
    assert_eq!(font.glyph_metrics(4), None);
}

#[test]
fn glyph_ids_skip_glyph_zero() {
    let font = tiny_external_font();
    assert_eq!(font.glyph_ids(), vec![(1u16, 'A' as u32), (2, 'B' as u32)]);
}

#[test]
fn encode_text_gives_two_bytes_per_glyph() {
    let mut map = PdfFontMap::new();
    let r = map.register_external_font(tiny_external_font()).unwrap();
    let FontRef::External(id) = r else { panic!("expected an external font") };
    let parsed = map.get_external_font(&id).unwrap();
    assert_eq!(parsed.get_glyph_id('B'), Some(2));
    // '?' has no glyph and is left out; 'C' maps to glyph 0.
    assert_eq!(parsed.encode_text("AB?C"), vec![0, 1, 0, 2, 0, 0]);
}

#[test]
fn cid_font_data_of_tiny_font() {
    let mut map = PdfFontMap::new();
    let FontRef::External(id) = map.register_external_font(tiny_external_font()).unwrap() else {
        panic!("expected an external font")
    };
    let parsed = map.get_external_font(&id).unwrap();
    let data = parsed.cid_font_data();
    assert_eq!(data.font_name, id.0);
    assert_eq!(data.cmap, vec![(0, 0, 1000, 1000), (1, 65, 600, 1000), (2, 66, 700, 1000)]);
    assert_eq!(data.max_height, 1000);
    assert_eq!(data.total_width, 1300);
    assert_eq!(data.font_bbox(), (0, 1000, 1300, 1000));
    assert_eq!(data.ascent, 800);
    assert_eq!(data.descent, -200);
    assert_eq!(data.units_per_em, 1000);
    assert_eq!(data.glyph_widths, vec![Some(500), Some(600), Some(700), Some(700)]);
    let expected = format!(
        "{}3 beginbfchar\r\n<0000> <0000>\n<0001> <0041>\n<0002> <0042>\nendbfchar\r\n{}",
        gid_to_unicode_beg(&id.0),
        GID_TO_UNICODE_END
    );
    assert_eq!(data.to_unicode, expected);
}

#[test]
fn registered_font_is_found_under_a_fresh_id() {
    let mut map = PdfFontMap::new();
    let a = map.register_external_font(tiny_external_font()).unwrap();
    let b = map.register_external_font(tiny_external_font()).unwrap();
    let (FontRef::External(a), FontRef::External(b)) = (a, b) else { panic!("expected external fonts") };
    assert_ne!(a, b);
    // A font without a family name gets 32 random letters and digits.
    assert_eq!(a.0.len(), 32);
    assert!(a.0.chars().all(|c| c.is_ascii_alphanumeric()));
    assert_eq!(map.get_external_font(&a).unwrap().font_name, a.0);
    assert_eq!(map.get_external_font(&b).unwrap().font_name, b.0);
    assert!(map.get_external_font(&FontId("missing".to_string())).is_none());
}

#[test]
fn register_with_name_uses_the_name_as_prefix() {
    let mut map = PdfFontMap::new();
    let r = map.register_external_font_with_name("Tiny".to_string(), tiny_external_font()).unwrap();
    let FontRef::External(id) = r else { panic!("expected an external font") };
    assert!(id.0.starts_with("Tiny-"));
    assert_eq!(id.0.len(), "Tiny-".len() + 8);
    assert!(id.0["Tiny-".len()..].chars().all(|c| c.is_ascii_alphanumeric()));
    assert!(map.get_external_font(&id).is_some());
}

#[test]
fn builtin_fonts_are_registered_once() {
    let mut map = PdfFontMap::new();
    assert!(!map.is_built_in_registered(&BuiltinFont::Helvetica));
    let r = map.register_builtin_font(BuiltinFont::Helvetica);
    assert_eq!(r, FontRef::Builtin(BuiltinFont::Helvetica));
    map.register_builtin_font(BuiltinFont::Helvetica);
    assert!(map.is_built_in_registered(&BuiltinFont::Helvetica));
    assert!(!map.is_built_in_registered(&BuiltinFont::Courier));
    assert_eq!(map.registered_builtins(), &[BuiltinFont::Helvetica][..]);
}

#[test]
fn internal_font_type_resolves_registered_fonts_only() {
    let mut map = PdfFontMap::new();
    assert!(map.internal_font_type(&FontRef::Builtin(BuiltinFont::Symbol)).is_none());
    map.register_builtin_font(BuiltinFont::Symbol);
    assert_eq!(
        map.internal_font_type(&FontRef::Builtin(BuiltinFont::Symbol)),
        Some(InternalFontTypes::Builtin(BuiltinFont::Symbol))
    );
    let r = map.register_external_font(tiny_external_font()).unwrap();
    match map.internal_font_type(&r) {
        Some(InternalFontTypes::External(f)) => assert_eq!(f.get_glyph_id('A'), Some(1)),
        other => panic!("unexpected {other:?}"),
    }
    let missing = FontRef::External(FontId("nope".to_string()));
    assert!(map.internal_font_type(&missing).is_none());
}

#[test]
fn builtin_fonts_encode_utf8() {
    let t = InternalFontTypes::Builtin(BuiltinFont::Courier);
    assert_eq!(t.encode_text("Hé"), "Hé".as_bytes().to_vec());
}

#[test]
fn builtin_names_and_ids() {
    assert_eq!(BuiltinFont::TimesRoman.name(), "Times-Roman");
    assert_eq!(BuiltinFont::TimesRoman.dedicated_font_id(), "F1");
    assert_eq!(BuiltinFont::ZapfDingbats.dedicated_font_id(), "F14");
    assert_eq!(BuiltinFont::from_name("Courier-Bold"), Some(BuiltinFont::CourierBold));
    assert_eq!(BuiltinFont::from_name("Arial"), None);
    assert_eq!(FontRef::Builtin(BuiltinFont::Helvetica).id(), "F5");
    assert_eq!(FontRef::External(FontId("abc".to_string())).id(), "abc");
}

#[test]
fn registered_fonts_come_in_the_order_of_their_ids() {
    let mut map = PdfFontMap::new();
    let mut ids = Vec::new();
    for name in ["b", "a", "c", "a"] {
        let FontRef::External(id) = map.register_external_font_with_name(name.to_string(), tiny_external_font()).unwrap()
        else {
            panic!("expected an external font")
        };
        ids.push(id.0);
    }
    ids.sort();
    let listed: Vec<String> = map.registered_fonts().iter().map(|(id, _)| id.0.clone()).collect();
    assert_eq!(listed, ids);
}

#[test]
fn font_map_has_id() {
    let mut map = PdfFontMap::new();
    let FontRef::External(id) = map.register_external_font(tiny_external_font()).unwrap() else {
        panic!("expected an external font")
    };
    assert!(map.has_id(&id));
    assert!(!map.has_id(&FontId("other".to_string())));
}

#[test]
fn font_map_dictionary_writes_every_font() {
    let mut map = PdfFontMap::new();
    let FontRef::External(id) = map.register_external_font(tiny_external_font()).unwrap() else {
        panic!("expected an external font")
    };
    map.register_builtin_font(BuiltinFont::Courier);
    let data = map.get_external_font(&id).unwrap().cid_font_data();
    let widths: Vec<Vec<Option<i64>>> = vec![data.glyph_widths.iter().map(|w| w.map(|v| v as i64)).collect()];
    let mut writer = tux_pdf::writer::DocumentWriter::new();
    writer.max_id = 10;
    let (dict, objects) = map.dictionary(&widths, &mut writer);
    assert_eq!(writer.max_id, 15);
    let keys: Vec<&str> = dict.iter().map(|(k, _)| k.as_str()).collect();
    assert_eq!(keys, vec![id.0.as_str(), BuiltinFont::Courier.dedicated_font_id()]);
    assert_eq!(format!("{:?}", dict[0].1), "Reference(14, 0)");
    assert_eq!(format!("{:?}", dict[1].1), "Reference(15, 0)");
    let ids: Vec<(u32, u16)> = objects.iter().map(|(id, _)| *id).collect();
    assert_eq!(ids, vec![(11, 0), (12, 0), (13, 0), (14, 0), (15, 0)]);
    assert!(format!("{:?}", objects[3].1).contains("Type0"));
    assert_eq!(
        format!("{:?}", objects[4].1),
        "Dictionary([(\"Type\", Name(\"Font\")), (\"Subtype\", Name(\"Type1\")), (\"BaseFont\", Name(\"Courier\")), (\"Encoding\", Name(\"WinAnsiEncoding\"))])"
    );
}
