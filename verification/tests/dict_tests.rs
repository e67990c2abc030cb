use tux_pdf::font::BuiltinFont;
use tux_pdf::font_map::CidFontData;
use tux_pdf::pdf_dicts::{
    CatalogObject, CidFontType2, FontDescriptor, FontObject, Page, PagesObject, Resources, Type0Font, Type1Font,
};
use tux_pdf::pdf_object::PdfObject;
use tux_pdf::pdf_types::{BuiltinFontSubType, CIDSystemInfo, CatalogInfo, FontEncoding, FontFlags, PageLayout, PageMode, PdfDocumentInfo};
use tux_pdf::writer::DocumentWriter;

fn keys(d: &[(String, PdfObject)]) -> Vec<&str> {
    d.iter().map(|(k, _)| k.as_str()).collect()
}

fn descriptor() -> FontDescriptor {
    FontDescriptor {
        font_name: "Tiny".to_string(),
        font_family: None,
        font_stretch: None,
        font_weight: None,
        flags: FontFlags::italic(),
        font_b_box: Some(vec![0, 1000, 1300, 1000]),
        italic_angle: 0,
        ascent: 800,
        descent: -200,
        leading: None,
        cap_height: Some(800),
        x_height: None,
        stem_v: Some(80),
        stem_h: None,
        avg_width: None,
        max_width: None,
        missing_width: None,
        font_file1: None,
        font_file2: Some((7, 0)),
        font_file3: None,
        char_set: None,
    }
}

#[test]
fn font_descriptor_lists_set_entries_in_order() {
    let d = descriptor().into_dictionary();
    assert_eq!(
        keys(&d),
        vec!["Type", "FontName", "Flags", "ItalicAngle", "Ascent", "Descent", "FontBBox", "CapHeight", "StemV", "FontFile2"]
    );
    assert_eq!(format!("{:?}", d[2].1), "Integer(32)");
    assert_eq!(format!("{:?}", d[9].1), "Reference(7, 0)");
}

#[test]
fn font_descriptor_with_everything() {
    let mut full = descriptor();
    full.font_family = Some("Fam".to_string());
    full.font_stretch = Some("Normal".to_string());
    full.font_weight = Some(400);
    full.leading = Some(1);
    full.x_height = Some(2);
    full.stem_h = Some(3);
    full.avg_width = Some(4);
    full.max_width = Some(5);
    full.missing_width = Some(6);
    full.font_file1 = Some((1, 0));
    full.font_file3 = Some((3, 0));
    full.char_set = Some("abc".to_string());
    assert_eq!(
        keys(&full.into_dictionary()),
        vec![
            "Type", "FontName", "Flags", "ItalicAngle", "Ascent", "Descent", "FontFamily", "FontStretch", "FontWeight",
            "FontBBox", "Leading", "CapHeight", "XHeight", "StemV", "StemH", "AvgWidth", "MaxWidth", "MissingWidth",
            "FontFile", "FontFile2", "FontFile3", "CharSet"
        ]
    );
}

#[test]
fn builtin_font_object() {
    let f = FontObject {
        sub_type: BuiltinFontSubType,
        encoding: Some(FontEncoding::WinAnsiEncoding),
        base_font: BuiltinFont::Courier.name().to_string(),
    };
    let d = f.into_dictionary();
    assert_eq!(keys(&d), vec!["Type", "Subtype", "BaseFont", "Encoding"]);
    assert_eq!(format!("{:?}", d[1].1), "Name(\"Type1\")");
    assert_eq!(format!("{:?}", d[3].1), "Name(\"WinAnsiEncoding\")");
}

#[test]
fn type1_and_type0_fonts() {
    let t1 = FontObject {
        sub_type: Type1Font { first_char: 32, last_char: 126, widths: vec![PdfObject::Integer(500)], font_descriptor: (4, 0) },
        encoding: None,
        base_font: "X".to_string(),
    };
    assert_eq!(keys(&t1.into_dictionary()), vec!["Type", "Subtype", "BaseFont", "FirstChar", "LastChar", "Widths", "FontDescriptor"]);
    let t0 = FontObject {
        sub_type: Type0Font { descendant_fonts: vec![PdfObject::Dictionary(vec![])], to_unicode: None },
        encoding: Some(FontEncoding::IdentityH),
        base_font: "X".to_string(),
    };
    assert_eq!(keys(&t0.into_dictionary()), vec!["Type", "Subtype", "BaseFont", "Encoding", "DescendantFonts"]);
}

#[test]
fn cid_font_type2() {
    let info = CIDSystemInfo { registry: "Adobe".to_string(), ordering: "Identity".to_string(), supplement: 0 };
    assert_eq!(keys(&info.into_dictionary()), vec!["Registry", "Ordering", "Supplement"]);
    let cid = FontObject {
        sub_type: CidFontType2 {
            cid_system_info: info,
            font_descriptor: (9, 0),
            dw: Some(1000),
            w: Some(vec![]),
            dw2: None,
            w2: None,
            cid_to_gid_map: Some("Identity".to_string()),
        },
        encoding: None,
        base_font: "X".to_string(),
    };
    assert_eq!(
        keys(&cid.into_dictionary()),
        vec!["Type", "Subtype", "BaseFont", "CIDSystemInfo", "FontDescriptor", "DW", "W", "CIDToGIDMap"]
    );
}

#[test]
fn page_tree_catalog_and_page() {
    let pages = PagesObject { kids: vec![(3, 0), (4, 0)] }.into_dictionary();
    assert_eq!(keys(&pages), vec!["Type", "Kids", "Count"]);
    assert_eq!(format!("{:?}", pages[2].1), "Integer(2)");
    let catalog = CatalogInfo { page_layout: PageLayout::OneColumn, language: Some("en".to_string()), page_mode: PageMode::UseNone }
        .create_catalog_object((2, 0));
    assert_eq!(catalog.pages, (2, 0));
    let d = catalog.into_dictionary();
    assert_eq!(keys(&d), vec!["Type", "Pages", "PageLayout", "PageMode", "Lang"]);
    assert_eq!(format!("{:?}", d[2].1), "Name(\"OneColumn\")");
    let page = Page {
        contents_id: (5, 0),
        parent_id: (2, 0),
        resources_id: (6, 0),
        media_box: vec![PdfObject::Integer(0), PdfObject::Integer(0), PdfObject::Integer(595), PdfObject::Integer(842)],
        crop_box: None,
        art_box: None,
        bleed_box: None,
        trim_box: Some(vec![]),
        rotation: Some(PdfObject::Integer(90)),
    };
    assert_eq!(keys(&page.into_dictionary()), vec!["Type", "Parent", "Resources", "MediaBox", "Contents", "TrimBox", "Rotate"]);
    assert!(Resources { font: None }.into_dictionary().is_empty());
    assert_eq!(keys(&Resources { font: Some(vec![]) }.into_dictionary()), vec!["Font"]);
}

#[test]
fn document_info_dictionary() {
    let mut info = PdfDocumentInfo::with_title("T".to_string());
    info.author = Some("A".to_string());
    info.trapped = Some(false);
    let d = info.into_dictionary(Some("D:20240101000000+00'00'".to_string()));
    assert_eq!(keys(&d), vec!["Title", "Author", "Producer", "CreationDate", "Trapped"]);
    assert_eq!(format!("{:?}", d[0].1), "Text(\"T\")");
}

#[test]
fn embedded_font_dictionary() {
    let data = CidFontData {
        font_name: "Tiny".to_string(),
        cmap: vec![(0, 0, 1000, 1000), (1, 65, 600, 1000)],
        to_unicode: "cmap".to_string(),
        max_height: 1000,
        total_width: 600,
        ascent: 800,
        descent: -200,
        italic_angle: 0,
        units_per_em: 1000,
        glyph_widths: vec![Some(500), Some(600)],
    };
    let mut writer = DocumentWriter::new();
    writer.max_id = 10;
    let (font, objects) = data.dictionary(&[1, 2, 3], &vec![Some(500), Some(600), None, Some(700)], &mut writer);
    assert_eq!(writer.max_id, 13);
    assert_eq!(objects.iter().map(|(id, _)| *id).collect::<Vec<_>>(), vec![(11, 0), (12, 0), (13, 0)]);
    assert_eq!(keys(&font), vec!["Type", "Subtype", "BaseFont", "Encoding", "DescendantFonts", "ToUnicode"]);
    assert_eq!(format!("{:?}", font[5].1), "Reference(11, 0)");
    let descendants = format!("{:?}", font[4].1);
    assert!(descendants.contains("\"W\", Array([Integer(0), Array([Integer(500), Integer(600)]), Integer(3), Array([Integer(700)])])"));
    assert!(descendants.contains("Reference(13, 0)"));
    assert_eq!(format!("{:?}", objects[0].1), "Stream([], [99, 109, 97, 112], true)");
    assert_eq!(format!("{:?}", objects[1].1), "Stream([(\"Length1\", Integer(3))], [1, 2, 3], false)");
}
