use tux_pdf::cmap::unicode_to_utf16be_hex;
use tux_pdf::font::BuiltinFont;
use tux_pdf::font_map::PdfFontMap;
use tux_pdf::geometry::{points_to_object_array, OutlineRect, PdfPosition, Size};

#[test]
fn inverting_twice_gives_the_position_back() {
    let p = PdfPosition { x: 15i64, y: 40 };
    let page = Size { width: 595i64, height: 842 };
    let once = p.invert_from_page_size(page);
    assert_eq!((once.x, once.y), (15, 802));
    let twice = once.invert_from_page_size(page);
    assert_eq!((twice.x, twice.y), (15, 40));
}

#[test]
fn from_wh_starts_at_the_default_point() {
    let r: OutlineRect<i64> = OutlineRect::from_wh(30, 20);
    assert_eq!((r.position.x, r.position.y), (0, 0));
    assert_eq!((r.size.width, r.size.height), (30, 20));
    let top = Size { width: 30i64, height: 20 }.top_left_point();
    assert_eq!((top.x, top.y), (0, 20));
}

#[test]
fn builtin_fonts_are_appended_once_in_order() {
    let mut map = PdfFontMap::default();
    assert!(map.registered_fonts().is_empty());
    assert!(map.registered_builtins().is_empty());
    map.register_builtin_font(BuiltinFont::Courier);
    map.register_builtin_font(BuiltinFont::Helvetica);
    map.register_builtin_font(BuiltinFont::Courier);
    assert_eq!(map.registered_builtins(), &[BuiltinFont::Courier, BuiltinFont::Helvetica]);
    assert!(map.registered_fonts().is_empty());
}

#[test]
fn utf16be_hex_reads_back() {
    let bmp = unicode_to_utf16be_hex(0x20AC);
    assert_eq!(bmp, "20AC");
    assert_eq!(u32::from_str_radix(&bmp, 16), Ok(0x20AC));
    let astral = unicode_to_utf16be_hex(0x1F600);
    assert_eq!(astral, "D83DDE00");
    let hi = u32::from_str_radix(&astral[0..4], 16).unwrap();
    let lo = u32::from_str_radix(&astral[4..8], 16).unwrap();
    assert_eq!(0x10000 + ((hi - 0xD800) << 10) + (lo - 0xDC00), 0x1F600);
}

#[test]
fn points_become_a_flat_array() {
    let points = vec![PdfPosition { x: 1i64, y: 2 }, PdfPosition { x: 3, y: 4 }];
    let arr = points_to_object_array(&points);
    assert_eq!(format!("{:?}", arr), "[Integer(1), Integer(2), Integer(3), Integer(4)]");
    assert!(points_to_object_array(&[]).is_empty());
}

#[test]
fn a_fresh_document_cannot_be_written_without_pages() {
    let doc: tux_pdf::document::PdfDocument<tux_pdf::write::PdfPage, tux_pdf::ops::Operation> =
        tux_pdf::document::PdfDocument::new("T".to_string());
    assert!(doc.resources.fonts.registered_fonts().is_empty());
    assert!(doc.resources.fonts.registered_builtins().is_empty());
    assert!(matches!(
        tux_pdf::write::write_document(doc, None, &vec![]),
        Err(tux_pdf::write::WriteError::NoPages)
    ));
}
