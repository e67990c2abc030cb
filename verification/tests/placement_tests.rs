use tux_pdf::emoji::{emoji_ops, EmojiGlyph, TextCursor};
use tux_pdf::font::{BuiltinFont, FontId};
use tux_pdf::font_map::PdfFontMap;
use tux_pdf::ops::Operation;
use tux_pdf::pages::paginate_rows;
use tux_pdf::pdf_object::PdfObject;
use tux_pdf::resources::{EmojiGlyphCache, XObjectId, XObjectMap};
use tux_pdf::table::{Column, Row, Table, TableError, TableValue};
use tux_pdf::text::TextBlockContent;
use tux_pdf::write::operations_use_registered_names;

#[test]
fn rows_go_on_the_page_where_they_fit() {
    let pages = paginate_rows(&vec![30.0f32, 30.0, 30.0, 50.0], 10.0, 75.0, 100.0);
    assert_eq!(pages, vec![vec![0, 1], vec![2, 3]]);
    let pages = paginate_rows(&vec![30i64, 30, 30, 50], 10, 75, 100);
    assert_eq!(pages, vec![vec![0, 1], vec![2, 3]]);
}

#[test]
fn a_row_too_tall_for_any_page_gets_a_page_of_its_own() {
    let pages = paginate_rows(&vec![200.0f32, 20.0, 300.0], 10.0, 100.0, 100.0);
    assert_eq!(pages, vec![vec![], vec![0], vec![1], vec![2]]);
    let none: Vec<Vec<usize>> = paginate_rows(&Vec::<f32>::new(), 10.0, 100.0, 100.0);
    assert_eq!(none, vec![Vec::<usize>::new()]);
}

#[test]
fn table_pages_are_planned_after_validation() {
    let mut t: Table<f32, f32, ()> = Table::new();
    t.add_column(Column::new(TextBlockContent::from_text("Name")));
    t.add_row(Row::new(vec![TableValue::BlankSpace]));
    t.add_row(Row::new(vec![TableValue::BlankSpace]));
    assert_eq!(t.plan_pages(&vec![40.0f32, 40.0], 10.0, 60.0, 60.0), Ok(vec![vec![0], vec![1]]));
    t.add_row(Row::new(vec![]));
    assert_eq!(
        t.plan_pages(&vec![40.0f32, 40.0, 1.0], 10.0, 60.0, 60.0),
        Err(TableError::ColumnValueMismatch { columns: 1, values: 0, in_row: Some(2) })
    );
}

#[test]
fn cached_emoji_are_drawn_as_images_and_others_as_text() {
    let mut cache = EmojiGlyphCache::new();
    cache.insert("Emoji".to_string(), 5, XObjectId("IMG".to_string()));
    let glyphs = vec![
        EmojiGlyph { glyph_id: 5, width: 10i64, height: 12 },
        EmojiGlyph { glyph_id: 0x0102, width: 7, height: 15 },
    ];
    let cursor = TextCursor { x: 100i64, y: 50, origin_x: 20, origin_y: 50 };
    let (ops, after, size) = emoji_ops(&glyphs, &cache, "Emoji", "F1", 10, 12, -3, cursor);
    let ops: Vec<String> = ops.iter().map(|op| format!("{} {:?}", op.operator, op.operands)).collect();
    assert_eq!(
        ops,
        vec![
            "ET []",
            "q []",
            "cm [Number(10), Object(Integer(0)), Object(Integer(0)), Number(12), Number(100), Number(47)]",
            "Do [Object(Name(\"IMG\"))]",
            "Q []",
            "BT []",
            "Tm [Object(Integer(1)), Object(Integer(0)), Object(Integer(0)), Object(Integer(1)), Number(20), Number(50)]",
            "Td [Number(90), Object(Integer(0))]",
            "Tf [Object(Name(\"F1\")), Number(10)]",
            "Tj [Object(HexString([1, 2]))]",
        ]
    );
    assert_eq!((after.x, after.y, after.origin_x), (117, 50, 20));
    assert_eq!((size.width, size.height), (17, 15));
}

fn op(operator: &str, operand: PdfObject) -> Operation {
    Operation { operator: operator.to_string(), operands: vec![operand] }
}

#[test]
fn content_must_name_registered_fonts_and_images() {
    let mut fonts = PdfFontMap::new();
    fonts.register_builtin_font(BuiltinFont::Courier);
    let xobjects = XObjectMap::new();
    let courier = BuiltinFont::Courier.dedicated_font_id().to_string();
    let ok = vec![op("Tf", PdfObject::Name(courier)), op("Tj", PdfObject::HexString(vec![0, 1]))];
    assert!(operations_use_registered_names(&ok, &fonts, &xobjects));
    let bad_font = vec![op("Tf", PdfObject::Name(FontId("missing".to_string()).0))];
    assert!(!operations_use_registered_names(&bad_font, &fonts, &xobjects));
    let bad_image = vec![op("Do", PdfObject::Name("IMG".to_string()))];
    assert!(!operations_use_registered_names(&bad_image, &fonts, &xobjects));
}
