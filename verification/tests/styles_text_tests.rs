use tux_pdf::conformance::{CustomPdfConformance, PdfConformance, PdfConformanceFeatures};
use tux_pdf::font::{BuiltinFont, EmojiRenderMode, FontRef};
use tux_pdf::styles::{add_two_optional, Margin, Padding};
use tux_pdf::text::{is_white_space, split_lines, TextBlockContent, TextItem, TextLine, TextModifier};

#[test]
fn add_two_optional_adds_what_is_there() {
    assert_eq!(add_two_optional(Some(1i64), Some(2)), Some(3));
    assert_eq!(add_two_optional(Some(1i64), None), Some(1));
    assert_eq!(add_two_optional(None, Some(2i64)), Some(2));
    assert_eq!(add_two_optional::<i64>(None, None), None);
    assert_eq!(add_two_optional(Some(2.5f32), Some(1.5)), Some(4.0));
}

#[test]
fn margins() {
    let m = Margin::new(1i64, 2, 3, 4);
    assert_eq!(m.horizontal_value(), Some(3));
    assert_eq!(m.vertical_value(), Some(7));
    assert_eq!(m.into_sides(), (Some(1), Some(2), Some(3), Some(4)));
    let h = Margin::horizontal(5i64);
    assert_eq!(h.horizontal_value(), Some(10));
    assert_eq!(h.vertical_value(), None);
    assert_eq!(h.vertical_or_default(9), 9);
    assert_eq!(h.horizontal_or_default(9), 10);
    let lr = Margin::left_and_right(1i64, 6);
    assert_eq!(lr.horizontal_value(), Some(7));
    assert_eq!(Margin::vertical(2i64).vertical_value(), Some(4));
    assert_eq!(Margin::all(3i64).into_sides(), (Some(3), Some(3), Some(3), Some(3)));
}

#[test]
fn paddings() {
    let p = Padding::all(5i64);
    assert_eq!(p.horizontal_value(), Some(10));
    assert_eq!(p.vertical_value(), Some(10));
    assert_eq!(Padding::new(1i64, 2, 3, 4).horizontal_value(), Some(3));
    assert_eq!(Padding::horizontal(2i64).vertical_value(), None);
    assert_eq!(Padding::vertical(2i64).vertical_value(), Some(4));
    assert_eq!(Padding::left_and_right(2i64, 3).horizontal_value(), Some(5));
}

#[test]
fn lines_split_like_str_lines() {
    for text in ["", "a", "a\nb", "a\r\nb\n", "\n\nx", "a\rb", "end\r", "x\r\r\n"] {
        let expected: Vec<String> = text.lines().map(|l| l.to_string()).collect();
        assert_eq!(split_lines(text), expected, "text {text:?}");
    }
}

#[test]
fn text_items_and_modifiers() {
    let item: TextItem<f32> = TextItem::from_str("Hello")
        .with_font_size(12.0)
        .with_font(FontRef::Builtin(BuiltinFont::Helvetica))
        .with_text_rise(1.0)
        .with_character_spacing(0.5)
        .with_word_spacing(2.0);
    assert_eq!(item.text, "Hello");
    assert_eq!(
        item.modifiers,
        vec![
            TextModifier::FontSize(12.0),
            TextModifier::Font(FontRef::Builtin(BuiltinFont::Helvetica)),
            TextModifier::TextRise(1.0),
            TextModifier::CharacterSpacing(0.5),
            TextModifier::WordSpacing(2.0),
        ]
    );
    assert_eq!(TextItem::<f32>::new("x".to_string()).modifiers, vec![]);
}

#[test]
fn text_blocks_from_text() {
    let block: TextBlockContent<f32> = TextBlockContent::from_text("one\ntwo");
    assert_eq!(block.len(), 2);
    assert!(!block.is_empty());
    assert_eq!(block.0[0], TextLine::from_text("one".to_string()));
    assert_eq!(block.0[1].items[0].text, "two");
    let empty: TextBlockContent<f32> = TextBlockContent::from_text("");
    assert!(empty.is_empty());
    let added = empty.add_line(TextLine::from_text("z".to_string()).add_item(TextItem::from_str("!")));
    assert_eq!(added.len(), 1);
    assert_eq!(added.0[0].items.len(), 2);
}

#[test]
fn emoji_modes() {
    assert_eq!(EmojiRenderMode::rasterize(), EmojiRenderMode::RasterizeToImage { pixels_per_em: 128 });
    assert_eq!(EmojiRenderMode::rasterize_with_quality(64), EmojiRenderMode::RasterizeToImage { pixels_per_em: 64 });
    assert_eq!(EmojiRenderMode::default(), EmojiRenderMode::EmbedFont);
}

#[test]
fn conformance_identifiers_and_features() {
    let a1b = PdfConformance::A1B_2005_PDF_1_4;
    assert_eq!(a1b.get_identifier_string(), "PDF/A-1b:2005");
    assert!(!a1b.has_feature(PdfConformanceFeatures::AllowsPDFLayers));
    let d = PdfConformance::default();
    assert_eq!(d.get_identifier_string(), "");
    assert!(d.has_feature(PdfConformanceFeatures::ContentJpeg));
    assert!(d.has_feature(PdfConformanceFeatures::AllowsPDFLayers));
    let custom = PdfConformance::Custom(CustomPdfConformance { identifier: Some("X".to_string()), features: vec![] });
    assert_eq!(custom.get_identifier_string(), "X");
    assert!(!custom.has_feature(PdfConformanceFeatures::ContentJpeg));
}

#[test]
fn split_at_overflow_breaks_at_the_last_space() {
    let mut item: TextItem<u32> = TextItem::from_str("hello big world");
    item.modifiers.push(TextModifier::FontSize(9));
    // "hello big w|orld": the first character that does not fit is at 11.
    let rest = item.split_at_overflow(Some(11));
    assert_eq!(item.text, "hello big");
    assert_eq!(rest.text, "world");
    assert_eq!(rest.modifiers, item.modifiers);
}

#[test]
fn split_at_overflow_without_space_cuts_at_the_overflow() {
    let mut item: TextItem<u32> = TextItem::from_str("abcdef");
    let rest = item.split_at_overflow(Some(4));
    assert_eq!(item.text, "abcd");
    assert_eq!(rest.text, "ef");
    // A space at the overflow itself does not count.
    let mut item: TextItem<u32> = TextItem::from_str("abc def");
    let rest = item.split_at_overflow(Some(3));
    assert_eq!(item.text, "abc");
    assert_eq!(rest.text, " def");
}

#[test]
fn split_at_overflow_when_all_fits_leaves_nothing() {
    let mut item: TextItem<u32> = TextItem::from_str("a b");
    let rest = item.split_at_overflow(None);
    assert_eq!(item.text, "a b");
    assert_eq!(rest.text, "");
}

#[test]
fn split_at_overflow_counts_characters() {
    let mut item: TextItem<u32> = TextItem::from_str("été\u{3000}ß x");
    let rest = item.split_at_overflow(Some(6));
    assert_eq!(item.text, "été\u{3000}ß");
    assert_eq!(rest.text, "x");
}

#[test]
fn unicode_white_space() {
    for c in [' ', '\t', '\n', '\u{a0}', '\u{2003}', '\u{3000}', '\u{85}'] {
        assert!(is_white_space(c), "{:?}", c);
        assert!(c.is_whitespace());
    }
    for c in ['a', '-', '\u{200b}', '\u{feff}'] {
        assert!(!is_white_space(c), "{:?}", c);
    }
}

#[test]
fn line_split_at_an_overflowing_item() {
    let mut a: TextItem<u32> = TextItem::from_str("one");
    a.modifiers.push(TextModifier::FontSize(1));
    let b: TextItem<u32> = TextItem::from_str("two three");
    let c: TextItem<u32> = TextItem::from_str("four");
    let line = TextLine { items: vec![a.clone(), b, c.clone()], modifiers: vec![TextModifier::WordSpacing(2)] };
    let (kept, next) = line.split_at_overflow(1, Some(6));
    assert_eq!(kept.items.len(), 2);
    assert_eq!(kept.items[0], a);
    assert_eq!(kept.items[1].text, "two");
    assert_eq!(kept.modifiers, vec![TextModifier::WordSpacing(2)]);
    assert_eq!(next.items.len(), 2);
    assert_eq!(next.items[0].text, "three");
    assert_eq!(next.items[1], c);
    assert_eq!(next.modifiers, vec![TextModifier::WordSpacing(2)]);
}
