use tux_pdf::font::{BuiltinFont, FontId, FontRef};
use tux_pdf::text_style::{FontRenderSizeParams, HasColorParams, PartialTextStyle, TextStyle};

fn style() -> TextStyle<u32, u8> {
    TextStyle {
        font_size: 12,
        font_ref: FontRef::Builtin(BuiltinFont::Helvetica),
        fill_color: None,
        outline_color: Some(9),
        character_spacing: Some(1),
        word_spacing: None,
        text_rise: Some(2),
        line_spacing: Some(3),
        max_width: None,
        min_width: Some(4),
    }
}

#[test]
fn text_style_colours() {
    let s = style().with_fill_color(5);
    assert_eq!(s.fill_color, Some(5));
    assert_eq!(s.outline_color, Some(9));
    let mut s = s.with_outline_color(6);
    assert_eq!(s.outline_color, Some(6));
    assert_eq!(s.take_fill_color(), Some(5));
    assert_eq!(s.fill_color, None);
    assert_eq!(s.take_fill_color(), None);
    assert_eq!(s.take_outline_color(), Some(6));
    assert_eq!(s.outline_color, None);
    s.set_fill_color(1);
    s.set_outline_color(2);
    assert_eq!((s.fill_color, s.outline_color), (Some(1), Some(2)));
}

#[test]
fn text_style_render_size_params() {
    let s = style();
    assert_eq!(s.font_size(), 12);
    assert_eq!(s.character_spacing(), Some(1));
    assert_eq!(s.word_spacing(), None);
    assert_eq!(s.text_rise(), Some(2));
}

#[test]
fn partial_text_style_merge() {
    let empty: PartialTextStyle<u32, u8> = PartialTextStyle::default();
    assert!(empty.is_empty());
    assert_eq!(empty.merge_with_full(style()), style());

    let over = PartialTextStyle {
        font_size: Some(20),
        font_ref: Some(FontRef::External(FontId("F1".to_string()))),
        fill_color: Some(7),
        outline_color: None,
        word_spacing: Some(3),
        max_width: Some(100),
    };
    assert!(!over.is_empty());
    let merged = over.merge_with_full(style());
    assert_eq!(merged.font_size, 20);
    assert_eq!(merged.font_ref, FontRef::External(FontId("F1".to_string())));
    assert_eq!(merged.fill_color, Some(7));
    assert_eq!(merged.outline_color, Some(9));
    assert_eq!(merged.word_spacing, Some(3));
    assert_eq!(merged.max_width, Some(100));
    assert_eq!(merged.character_spacing, Some(1));
    assert_eq!(merged.text_rise, Some(2));
    assert_eq!(merged.line_spacing, Some(3));
    assert_eq!(merged.min_width, Some(4));
}
