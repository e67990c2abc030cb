use tux_pdf::font::FontId;
use tux_pdf::geometry::{PaintMode, PaintedRect, PdfPosition, Size, StraightLine};
use tux_pdf::layout::{
    GraphicItems, GraphicsGroup,
    paint_mode_for, BlankSpace, GraphicStyles, HasPosition, PartialGraphicStyles, RectangleStyleType,
};
use tux_pdf::resources::{IdType, LayerId, XObjectId};

fn alnum(s: &str) -> bool {
    s.chars().all(|c| c.is_ascii_alphanumeric())
}

#[test]
fn paint_mode_from_fill_and_outline() {
    assert_eq!(paint_mode_for(true, true), Some(PaintMode::FillStroke));
    assert_eq!(paint_mode_for(true, false), Some(PaintMode::Fill));
    assert_eq!(paint_mode_for(false, true), Some(PaintMode::Stroke));
    assert_eq!(paint_mode_for(false, false), None);
}

#[test]
fn graphic_styles_paint_mode() {
    let none: GraphicStyles<u32, u8> = GraphicStyles::default();
    assert!(!none.has_fill_color());
    assert!(!none.has_outline_color());
    assert_eq!(none.paint_mode(), None);

    let fill: GraphicStyles<u32, u8> = GraphicStyles { line_width: None, fill_color: Some(3), outline_color: None };
    assert!(fill.has_fill_color());
    assert_eq!(fill.paint_mode(), Some(PaintMode::Fill));

    let both: GraphicStyles<u32, u8> =
        GraphicStyles { line_width: Some(2), fill_color: Some(1), outline_color: Some(2) };
    assert_eq!(both.paint_mode(), Some(PaintMode::FillStroke));

    let outline: GraphicStyles<u32, u8> =
        GraphicStyles { line_width: Some(2), fill_color: None, outline_color: Some(2) };
    assert_eq!(outline.paint_mode(), Some(PaintMode::Stroke));
}

#[test]
fn partial_styles_override_full_ones() {
    let full: GraphicStyles<u32, u8> =
        GraphicStyles { line_width: Some(1), fill_color: Some(10), outline_color: None };
    let empty: PartialGraphicStyles<u32, u8> = PartialGraphicStyles::default();
    assert!(empty.is_empty());
    assert_eq!(empty.merge_with_full(full.clone()), full);

    let over: PartialGraphicStyles<u32, u8> =
        PartialGraphicStyles { line_width: Some(5), fill_color: None, outline_color: Some(7) };
    assert!(!over.is_empty());
    let merged = over.clone().merge_with_full(full.clone());
    assert_eq!(merged, GraphicStyles { line_width: Some(5), fill_color: Some(10), outline_color: Some(7) });
    // Applying the same overrides again changes nothing.
    assert_eq!(over.merge_with_full(merged.clone()), merged);
}

#[test]
fn blank_space_size_and_position() {
    let mut space: BlankSpace<u32> = BlankSpace::default();
    assert_eq!(space.calculate_size(), Size { width: 0, height: 0 });
    assert_eq!(space.position(), PdfPosition { x: 0, y: 0 });

    space.min_size = Some(Size { width: 4, height: 5 });
    assert_eq!(space.calculate_size(), Size { width: 4, height: 5 });
    space.set_size = Some(Size { width: 9, height: 8 });
    assert_eq!(space.calculate_size(), Size { width: 9, height: 8 });

    space.set_position(PdfPosition { x: 3, y: 7 });
    assert_eq!(space.position(), PdfPosition { x: 3, y: 7 });
    let moved = space.with_position(PdfPosition { x: 1, y: 2 });
    assert_eq!(moved.position, Some(PdfPosition { x: 1, y: 2 }));
    assert_eq!(moved.set_size, Some(Size { width: 9, height: 8 }));
}

#[test]
fn random_ids_are_alphanumeric() {
    let f = FontId::new_random();
    assert_eq!(f.as_str().len(), 32);
    assert!(alnum(f.as_str()));
    assert_eq!(f.resource_category(), "Font");
    let l = LayerId::new_random();
    assert_eq!(l.clone().into_string(), l.as_str().to_string());
    assert!(alnum(l.as_str()) && l.as_str().len() == 32);
    assert_eq!(l.resource_category(), "Layer");
    let x = XObjectId::new_random();
    assert_eq!(x.resource_category(), "XObject");
    assert!(alnum(x.as_str()) && x.as_str().len() == 32);
}

#[test]
fn font_id_random_suffix() {
    let id = FontId("Roboto".to_string()).add_random_suffix();
    assert_eq!(id.0.len(), "Roboto".len() + 9);
    assert!(id.0.starts_with("Roboto-"));
    assert!(alnum(&id.0["Roboto-".len()..]));
}

#[test]
fn id_into_bytes() {
    assert_eq!(FontId("Fé".to_string()).into_bytes(), "Fé".as_bytes().to_vec());
}

#[test]
fn graphics_group_collects_items() {
    let styles: GraphicStyles<u32, u8> = GraphicStyles { line_width: Some(1), fill_color: None, outline_color: Some(3) };
    let mut group: GraphicsGroup<i64, u32, u8> = GraphicsGroup::with_styles(styles.clone());
    group.add_item(GraphicItems::Rectangle(PaintedRect::new(0, 0, 10, 10)));
    group.add_from_iter(vec![
        GraphicItems::StraightLine(StraightLine::from_points(vec![PdfPosition::new(0, 0), PdfPosition::new(5, 5)], false)),
        GraphicItems::Group(GraphicsGroup::new()),
    ]);
    assert_eq!(group.styles, Some(styles));
    assert_eq!(group.items.len(), 3);
    assert!(matches!(group.items[0], GraphicItems::Rectangle(_)));
    assert!(matches!(group.items[2], GraphicItems::Group(ref g) if g.items.is_empty() && g.styles.is_none()));
}
