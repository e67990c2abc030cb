use tux_pdf::svg_glyph::glyph_svg_document;

const SIZE: &str = r#"viewBox="0 -800 1000 1000" width="1000" height="1000""#;

#[test]
fn svg_root_gets_view_box_and_other_glyphs_are_hidden() {
    let svg = r#"<svg xmlns="http://www.w3.org/2000/svg"><g id="glyph1"><path/></g><g id="glyph2"><path/></g></svg>"#;
    let doc = glyph_svg_document(svg, 2, 800, -200, 1000).unwrap();
    assert_eq!(
        doc,
        format!(
            r#"<svg {SIZE} xmlns="http://www.w3.org/2000/svg"><g id="glyph1" display="none"><path/></g><g id="glyph2"><path/></g></svg>"#
        )
    );
}

#[test]
fn fragment_is_wrapped() {
    let doc = glyph_svg_document(r#"<path d="M0 0"/>"#, 7, 800, -200, 1000).unwrap();
    assert_eq!(doc, format!(r#"<svg xmlns="http://www.w3.org/2000/svg" {SIZE}><path d="M0 0"/></svg>"#));
}

#[test]
fn leading_white_space_is_kept() {
    let doc = glyph_svg_document("  \n<svg></svg>", 0, 800, -200, 1000).unwrap();
    assert_eq!(doc, format!("  \n<svg {SIZE}></svg>"));
}

#[test]
fn a_longer_id_is_another_glyph() {
    let svg = r#"<svg><g id="glyph12"/><g id="glyph1"/></svg>"#;
    let doc = glyph_svg_document(svg, 1, 800, -200, 1000).unwrap();
    assert_eq!(doc, format!(r#"<svg {SIZE}><g id="glyph12" display="none"/><g id="glyph1"/></svg>"#));
}

#[test]
fn negative_height_and_positive_offset() {
    let doc = glyph_svg_document("<svg/>", 0, -5, 10, 2048).unwrap();
    assert_eq!(doc, r#"<svg viewBox="0 5 2048 -15" width="2048" height="-15"/>"#);
}

#[test]
fn unterminated_group_id_has_no_document() {
    assert_eq!(glyph_svg_document(r#"<g id="glyph3"#, 5, 800, -200, 1000), None);
}
