use tux_pdf::document::PdfDocument;
use tux_pdf::font::{BuiltinFont, FontRef};
use tux_pdf::image::{ColorType, PdfXObjectImage};
use tux_pdf::pdf_types::{PageLayout, PageMode};
use tux_pdf::resources::XObject;

#[test]
fn new_document_is_empty_with_a_title() {
    let doc: PdfDocument<u32, u8> = PdfDocument::new("Report".to_string());
    assert_eq!(doc.metadata.info.document_title, "Report");
    assert_eq!(doc.metadata.info.producer.as_deref(), Some("tux-pdf"));
    assert!(doc.metadata.xmp.is_none());
    assert_eq!(doc.metadata.catalog_info.page_layout, PageLayout::SinglePage);
    assert_eq!(doc.metadata.catalog_info.page_mode, PageMode::UseNone);
    assert!(doc.pages().is_empty());
    assert!(doc.resources.xobjects.is_empty());
}

#[test]
fn document_collects_pages_layers_images_and_fonts() {
    let mut doc: PdfDocument<u32, u8> = PdfDocument::new("D".to_string());
    doc.add_page(1);
    doc.add_page(2);
    assert_eq!(doc.pages(), &[1, 2]);
    let layer = doc.create_layer("Ink");
    assert_eq!(doc.resources.layers.get_layer(&layer).unwrap().name, "Ink");
    let (img, _) = PdfXObjectImage::process_image(ColorType::L8, vec![1], (1, 1)).unwrap();
    let id = doc.add_xobject(XObject::Image(Box::new(img)));
    assert!(doc.resources.xobjects.has_id(&id));
    assert_eq!(doc.font_map().register_builtin_font(BuiltinFont::Courier), FontRef::Builtin(BuiltinFont::Courier));
    assert!(doc.resources.fonts.is_built_in_registered(&BuiltinFont::Courier));
    let (meta, resources, pages) = doc.into_parts();
    assert_eq!(meta.info.document_title, "D");
    assert!(resources.layers.has_id(&layer));
    assert_eq!(pages, vec![1, 2]);
}
