use tux_pdf::font::{BuiltinFont, FontId, FontRef};
use tux_pdf::geometry::Size;
use tux_pdf::image::{
    pull_alpha_out_of_rgb, unpremultiply_pixels, ColorBits, ColorSpace, ColorType, ImageError, PdfImage,
    PdfXObjectImage,
};
use tux_pdf::resources::{
    EmojiGlyphCache, XObjectId,
    IccProfileId, KeyedMap, Layer, LayerId, LayerIntent, LayerSubtype, PdfLayerMap, PdfResources,
    ResourceNotRegistered, XObject, XObjectMap,
};
use tux_pdf::table::{AlternatingRowStyles, Column, Row, Table, TableError, TableValue};
use tux_pdf::text::TextBlockContent;
use tux_pdf::writer::{DocumentWriter, WriterLayer};
use tux_pdf::font_map::TuxPdfError;

#[test]
fn color_spaces_and_bits() {
    assert_eq!(ColorSpace::from_color_type(ColorType::L8), Ok(ColorSpace::Greyscale));
    assert_eq!(ColorSpace::from_color_type(ColorType::Rgba16), Ok(ColorSpace::Rgba));
    assert_eq!(
        ColorSpace::from_color_type(ColorType::Rgb32F),
        Err(ImageError::UnsupportedImageColorType(ColorType::Rgb32F))
    );
    assert_eq!(ColorSpace::Rgb.name(), "DeviceRGB");
    assert_eq!(ColorSpace::Greyscale.name(), "DeviceGray");
    assert_eq!(ColorBits::from_color_type(ColorType::La16), Ok(ColorBits::Bit16));
    assert_eq!(ColorBits::Bit8.bits(), 8);
    assert_eq!(ColorBits::Bit16.bits(), 16);
}

#[test]
fn alpha_is_pulled_out() {
    let (rgb, alpha) = pull_alpha_out_of_rgb(vec![1, 2, 3, 4, 5, 6, 7, 8]);
    assert_eq!(rgb, vec![1, 2, 3, 5, 6, 7]);
    assert_eq!(alpha, vec![4, 8]);
}

#[test]
fn rgba_image_gets_a_mask() {
    let (img, mask) = PdfXObjectImage::process_image(ColorType::Rgba8, vec![10, 20, 30, 40], (1, 1)).unwrap();
    assert_eq!(img.color_space, ColorSpace::Rgb);
    assert_eq!(img.image_data, vec![10, 20, 30]);
    assert!(img.interpolate);
    let mask = mask.unwrap();
    assert_eq!(mask.color_space, ColorSpace::Greyscale);
    assert_eq!(mask.image_data, vec![40]);
    assert!(!mask.interpolate);
    assert_eq!(mask.size, Size::new(1, 1));
}

#[test]
fn grey_image_is_kept() {
    let (img, mask) = PdfXObjectImage::process_image(ColorType::L16, vec![1, 2, 3, 4], (2, 1)).unwrap();
    assert!(mask.is_none());
    assert_eq!(img.bits_per_component, ColorBits::Bit16);
    assert_eq!(img.color_space, ColorSpace::Greyscale);
    assert_eq!(img.size, Size::new(2, 1));
    let err = PdfXObjectImage::process_image(ColorType::Rgba32F, vec![], (0, 0)).unwrap_err();
    assert_eq!(err, ImageError::UnsupportedImageColorType(ColorType::Rgba32F));
}

#[test]
fn premultiplied_pixels_are_unpremultiplied() {
    // One opaque pixel, one half transparent, one fully transparent.
    let pixels = [10, 20, 30, 255, 50, 60, 70, 128, 1, 2, 3, 0];
    let (rgb, alpha, has_alpha) = unpremultiply_pixels(&pixels);
    assert_eq!(alpha, vec![255, 128, 0]);
    assert!(has_alpha);
    assert_eq!(rgb, vec![10, 20, 30, (50 * 255 / 128) as u8, (60 * 255 / 128) as u8, (70 * 255 / 128) as u8, 255, 255, 255]);
    let image = PdfImage::from_premultiplied_pixels(3, 1, &pixels);
    assert_eq!(image.image.image_data, rgb);
    assert_eq!(image.mask.unwrap().image_data, alpha);
    let opaque = PdfImage::from_premultiplied_pixels(1, 1, &[1, 2, 3, 255]);
    assert!(opaque.mask.is_none());
}

#[test]
fn keyed_map_reads_back_writes() {
    let mut m: KeyedMap<i32> = KeyedMap::new();
    assert!(m.is_empty());
    m.insert("a".to_string(), 1);
    m.insert("b".to_string(), 2);
    m.insert("a".to_string(), 3);
    assert_eq!(m.get("a"), Some(&3));
    assert_eq!(m.get("b"), Some(&2));
    assert_eq!(m.get("c"), None);
    assert!(m.contains_key("b"));
    assert_eq!(m.entries_in_order().len(), 2);
}

#[test]
fn layers_are_created_and_found() {
    let mut layers: PdfLayerMap<u8> = PdfLayerMap::new();
    let id = layers.create_layer("Background");
    assert_eq!(id.0.len(), 32);
    let layer = layers.get_layer(&id).unwrap();
    assert_eq!(layer.name, "Background");
    assert_eq!(layer.intent, LayerIntent::Design);
    assert_eq!(layer.usage, LayerSubtype::Artwork);
    assert!(layers.get_layer(&LayerId("other".to_string())).is_none());
    let other = layers.create_layer("Text");
    assert_ne!(id, other);
    assert_eq!(layers.get_layer(&id).unwrap().name, "Background");
}

#[test]
fn layer_setters() {
    let mut l: Layer<u8> = Layer::new("L");
    l.add_to_layer(7);
    l.set_creator("me".to_string());
    l.set_intent(LayerIntent::View);
    l.set_usage(LayerSubtype::Artwork);
    assert_eq!(l.operations, vec![7]);
    assert_eq!(l.creator.as_deref(), Some("me"));
    assert_eq!(l.intent, LayerIntent::View);
    assert_eq!(LayerSubtype::Artwork.name(), "Artwork");
}

#[test]
fn xobjects_are_added_and_found() {
    let mut map = XObjectMap::new();
    assert!(map.is_empty());
    let (img, _) = PdfXObjectImage::process_image(ColorType::L8, vec![1], (1, 1)).unwrap();
    let id = map.add_xobject(XObject::Image(Box::new(img.clone())));
    assert!(!map.is_empty());
    assert_eq!(map.get_xobject(&id), Some(&XObject::Image(Box::new(img))));
}

#[test]
fn resources_resolve_fonts() {
    let mut res: PdfResources<u8> = PdfResources::new();
    assert!(res.get_font_type(&FontRef::Builtin(BuiltinFont::Courier)).is_none());
    res.fonts.register_builtin_font(BuiltinFont::Courier);
    assert!(res.get_font_type(&FontRef::Builtin(BuiltinFont::Courier)).is_some());
    assert_eq!(
        ResourceNotRegistered::from_font_ref(FontRef::External(FontId("x".to_string()))),
        ResourceNotRegistered::FontId(FontId("x".to_string()))
    );
    assert_eq!(
        ResourceNotRegistered::from_font_ref(FontRef::Builtin(BuiltinFont::Symbol)),
        ResourceNotRegistered::BuiltinFontNotRegistered(BuiltinFont::Symbol)
    );
    assert_eq!(IccProfileId::new_random().0.len(), 32);
}

fn text(s: &str) -> TextBlockContent<f32> {
    TextBlockContent::from_text(s)
}

#[test]
fn table_validation_reports_first_bad_row() {
    let mut t: Table<f32, f32, ()> = Table::new();
    t.add_column(Column::new(text("Name")));
    t.add_column(Column::new(text("Age")).with_max_width(100.0).with_min_width(10.0));
    t.add_row(Row::new(vec![TableValue::Text(text("a")), TableValue::BlankSpace]));
    assert_eq!(t.validate(), Ok(()));
    t.add_row(Row::new(vec![TableValue::BlankSpace]));
    t.add_row(Row::new(vec![]));
    assert_eq!(t.number_of_columns(), 2);
    assert_eq!(t.number_of_rows(), 3);
    assert_eq!(
        t.validate(),
        Err(TableError::ColumnValueMismatch { columns: 2, values: 1, in_row: Some(1) })
    );
    let styles = t.columns[1].styles.clone().unwrap();
    assert_eq!(styles.max_width, Some(100.0));
    assert_eq!(styles.min_width, Some(10.0));
    assert_eq!(t.rows[0].number_of_columns(), 2);
    assert_eq!(Row::<f32, u8>::new(vec![]).with_styles(3).styles, Some(3));
}

#[test]
fn alternating_row_styles() {
    let s = AlternatingRowStyles { even_row_styles: "even", odd_row_styles: "odd" };
    assert_eq!(*s.row_for_index(0), "even");
    assert_eq!(*s.row_for_index(3), "odd");
    assert_eq!(*s.row_for_index(10), "even");
}

#[test]
fn writer_hands_out_increasing_ids() {
    let mut w = DocumentWriter::new();
    assert_eq!(w.new_object_id(), (1, 0));
    assert_eq!(w.insert_object(), (2, 0));
    assert_eq!(w.font_id(), (3, 0));
    assert_eq!(w.font_id(), (3, 0));
    assert_eq!(w.xobjects_id(), (4, 0));
    assert_eq!(w.pages_id(), (5, 0));
    assert_eq!(w.pages_id(), (5, 0));
    assert_eq!(w.shared_resources_id(), (6, 0));
    assert_eq!(w.new_page(), (7, 0));
    assert_eq!(w.pages, vec![(7, 0)]);
}

#[test]
fn writer_without_pages_cannot_finish() {
    let w = DocumentWriter::new();
    assert_eq!(w.finish().unwrap_err(), TuxPdfError::NoPagesCreated);
}

#[test]
fn writer_page_resources() {
    let mut w = DocumentWriter::new();
    let lid = LayerId("L1".to_string());
    w.layers.insert(lid.0.clone(), WriterLayer { ocg_id: (1, 0), stream_id: (2, 0) });
    w.max_id = 2;
    let shared = w.page_resources(&vec![]).unwrap();
    assert!(shared.own.is_none());
    assert!(w.uses_shared_resources);
    let own = w.page_resources(&vec![lid.clone()]).unwrap();
    assert_eq!(own.layer_streams, vec![(2, 0)]);
    let (res_id, font_id, xobjects_id, props) = own.own.unwrap();
    assert_eq!((font_id, xobjects_id, res_id), ((3, 0), (4, 0), (5, 0)));
    assert_eq!(props, vec![(lid, (1, 0))]);
    let missing = LayerId("nope".to_string());
    assert_eq!(w.page_resources(&vec![missing.clone()]).unwrap_err(), ResourceNotRegistered::LayerId(missing));
}

#[test]
fn writer_finish_with_shared_resources() {
    let mut w = DocumentWriter::new();
    w.layers.insert("L".to_string(), WriterLayer { ocg_id: (1, 0), stream_id: (2, 0) });
    w.max_id = 2;
    let pages_id = w.pages_id();
    let page = w.new_page();
    w.uses_shared_resources();
    let done = w.finish().unwrap();
    assert_eq!(done.pages_id, pages_id);
    assert_eq!(done.kids, vec![page]);
    assert_eq!(done.shared_resources, Some(((5, 0), true)));
    assert_eq!(done.catalog_id, (6, 0));
    assert_eq!(done.ocgs, vec![(1, 0)]);
    assert_eq!(done.max_id, 6);
}

#[test]
fn emoji_glyph_cache_stores_images_by_font_and_glyph() {
    let mut cache = EmojiGlyphCache::default();
    assert!(cache.is_empty());
    assert!(cache.get("Noto", 5).is_none());
    cache.insert("Noto".to_string(), 5, XObjectId("img5".to_string()));
    cache.insert("Noto".to_string(), 6, XObjectId("img6".to_string()));
    cache.insert("Other".to_string(), 5, XObjectId("other5".to_string()));
    assert!(!cache.is_empty());
    assert_eq!(cache.get("Noto", 5), Some(&XObjectId("img5".to_string())));
    assert_eq!(cache.get("Noto", 6), Some(&XObjectId("img6".to_string())));
    assert_eq!(cache.get("Other", 5), Some(&XObjectId("other5".to_string())));
    assert!(cache.get("Other", 6).is_none());
    // A second image for the same glyph replaces the first.
    cache.insert("Noto".to_string(), 5, XObjectId("again".to_string()));
    assert_eq!(cache.get("Noto", 5), Some(&XObjectId("again".to_string())));
    let copy = cache.clone();
    assert_eq!(copy.get("Noto", 5), Some(&XObjectId("again".to_string())));
    assert_eq!(copy.get("Other", 5), Some(&XObjectId("other5".to_string())));
    assert_eq!(copy, cache);
}

#[test]
fn layer_map_changes_and_copies_layers() {
    let mut layers: PdfLayerMap<u32> = PdfLayerMap::new();
    let id = layers.create_layer("Ink");
    assert_eq!(layers.clone_layer_content(&id), Some(vec![]));
    match layers.get_layer_mut(&id) {
        Some(layer) => {
            layer.add_to_layer(4);
            layer.add_to_layer(5);
        }
        None => panic!("the layer was created"),
    }
    assert_eq!(layers.clone_layer_content(&id), Some(vec![4, 5]));
    assert_eq!(layers.get_layer(&id).unwrap().operations, vec![4, 5]);
    let other = LayerId("missing".to_string());
    assert!(layers.get_layer_mut(&other).is_none());
    assert_eq!(layers.clone_layer_content(&other), None);
    let ocg = layers.get_layer(&id).unwrap().create_ocg_dictionary();
    assert_eq!(format!("{:?}", ocg), "[(\"Type\", Name(\"OCG\")), (\"Name\", Text(\"Ink\"))]");
}

#[test]
fn keyed_map_get_mut_changes_one_value() {
    let mut m: KeyedMap<u32> = KeyedMap::new();
    m.insert("a".to_string(), 1);
    m.insert("b".to_string(), 2);
    *m.get_mut("a").unwrap() = 10;
    assert!(m.get_mut("c").is_none());
    assert_eq!(m.get("a"), Some(&10));
    assert_eq!(m.get("b"), Some(&2));
}

#[test]
fn xobject_as_ref_borrows_the_image() {
    let (img, _) = PdfXObjectImage::process_image(ColorType::L8, vec![3], (1, 1)).unwrap();
    let x = XObject::Image(Box::new(img.clone()));
    match x.as_ref() {
        tux_pdf::resources::XObjectRef::Image(i) => assert_eq!(*i, img),
    }
}

#[test]
fn keyed_map_keeps_keys_in_order() {
    let mut m: KeyedMap<u32> = KeyedMap::new();
    for (k, v) in [("b", 2), ("a", 1), ("é", 5), ("Z", 0), ("ab", 3), ("a", 10)] {
        m.insert(k.to_string(), v);
    }
    let keys: Vec<&str> = m.entries_in_order().iter().map(|(k, _)| k.as_str()).collect();
    assert_eq!(keys, vec!["Z", "a", "ab", "b", "é"]);
    assert_eq!(m.get("a"), Some(&10));
}

#[test]
fn maps_report_their_ids() {
    let mut layers: PdfLayerMap<u8> = PdfLayerMap::new();
    let id = layers.create_layer("L");
    assert!(id.0.chars().all(|c| c.is_ascii_alphanumeric()));
    assert!(layers.has_id(&id));
    assert!(!layers.has_id(&LayerId("none".to_string())));
    let mut xobjects = XObjectMap::new();
    let (img, _) = PdfXObjectImage::process_image(ColorType::L8, vec![1], (1, 1)).unwrap();
    let xid = xobjects.add_xobject(XObject::Image(Box::new(img)));
    assert!(xid.0.chars().all(|c| c.is_ascii_alphanumeric()) && xid.0.len() == 32);
    assert!(xobjects.has_id(&xid));
    assert!(!xobjects.has_id(&XObjectId("none".to_string())));
}

#[test]
fn writer_never_hands_out_an_id_twice() {
    let mut w = DocumentWriter::new();
    let mut seen = Vec::new();
    seen.push(w.pages_id());
    seen.push(w.new_page());
    seen.push(w.font_id());
    seen.push(w.insert_object());
    seen.push(w.new_page());
    seen.push(w.xobjects_id());
    seen.push(w.shared_resources_id());
    seen.push(w.new_object_id());
    let mut unique = seen.clone();
    unique.sort();
    unique.dedup();
    assert_eq!(unique.len(), seen.len());
    assert!(seen.iter().all(|id| id.0 <= w.max_id));
}
