use tux_pdf::image::{ColorType, PdfXObjectImage};
use tux_pdf::pdf_dicts::{ocg_dictionary, page_object, page_own_resources};
use tux_pdf::pdf_object::PdfObject;
use tux_pdf::resources::{LayerId, XObject, XObjectMap};
use tux_pdf::writer::{DocumentWriter, WriterLayer};

fn keys(d: &[(String, PdfObject)]) -> Vec<&str> {
    d.iter().map(|(k, _)| k.as_str()).collect()
}

fn show(o: &PdfObject) -> String {
    format!("{:?}", o)
}

#[test]
fn image_into_stream_moves_the_data() {
    let (mut img, _) = PdfXObjectImage::process_image(ColorType::Rgb8, vec![1, 2, 3, 4, 5, 6], (2, 1)).unwrap();
    img.smask = Some((9, 0));
    let stream = img.into_stream();
    assert!(img.image_data.is_empty());
    match stream {
        PdfObject::Stream(dict, data, compress) => {
            assert_eq!(
                keys(&dict),
                vec!["Type", "Subtype", "Width", "Height", "ColorSpace", "BitsPerComponent", "Interpolate", "BBox", "SMask"]
            );
            assert_eq!(show(&dict[0].1), "Name(\"XObject\")");
            assert_eq!(show(&dict[1].1), "Name(\"Image\")");
            assert_eq!(show(&dict[2].1), "Integer(2)");
            assert_eq!(show(&dict[3].1), "Integer(1)");
            assert_eq!(show(&dict[4].1), "Name(\"DeviceRGB\")");
            assert_eq!(show(&dict[5].1), "Integer(8)");
            assert_eq!(show(&dict[6].1), "Boolean(true)");
            assert_eq!(
                show(&dict[7].1),
                "Array([Integer(1), Integer(0), Integer(0), Integer(1), Integer(0), Integer(0)])"
            );
            assert_eq!(show(&dict[8].1), "Reference(9, 0)");
            assert_eq!(data, vec![1, 2, 3, 4, 5, 6]);
            assert!(compress);
        }
        other => panic!("not a stream: {:?}", other),
    }
}

#[test]
fn xobject_dictionary_hands_out_ids_in_order() {
    let mut map = XObjectMap::new();
    let (a, _) = PdfXObjectImage::process_image(ColorType::L8, vec![7], (1, 1)).unwrap();
    let (b, _) = PdfXObjectImage::process_image(ColorType::L8, vec![8, 9], (2, 1)).unwrap();
    let ida = map.add_xobject(XObject::Image(Box::new(a)));
    let idb = map.add_xobject(XObject::Image(Box::new(b)));
    let mut w = DocumentWriter::new();
    w.max_id = 10;
    let (dict, objects) = map.dictionary(&mut w);
    assert_eq!(w.max_id, 12);
    // The XObjects come in the order of their ids.
    let (first, second) = if ida.0 < idb.0 { (&ida, &idb) } else { (&idb, &ida) };
    assert_eq!(keys(&dict), vec![first.0.as_str(), second.0.as_str()]);
    assert_eq!(show(&dict[0].1), "Reference(11, 0)");
    assert_eq!(show(&dict[1].1), "Reference(12, 0)");
    assert_eq!(objects[0].0, (11, 0));
    assert_eq!(objects[1].0, (12, 0));
    let data_of_b = if first == &idb { &objects[0].1 } else { &objects[1].1 };
    match data_of_b {
        PdfObject::Stream(_, data, _) => assert_eq!(data, &vec![8, 9]),
        other => panic!("not a stream: {:?}", other),
    }
}

#[test]
fn optional_content_group_dictionary() {
    let d = ocg_dictionary("Background");
    assert_eq!(keys(&d), vec!["Type", "Name"]);
    assert_eq!(show(&d[0].1), "Name(\"OCG\")");
    assert_eq!(show(&d[1].1), "Text(\"Background\")");
}

#[test]
fn page_resources_name_the_layers() {
    let groups = vec![(LayerId("A".to_string()), (3, 0)), (LayerId("B".to_string()), (5, 0))];
    let d = page_own_resources((1, 0), (2, 0), &groups);
    assert_eq!(keys(&d), vec!["Font", "XObject", "Properties"]);
    assert_eq!(show(&d[0].1), "Reference(1, 0)");
    assert_eq!(show(&d[1].1), "Reference(2, 0)");
    assert_eq!(
        show(&d[2].1),
        "Dictionary([(\"A\", Reference(3, 0)), (\"B\", Reference(5, 0))])"
    );
}

#[test]
fn page_object_with_and_without_resources() {
    let d = page_object((4, 0), None, &vec![0, 0, 595, 842], &vec![(7, 0), (8, 0)]);
    assert_eq!(keys(&d), vec!["Type", "Parent", "MediaBox", "Contents"]);
    assert_eq!(show(&d[1].1), "Reference(4, 0)");
    assert_eq!(show(&d[2].1), "Array([Integer(0), Integer(0), Integer(595), Integer(842)])");
    assert_eq!(show(&d[3].1), "Array([Reference(7, 0), Reference(8, 0)])");
    let d = page_object((4, 0), Some((6, 0)), &vec![0, 0, 1, 1], &vec![]);
    assert_eq!(keys(&d), vec!["Type", "Parent", "Resources", "MediaBox", "Contents"]);
    assert_eq!(show(&d[2].1), "Reference(6, 0)");
    assert_eq!(show(&d[4].1), "Array([])");
}

#[test]
fn finished_document_dictionaries() {
    let mut w = DocumentWriter::new();
    w.layers.insert("L".to_string(), WriterLayer { ocg_id: (1, 0), stream_id: (2, 0) });
    w.max_id = 2;
    let pages_id = w.pages_id();
    let font_id = w.font_id();
    let page = w.new_page();
    w.uses_shared_resources();
    let done = w.finish().unwrap();

    let tree = done.page_tree_dictionary();
    assert_eq!(keys(&tree), vec!["Type", "Kids", "Count", "Resources"]);
    assert_eq!(show(&tree[1].1), format!("Array([Reference({}, {})])", page.0, page.1));
    assert_eq!(show(&tree[2].1), "Integer(1)");
    let (res_id, _) = done.shared_resources.unwrap();
    assert_eq!(show(&tree[3].1), format!("Reference({}, {})", res_id.0, res_id.1));

    let res = done.shared_resources_dictionary();
    assert_eq!(keys(&res), vec!["Font"]);
    assert_eq!(show(&res[0].1), format!("Reference({}, {})", font_id.0, font_id.1));

    let catalog = done.catalog_dictionary();
    assert_eq!(keys(&catalog), vec!["Type", "Pages", "PageLayout", "PageMode", "OCProperties"]);
    assert_eq!(show(&catalog[1].1), format!("Reference({}, {})", pages_id.0, pages_id.1));
    assert_eq!(
        show(&catalog[4].1),
        "Dictionary([(\"OCGs\", Array([Reference(1, 0)])), (\"D\", Dictionary([(\"Order\", Array([Reference(1, 0)]))]))])"
    );
}

#[test]
fn catalog_without_layers_has_no_optional_content() {
    let mut w = DocumentWriter::new();
    w.pages_id();
    w.new_page();
    let done = w.finish().unwrap();
    assert!(done.shared_resources.is_none());
    assert_eq!(keys(&done.page_tree_dictionary()), vec!["Type", "Kids", "Count"]);
    assert_eq!(keys(&done.catalog_dictionary()), vec!["Type", "Pages", "PageLayout", "PageMode"]);
    assert!(done.shared_resources_dictionary().is_empty());
}
