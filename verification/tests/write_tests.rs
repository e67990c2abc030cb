use tux_pdf::document::PdfDocument;
use tux_pdf::ops::Operation;
use tux_pdf::pdf_dicts::PageBoxes;
use tux_pdf::pdf_object::PdfObject;
use tux_pdf::resources::{LayerId, ResourceNotRegistered};
use tux_pdf::write::{write_document, PdfPage, WriteError};
use tux_pdf::writer::WriterLayer;

fn no_boxes() -> PageBoxes {
    PageBoxes { crop_box: None, art_box: None, bleed_box: None, trim_box: None, rotate: None }
}

fn op(operator: &str) -> Operation {
    Operation { operator: operator.to_string(), operands: vec![] }
}

fn stream_bytes(o: &PdfObject) -> Vec<u8> {
    match o {
        PdfObject::Stream(dict, bytes, true) if dict.is_empty() => bytes.clone(),
        other => panic!("expected a content stream, got {other:?}"),
    }
}

fn entry<'a>(o: &'a PdfObject, key: &str) -> &'a PdfObject {
    match o {
        PdfObject::Dictionary(entries) => &entries.iter().find(|(k, _)| k == key).unwrap().1,
        other => panic!("expected a dictionary, got {other:?}"),
    }
}

#[test]
fn write_document_numbers_objects_in_order() {
    let mut doc: PdfDocument<PdfPage, Operation> = PdfDocument::new("Doc".to_string());
    let layer = doc.create_layer("Ink");
    doc.add_page(PdfPage { media_box: vec![0, 0, 200, 100], boxes: no_boxes(), contents: vec![op("q"), op("Q")], layers: vec![layer.clone()] });
    doc.add_page(PdfPage { media_box: vec![0, 0, 200, 100], boxes: no_boxes(), contents: vec![], layers: vec![] });
    let written = write_document(doc, Some("D:20240101000000+00'00'".to_string()), &vec![]).unwrap();

    assert_eq!(written.info, (1, 0));
    assert_eq!(format!("{:?}", entry(&written.objects[0], "Title")), "Text(\"Doc\")");
    assert_eq!(format!("{:?}", entry(&written.objects[0], "CreationDate")), "Text(\"D:20240101000000+00'00'\")");

    assert_eq!(written.layers, vec![WriterLayer { ocg_id: (2, 0), stream_id: (3, 0) }]);
    assert_eq!(format!("{:?}", entry(&written.objects[1], "Name")), "Text(\"Ink\")");
    let layer_stream = stream_bytes(&written.objects[2]);
    assert_eq!(layer_stream, format!("/OC /{} BDC\nEMC", layer.0).into_bytes());

    // First page: its content, the font and XObject dictionaries' numbers, its resources,
    // the page tree's number, then the page.
    let first = &written.pages[0];
    assert_eq!(first.content_id, Some((4, 0)));
    assert_eq!(stream_bytes(&written.objects[3]), b"q\nQ".to_vec());
    assert_eq!(written.fonts_id, (5, 0));
    assert_eq!(written.xobjects_id, (6, 0));
    assert_eq!(first.resources_id, Some((7, 0)));
    assert_eq!(written.pages_id, (8, 0));
    assert_eq!(first.page_id, (9, 0));
    assert_eq!(format!("{:?}", entry(&written.objects[8], "Contents")), "Array([Reference(4, 0), Reference(3, 0)])");
    assert_eq!(format!("{:?}", entry(&written.objects[8], "Resources")), "Reference(7, 0)");
    assert_eq!(format!("{:?}", entry(&written.objects[8], "MediaBox")), "Array([Integer(0), Integer(0), Integer(200), Integer(100)])");

    // Second page: no content and no layers, so the shared resources.
    let second = &written.pages[1];
    assert_eq!(second.content_id, None);
    assert_eq!(second.resources_id, None);
    assert_eq!(second.page_id, (10, 0));
    assert_eq!(format!("{:?}", entry(&written.objects[9], "Contents")), "Array([])");

    // Empty font and XObject dictionaries, the shared resources and the catalog.
    assert_eq!(format!("{:?}", written.objects[4]), "Dictionary([])");
    assert_eq!(format!("{:?}", written.objects[5]), "Dictionary([])");
    assert_eq!(written.shared_resources, Some((11, 0)));
    assert_eq!(format!("{:?}", entry(&written.objects[7], "Kids")), "Array([Reference(9, 0), Reference(10, 0)])");
    assert_eq!(format!("{:?}", entry(&written.objects[7], "Resources")), "Reference(11, 0)");
    assert_eq!(written.root, (12, 0));
    assert_eq!(written.objects.len(), 12);
    assert_eq!(format!("{:?}", entry(&written.objects[11], "Pages")), "Reference(8, 0)");
    assert_eq!(format!("{:?}", entry(&written.objects[11], "Type")), "Name(\"Catalog\")");
}

#[test]
fn write_document_reports_the_first_missing_layer() {
    let mut doc: PdfDocument<PdfPage, Operation> = PdfDocument::new("Doc".to_string());
    let layer = doc.create_layer("Ink");
    doc.add_page(PdfPage {
        media_box: vec![0, 0, 10, 10],
        boxes: no_boxes(),
        contents: vec![],
        layers: vec![layer, LayerId("missing".to_string()), LayerId("other".to_string())],
    });
    match write_document(doc, None, &vec![]) {
        Err(WriteError::Resource(ResourceNotRegistered::LayerId(id))) => assert_eq!(id.0, "missing"),
        other => panic!("expected a missing layer, got {other:?}"),
    }
}

#[test]
fn write_document_without_pages_is_an_error() {
    let doc: PdfDocument<PdfPage, Operation> = PdfDocument::new("Doc".to_string());
    assert!(matches!(write_document(doc, None, &vec![]), Err(WriteError::NoPages)));
}

#[test]
fn write_document_writes_page_boxes_and_rotation() {
    let mut doc: PdfDocument<PdfPage, Operation> = PdfDocument::new("Doc".to_string());
    let boxes = PageBoxes {
        crop_box: Some(vec![1, 2, 3, 4]),
        art_box: None,
        bleed_box: None,
        trim_box: Some(vec![5, 6, 7, 8]),
        rotate: Some(90),
    };
    doc.add_page(PdfPage { media_box: vec![0, 0, 10, 10], boxes, contents: vec![], layers: vec![] });
    let written = write_document(doc, None, &vec![]).unwrap();
    let page = &written.objects[(written.pages[0].page_id.0 - 1) as usize];
    let keys: Vec<&str> = match page {
        PdfObject::Dictionary(entries) => entries.iter().map(|(k, _)| k.as_str()).collect(),
        other => panic!("expected a dictionary, got {other:?}"),
    };
    assert_eq!(keys, vec!["Type", "Parent", "MediaBox", "Contents", "CropBox", "TrimBox", "Rotate"]);
    assert_eq!(format!("{:?}", entry(page, "CropBox")), "Array([Integer(1), Integer(2), Integer(3), Integer(4)])");
    assert_eq!(format!("{:?}", entry(page, "Rotate")), "Integer(90)");
}
