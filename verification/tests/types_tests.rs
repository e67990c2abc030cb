use tux_pdf::ops::{ColorOperations, OperationKeyType, OperationKeys, OperationWriter, TextOperations};
use tux_pdf::pdf_object::PdfObject;
use tux_pdf::resources::LayerId;
use tux_pdf::pdf_types::{FontEncoding, FontFlags, PageLayout, PageMode, PdfDocumentInfo};

#[test]
fn bit_flags() {
    let flags = FontFlags::from_bits_retain(32i64);

    flags.iter().iter().for_each(|flag| {
        println!("{:?}", flag);
    });
    assert_eq!(flags.iter(), vec![FontFlags::italic()]);
}

#[test]
fn flags_iterate_named_then_rest() {
    let flags = FontFlags::from_bits_retain(1 | 32 | 65536 | 64 | 1024);
    let bits: Vec<i64> = flags.iter().iter().map(|f| f.bits()).collect();
    assert_eq!(bits, vec![1, 32, 65536, 64 | 1024]);
    let all = bits.iter().fold(0i64, |a, b| a | b);
    assert_eq!(all, flags.bits());
}

#[test]
fn flags_of_nothing_iterate_nothing() {
    assert!(FontFlags::from_bits_retain(0).iter().is_empty());
}

#[test]
fn flags_contain_and_union() {
    let f = FontFlags::serif().union(FontFlags::italic());
    assert_eq!(f.bits(), 34);
    assert!(f.contains(FontFlags::italic()));
    assert!(!f.contains(FontFlags::force_bold()));
    assert_eq!(FontFlags::fixed_pitch().bits(), 1);
    assert_eq!(FontFlags::symbolic().bits(), 4);
    assert_eq!(FontFlags::script().bits(), 8);
    assert_eq!(FontFlags::non_symbolic().bits(), 16);
    assert_eq!(FontFlags::all_cap().bits(), 1 << 16);
    assert_eq!(FontFlags::small_cap().bits(), 1 << 17);
    assert_eq!(FontFlags::force_bold().bits(), 1 << 18);
}

#[test]
fn encoding_names() {
    assert_eq!(FontEncoding::WinAnsiEncoding.name(), "WinAnsiEncoding");
    assert_eq!(FontEncoding::IdentityH.name(), "Identity-H");
    assert_eq!(FontEncoding::IdentityV.name(), "Identity-V");
}

#[test]
fn catalog_names() {
    assert_eq!(PageLayout::default().name(), "SinglePage");
    assert_eq!(PageLayout::TwoPageRight.name(), "TwoPageRight");
    assert_eq!(PageMode::default().name(), "UseNone");
    assert_eq!(PageMode::UseOC.name(), "UseOC");
}

#[test]
fn document_info_defaults() {
    let info = PdfDocumentInfo::with_title("Report".to_string());
    assert_eq!(info.document_title, "Report");
    assert_eq!(info.producer.as_deref(), Some("tux-pdf"));
    assert!(!info.is_empty());
    let mut blank = PdfDocumentInfo::with_title(String::new());
    blank.producer = None;
    assert!(blank.is_empty());
}

#[test]
fn operator_keys() {
    assert_eq!(OperationKeys::SaveGraphicsState.key(), "q");
    assert_eq!(OperationKeys::PaintXObject.key(), "Do");
    assert_eq!(OperationKeys::EndSection.key(), "EMC");
    assert_eq!(TextOperations::BeginText.key(), "BT");
    assert_eq!(TextOperations::TextNewLine.key(), "T*");
    assert_eq!(TextOperations::ShowText.key(), "Tj");
    assert_eq!(ColorOperations::NonStrokingDeviceRgb.key(), "rg");
    assert_eq!(ColorOperations::StrokingCMYK.key(), "K");
}

fn name_of(o: &PdfObject) -> Option<&str> {
    match o {
        PdfObject::Name(n) => Some(n.as_str()),
        _ => None,
    }
}

#[test]
fn operation_writer_records_operations_and_layers() {
    let mut w = OperationWriter::new();
    w.save_graphics_state();
    w.start_layer(LayerId("L1".to_string()));
    w.begin_marked_content("Artifact".to_string());
    w.add_operation(TextOperations::TextFont, vec![PdfObject::Name("F1".to_string()), PdfObject::Integer(12)]);
    w.push_empty_op(TextOperations::EndText);
    w.end_section();
    w.end_section();
    w.restore_graphics_state();
    assert_eq!(w.layers, vec![LayerId("L1".to_string())]);
    let ops = w.operations();
    let keys: Vec<&str> = ops.iter().map(|o| o.operator.as_str()).collect();
    assert_eq!(keys, vec!["q", "BDC", "BMC", "Tf", "ET", "EMC", "EMC", "Q"]);
    assert!(ops[0].operands.is_empty());
    assert_eq!(ops[1].operands.len(), 2);
    assert_eq!(name_of(&ops[1].operands[0]), Some("OC"));
    assert_eq!(name_of(&ops[1].operands[1]), Some("L1"));
    assert_eq!(ops[2].operands.len(), 1);
    assert_eq!(name_of(&ops[2].operands[0]), Some("Artifact"));
    assert_eq!(name_of(&ops[3].operands[0]), Some("F1"));
    assert!(matches!(ops[3].operands[1], PdfObject::Integer(12)));
}

#[test]
fn flag_iteration_joins_back_to_the_flags() {
    for bits in [0i64, 1, 32 | 4, 65536 | 2 | 262144, 64 | 1, 1 << 40 | 131072, -1] {
        let flags = FontFlags::from_bits_retain(bits);
        let joined = flags.iter().into_iter().fold(FontFlags::from_bits_retain(0), |acc, f| acc.union(f));
        assert_eq!(joined.bits(), bits);
    }
}
