use tux_pdf::actions::{JavascriptAction, JavascriptSource, PdfAction, PdfActionType};
use tux_pdf::pdf_object::PdfObject;

fn keys(d: &[(String, PdfObject)]) -> Vec<&str> {
    d.iter().map(|(k, _)| k.as_str()).collect()
}

#[test]
fn javascript_action_dictionary() {
    let js = JavascriptAction::from_str("app.alert('hi');");
    assert!(matches!(&js.action, JavascriptSource::Text(t) if t == "app.alert('hi');"));
    let d = js.into_dictionary();
    assert_eq!(keys(&d), vec!["S", "JS"]);
    assert_eq!(format!("{:?}", d[0].1), "Name(\"JavaScript\")");
    assert_eq!(format!("{:?}", d[1].1), "Text(\"app.alert('hi');\")");

    let streamed = JavascriptAction { action: JavascriptSource::Stream(Vec::new(), b"x()".to_vec()) };
    let d = streamed.into_dictionary();
    assert_eq!(format!("{:?}", d[1].1), "Stream([], [120, 40, 41], true)");
}

#[test]
fn action_with_followers() {
    let single = PdfAction::new(PdfActionType::JavaScript(JavascriptAction::from_string("a()".to_string())));
    let d = single.into_dictionary();
    assert_eq!(keys(&d), vec!["S", "JS", "Type"]);
    assert_eq!(format!("{:?}", d[2].1), "Name(\"Action\")");

    let mut first = PdfAction::new(PdfActionType::JavaScript(JavascriptAction::from_str("a()")));
    let mut second = PdfAction::new(PdfActionType::JavaScript(JavascriptAction::from_str("b()")));
    second.next.push(PdfAction::new(PdfActionType::JavaScript(JavascriptAction::from_str("c()"))));
    first.next.push(second);
    let o = first.into_object();
    assert_eq!(
        format!("{:?}", o),
        "Dictionary([(\"S\", Name(\"JavaScript\")), (\"JS\", Text(\"a()\")), (\"Type\", Name(\"Action\")), \
         (\"Next\", Array([Dictionary([(\"S\", Name(\"JavaScript\")), (\"JS\", Text(\"b()\")), (\"Type\", Name(\"Action\")), \
         (\"Next\", Array([Dictionary([(\"S\", Name(\"JavaScript\")), (\"JS\", Text(\"c()\")), (\"Type\", Name(\"Action\"))])]))])]))])"
    );
}
