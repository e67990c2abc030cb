//! A model of PDF objects: what the library writes into a document, before the
//! application stores it with its PDF backend.
use vstd::prelude::*;

verus! {

/// A PDF object.
#[derive(Debug)]
pub enum PdfObject {
    Null,
    Boolean(bool),
    Integer(i64),
    /// A name (`/Name`).
    Name(String),
    /// A literal string (`(text)`).
    Text(String),
    /// A hexadecimal string (`<0041>`) of the given bytes.
    HexString(Vec<u8>),
    /// An indirect reference: object number and generation.
    Reference(u32, u16),
    Array(Vec<PdfObject>),
    Dictionary(Vec<(String, PdfObject)>),
    /// A stream: its dictionary, its content, and whether it may be compressed.
    Stream(Vec<(String, PdfObject)>, Vec<u8>, bool),
}

/// What a PDF object is, as a mathematical value.
pub enum ObjView {
    Null,
    Boolean(bool),
    Integer(int),
    Name(Seq<char>),
    Text(Seq<char>),
    HexString(Seq<u8>),
    Reference(u32, u16),
    Array(Seq<ObjView>),
    Dictionary(Seq<(Seq<char>, ObjView)>),
    Stream(Seq<(Seq<char>, ObjView)>, Seq<u8>, bool),
}

/// The view of an object.
pub open spec fn obj_view(o: PdfObject) -> ObjView
    decreases o, 0nat,
{
    match o {
        PdfObject::Null => ObjView::Null,
        PdfObject::Boolean(b) => ObjView::Boolean(b),
        PdfObject::Integer(i) => ObjView::Integer(i as int),
        PdfObject::Name(s) => ObjView::Name(s@),
        PdfObject::Text(s) => ObjView::Text(s@),
        PdfObject::HexString(b) => ObjView::HexString(b@),
        PdfObject::Reference(n, g) => ObjView::Reference(n, g),
        PdfObject::Array(v) => ObjView::Array(objs_view(v@)),
        PdfObject::Dictionary(v) => ObjView::Dictionary(entries_view(v@)),
        PdfObject::Stream(d, data, compress) => ObjView::Stream(entries_view(d@), data@, compress),
    }
}

/// The views of objects.
pub open spec fn objs_view(s: Seq<PdfObject>) -> Seq<ObjView>
    decreases s, 1nat,
{
    if s.len() == 0 {
        Seq::empty()
    } else {
        objs_view(s.drop_last()).push(obj_view(s.last()))
    }
}

/// The views of dictionary entries.
pub open spec fn entries_view(s: Seq<(String, PdfObject)>) -> Seq<(Seq<char>, ObjView)>
    decreases s, 1nat,
{
    if s.len() == 0 {
        Seq::empty()
    } else {
        entries_view(s.drop_last()).push((s.last().0@, obj_view(s.last().1)))
    }
}

} // verus!

verus! {

/// A dictionary entry's view.
pub open spec fn entry_view(e: (String, PdfObject)) -> (Seq<char>, ObjView) {
    (e.0@, obj_view(e.1))
}

/// An entry when the value is there.
pub open spec fn opt_entry(key: Seq<char>, v: Option<ObjView>) -> Seq<(Seq<char>, ObjView)> {
    match v {
        Some(x) => seq![(key, x)],
        None => Seq::empty(),
    }
}

/// Appends an entry to a dictionary.
pub fn push_entry(dict: &mut Vec<(String, PdfObject)>, key: &str, value: PdfObject)
    ensures
        entries_view(final(dict)@) == entries_view(old(dict)@).push((key@, obj_view(value))),
{
    let ghost before = dict@;
    dict.push((key.to_owned(), value));
    assert(dict@.drop_last() =~= before);
}

/// Appends an object to an array.
pub fn push_item(items: &mut Vec<PdfObject>, value: PdfObject)
    ensures
        objs_view(final(items)@) == objs_view(old(items)@).push(obj_view(value)),
        final(items)@ == old(items)@.push(value),
{
    let ghost before = items@;
    items.push(value);
    assert(items@.drop_last() =~= before);
}

/// A name object.
pub fn name(s: &str) -> (r: PdfObject)
    ensures
        obj_view(r) == ObjView::Name(s@),
{
    PdfObject::Name(s.to_owned())
}

/// An array of integers.
pub fn integers(values: &Vec<i64>) -> (r: PdfObject)
    ensures
        obj_view(r) == ObjView::Array(values@.map_values(|v: i64| ObjView::Integer(v as int))),
{
    let mut items: Vec<PdfObject> = Vec::new();
    let mut i: usize = 0;
    while i < values.len()
        invariant
            i <= values.len(),
            objs_view(items@) == values@.take(i as int).map_values(|v: i64| ObjView::Integer(v as int)),
        decreases values.len() - i,
    {
        push_item(&mut items, PdfObject::Integer(values[i]));
        assert(values@.take(i + 1).map_values(|v: i64| ObjView::Integer(v as int)) =~= values@.take(
            i as int,
        ).map_values(|v: i64| ObjView::Integer(v as int)).push(ObjView::Integer(values@[i as int] as int)));
        i = i + 1;
    }
    assert(values@.take(values@.len() as int) =~= values@);
    PdfObject::Array(items)
}

/// An array of references.
pub fn references(ids: &Vec<(u32, u16)>) -> (r: PdfObject)
    ensures
        obj_view(r) == ObjView::Array(ids@.map_values(|id: (u32, u16)| ObjView::Reference(id.0, id.1))),
{
    let mut items: Vec<PdfObject> = Vec::new();
    let mut i: usize = 0;
    while i < ids.len()
        invariant
            i <= ids.len(),
            objs_view(items@) == ids@.take(i as int).map_values(|id: (u32, u16)| ObjView::Reference(id.0, id.1)),
        decreases ids.len() - i,
    {
        let id = ids[i];
        push_item(&mut items, PdfObject::Reference(id.0, id.1));
        assert(ids@.take(i + 1).map_values(|id: (u32, u16)| ObjView::Reference(id.0, id.1)) =~= ids@.take(
            i as int,
        ).map_values(|id: (u32, u16)| ObjView::Reference(id.0, id.1)).push(ObjView::Reference(id.0, id.1)));
        i = i + 1;
    }
    assert(ids@.take(ids@.len() as int) =~= ids@);
    PdfObject::Array(items)
}

} // verus!
