//! Writing a whole document: the objects it becomes, each under the number that the
//! document writer hands out, in the order that the PDF structure asks for.
//!
//! The information dictionary comes first; then each layer's optional content group and
//! content stream, in the order of the layer ids; then, page by page, its content stream (when
//! it has operations), its own resources (when it shows layers) and its page object; then the
//! fonts and the images with their dictionaries, and last the shared resources, when a page
//! uses them, and the catalog. Content streams are encoded by `lopdf`.
use vstd::prelude::*;
use lopdf::{Dictionary, Object, Stream, StringFormat};
use crate::ops::{operations_view, Operation, OperationWriter};
use crate::pdf_dicts::{
    layer_properties, ocg_dictionary, ocg_entries, page_boxes_entries, page_object, page_object_entries,
    page_own_resources, push_page_boxes, PageBoxes,
    page_own_resources_entries,
};
use crate::pdf_object::{obj_view, ObjView, PdfObject};
use crate::resources::{keys_distinct, keys_sorted, KeyedMap, Layer, LayerId, ResourceNotRegistered};
use crate::writer::{ids_below, DocumentWriter, WriterLayer};
use crate::document::PdfDocument;
use crate::font_map::{builtin_written, font_written};
use crate::pdf_dicts::{document_info_entries, oc_properties_entries, refs_view, shared_resources_entries, opt_text, xobject_stream, xobject_writable};
use crate::pdf_object::{entries_view, objs_view, opt_entry};
use crate::font::{builtin_id, BuiltinFont, FontId};
use crate::font_map::PdfFontMap;
use crate::resources::{XObject, XObjectMap};
use crate::text_out::str_eq;
use crate::pdf_types::{page_layout_name, page_mode_name, CatalogInfo};
use crate::resources::PdfResources;

verus! {

#[verifier::external_type_specification]
#[verifier::external_body]
pub struct ExObject(lopdf::Object);

#[verifier::external_type_specification]
#[verifier::external_body]
pub struct ExDictionary(lopdf::Dictionary);

/// An object as a `lopdf::Object`, variant for variant: a text becomes a literal string
/// (`Object::string_literal`), a hexadecimal string a hexadecimal `Object::String`; arrays,
/// dictionaries and streams go through `lopdf_compound`. Nothing is stated of the result; it
/// only goes into `encode_content`.
#[verifier::external_body]
fn lopdf_object(o: &PdfObject) -> Object {
    match o {
        PdfObject::Null => Object::Null,
        PdfObject::Boolean(b) => Object::Boolean(*b),
        PdfObject::Integer(i) => Object::Integer(*i),
        PdfObject::Name(n) => Object::Name(n.clone().into_bytes()),
        PdfObject::Text(t) => Object::string_literal(t.as_str()),
        PdfObject::HexString(b) => Object::String(b.clone(), StringFormat::Hexadecimal),
        PdfObject::Reference(n, g) => Object::Reference((*n, *g)),
        _ => lopdf_compound(o),
    }
}

/// An array, dictionary or stream as a `lopdf::Object`: its items converted one for one, a
/// stream as `Stream::new` with its compression flag. Nothing is stated of the result; it only
/// goes into `encode_content`.
#[verifier::external_body]
fn lopdf_compound(o: &PdfObject) -> Object {
    match o {
        PdfObject::Array(items) => Object::Array(items.iter().map(lopdf_object).collect()),
        PdfObject::Dictionary(d) => Object::Dictionary(lopdf_dictionary(d)),
        PdfObject::Stream(d, c, z) => Object::Stream(Stream::new(lopdf_dictionary(d), c.clone()).with_compression(*z)),
        _ => lopdf_object(o),
    }
}

/// A dictionary as a `lopdf::Dictionary` (collected from its entries in order). Nothing is
/// stated of the result; it only goes into `encode_content`.
#[verifier::external_body]
fn lopdf_dictionary(d: &Vec<(String, PdfObject)>) -> Dictionary {
    d.iter().map(|(k, v)| (k.as_str(), lopdf_object(v))).collect()
}

/// The bytes of a content stream of the given operations, as `lopdf`'s `Content::encode`
/// writes them; `None` when it reports an error.
pub uninterp spec fn content_encoding(ops: Seq<(Seq<char>, Seq<ObjView>)>) -> Option<Seq<u8>>;

/// `lopdf::content::Content::encode` on the operations (each made with `Operation::new` from
/// the operator and the operands). Claimed: the bytes, or the absence of a result on an
/// error, are `content_encoding` of the operations' views.
#[verifier::external_body]
fn encode_content(ops: &Vec<Operation>) -> (r: Option<Vec<u8>>)
    ensures
        content_encoding(operations_view(ops@)) == match r {
            Some(b) => Some(b@),
            None => None::<Seq<u8>>,
        },
{
    let operations: Vec<lopdf::content::Operation> = ops.iter().map(|op| lopdf::content::Operation::new(&op.operator, op.operands.iter().map(lopdf_object).collect())).collect();
    lopdf::content::Content { operations }.encode().ok()
}

/// What stops a document from being written.
#[derive(Debug)]
pub enum WriteError {
    /// A page shows a layer that the document does not have.
    Resource(ResourceNotRegistered),
    /// A content stream could not be encoded.
    ContentEncoding,
    /// A document without pages cannot be written.
    NoPages,
}

/// The view of a content stream of the given bytes, with an empty dictionary.
pub open spec fn content_stream(bytes: Seq<u8>) -> ObjView {
    ObjView::Stream(Seq::empty(), bytes, true)
}

/// Whether the object numbered `id.0` (generation 0), at `id.0 - 1` of `objects`, is `v`.
pub open spec fn holds(objects: Seq<PdfObject>, id: (u32, u16), v: ObjView) -> bool {
    &&& id.1 == 0
    &&& 1 <= id.0 <= objects.len()
    &&& obj_view(objects[id.0 - 1]) == v
}

/// Whether the object at `id` is the content stream of the given operations.
pub open spec fn encoded_at(objects: Seq<PdfObject>, id: (u32, u16), ops: Seq<(Seq<char>, Seq<ObjView>)>) -> bool {
    &&& content_encoding(ops) is Some
    &&& holds(objects, id, content_stream(content_encoding(ops)->0))
}

/// The operations of a layer's content stream: the layer begun as optional content under
/// its id, its operations, and its end.
pub open spec fn layer_content(key: Seq<char>, ops: Seq<Operation>) -> Seq<(Seq<char>, Seq<ObjView>)> {
    seq![("BDC"@, seq![ObjView::Name("OC"@), ObjView::Name(key)])] + operations_view(ops) + seq![
        ("EMC"@, Seq::<ObjView>::empty()),
    ]
}

/// Whether a layer's content stream can be encoded.
pub open spec fn layer_encodes(e: (String, Layer<Operation>)) -> bool {
    content_encoding(layer_content(e.0@, e.1.operations@)) is Some
}

/// Whether a layer was written: its optional content group and its content stream.
pub open spec fn layer_written(objects: Seq<PdfObject>, e: (String, Layer<Operation>), l: WriterLayer) -> bool {
    &&& holds(objects, l.ocg_id, ObjView::Dictionary(ocg_entries(e.1.name@)))
    &&& encoded_at(objects, l.stream_id, layer_content(e.0@, e.1.operations@))
}

/// The objects of the `j`-th layer, written after `m` objects.
pub open spec fn layer_ids_at(m: int, j: int) -> WriterLayer {
    WriterLayer { ocg_id: ((m + 2 * j + 1) as u32, 0u16), stream_id: ((m + 2 * j + 2) as u32, 0u16) }
}

/// The written layers under their keys.
pub open spec fn written_layers(es: Seq<(String, Layer<Operation>)>, wl: Seq<WriterLayer>) -> Seq<(String, WriterLayer)> {
    Seq::new(es.len(), |j: int| (es[j].0, wl[j]))
}

proof fn lemma_written_layers_sorted(es: Seq<(String, Layer<Operation>)>, wl: Seq<WriterLayer>)
    requires
        keys_distinct(es),
        keys_sorted(es),
    ensures
        keys_distinct(written_layers(es, wl)),
        keys_sorted(written_layers(es, wl)),
{
    let p = written_layers(es, wl);
    assert forall|i: int, j: int| 0 <= i < j < p.len() implies p[i].0@ != p[j].0@ by {
        assert(es[i].0@ != es[j].0@);
    }
    assert forall|i: int, j: int| #![trigger p[i], p[j]] 0 <= i < j < p.len() implies crate::key_order::key_before(p[i].0@, p[j].0@) by {
        assert(crate::key_order::key_before(es[i].0@, es[j].0@));
    }
}

/// A writer whose layers are the written ones answers for each of them, and for no other key.
proof fn lemma_registry(w: DocumentWriter, es: Seq<(String, Layer<Operation>)>, wl: Seq<WriterLayer>)
    requires
        wl.len() == es.len(),
        w.layers.wf(),
        w.layers.entries() == written_layers(es, wl),
        keys_distinct(es),
    ensures
        registry(w, es, wl),
{
    let p = written_layers(es, wl);
    assert forall|j: int| 0 <= j < es.len() implies w.layers.get_spec((#[trigger] es[j]).0@) == Some(wl[j]) by {
        let key = es[j].0@;
        assert(p[j].0@ == key);
        let c = choose|c: int| 0 <= c < p.len() && p[c].0@ == key;
        if c != j {
            if c < j {
                assert(es[c].0@ != es[j].0@);
            } else {
                assert(es[j].0@ != es[c].0@);
            }
        }
    }
    assert forall|k: Seq<char>| (forall|j: int| 0 <= j < es.len() ==> (#[trigger] es[j]).0@ != k) implies w.layers.get_spec(k) is None by {
        if exists|c: int| 0 <= c < p.len() && p[c].0@ == k {
            let c = choose|c: int| 0 <= c < p.len() && p[c].0@ == k;
            assert(es[c].0@ == k);
        }
    }
}

/// Whether the object slots below `n` are the same in both.
pub open spec fn kept(before: Seq<PdfObject>, after: Seq<PdfObject>, n: int) -> bool {
    forall|k: int| 0 <= k < n ==> #[trigger] after[k] == before[k]
}

/// Writes the layers, in order: each one's optional content group and content stream.
fn write_layers(
    w: &mut DocumentWriter,
    objects: &mut Vec<PdfObject>,
    entries: Vec<(String, Layer<Operation>)>,
) -> (r: Result<Vec<WriterLayer>, WriteError>)
    requires
        old(w).layers.wf(),
        forall|k: Seq<char>| old(w).layers.get_spec(k) is None,
        old(objects)@.len() == old(w).max_id,
        keys_distinct(entries@),
        keys_sorted(entries@),
        old(w).max_id + 2 * entries@.len() < u32::MAX,
    ensures
        r is Ok <==> forall|j: int| 0 <= j < entries@.len() ==> layer_encodes(#[trigger] entries@[j]),
        r is Err ==> r == Err::<Vec<WriterLayer>, WriteError>(WriteError::ContentEncoding),
        r matches Ok(wl) ==> {
            &&& wl@.len() == entries@.len()
            &&& final(w).max_id == old(w).max_id + 2 * entries@.len()
            &&& final(objects)@.len() == final(w).max_id
            &&& kept(old(objects)@, final(objects)@, old(objects)@.len() as int)
            &&& forall|j: int| 0 <= j < entries@.len() ==> {
                &&& #[trigger] wl@[j] == layer_ids_at(old(w).max_id as int, j)
                &&& layer_written(final(objects)@, entries@[j], wl@[j])
            }
            &&& final(w).layers.entries() == written_layers(entries@, wl@)
            &&& registry(*final(w), entries@, wl@)
            &&& final(w).fonts == old(w).fonts
            &&& final(w).xobjects == old(w).xobjects
            &&& final(w).pages == old(w).pages
            &&& final(w).pages_id == old(w).pages_id
            &&& final(w).uses_shared_resources == old(w).uses_shared_resources
            &&& final(w).resources_id == old(w).resources_id
            &&& final(w).info_dict == old(w).info_dict
            &&& final(w).catalog_extras == old(w).catalog_extras
        },
{
    let ghost es = entries@;
    let ghost m = w.max_id as int;
    let ghost objs0 = objects@;
    let mut wl: Vec<WriterLayer> = Vec::new();
    let mut pairs: Vec<(String, WriterLayer)> = Vec::new();
    let mut i: usize = 0;
    assert(written_layers(es.take(0), wl@) =~= Seq::<(String, WriterLayer)>::empty());
    for entry in iter: entries
        invariant
            i == iter.index(),
            iter.seq() == es,
            keys_distinct(es),
            keys_sorted(es),
            m + 2 * es.len() < u32::MAX,
            wl@.len() == i,
            pairs@ == written_layers(es.take(i as int), wl@),
            w.max_id == m + 2 * i,
            objects@.len() == w.max_id,
            kept(objs0, objects@, objs0.len() as int),
            objs0.len() == m,
            forall|j: int| 0 <= j < i ==> layer_encodes(#[trigger] es[j]),
            forall|j: int| 0 <= j < i ==> {
                &&& #[trigger] wl@[j] == layer_ids_at(m, j)
                &&& layer_written(objects@, es[j], wl@[j])
            },
            w.layers == old(w).layers,
            w.fonts == old(w).fonts,
            w.xobjects == old(w).xobjects,
            w.pages == old(w).pages,
            w.pages_id == old(w).pages_id,
            w.uses_shared_resources == old(w).uses_shared_resources,
            w.resources_id == old(w).resources_id,
            w.info_dict == old(w).info_dict,
            w.catalog_extras == old(w).catalog_extras,
    {
        let (key, layer) = entry;
        assert(es[i as int] == (key, layer));
        let mut ops = OperationWriter::new();
        ops.start_layer(LayerId(key.clone()));
        let ghost layer_name = layer.name@;
        let ghost layer_ops = layer.operations@;
        let Layer { name: layer_name_s, operations: mut own, .. } = layer;
        let ghost before = ops.ops_view();
        let ghost own_ops = own@;
        ops.operations.append(&mut own);
        assert(ops.ops_view() =~= before + operations_view(own_ops));
        ops.end_section();
        let content = ops.operations();
        assert(operations_view(content@) =~= layer_content(key@, layer_ops)) by {
            reveal_strlit("OC");
        }
        let bytes = match encode_content(&content) {
            Some(b) => b,
            None => {
                assert(!layer_encodes(es[i as int]));
                return Err(WriteError::ContentEncoding);
            },
        };
        let ghost objs_before = objects@;
        let ocg_id = w.insert_object();
        objects.push(PdfObject::Dictionary(ocg_dictionary(layer_name_s.as_str())));
        let stream_id = w.insert_object();
        objects.push(PdfObject::Stream(Vec::new(), bytes, true));
        let written = WriterLayer { ocg_id, stream_id };
        let ghost pairs_before = pairs@;
        pairs.push((key, written));
        wl.push(written);
        proof {
            assert(pairs@ =~= written_layers(es.take(i + 1), wl@));
            assert(kept(objs_before, objects@, objs_before.len() as int));
            assert forall|j: int| 0 <= j < i + 1 implies {
                &&& #[trigger] wl@[j] == layer_ids_at(m, j)
                &&& layer_written(objects@, es[j], wl@[j])
            } by {
                if j < i {
                    assert(objects@[wl@[j].ocg_id.0 - 1] == objs_before[wl@[j].ocg_id.0 - 1]);
                    assert(objects@[wl@[j].stream_id.0 - 1] == objs_before[wl@[j].stream_id.0 - 1]);
                } else {
                    assert(obj_view(objects@[ocg_id.0 - 1]) == ObjView::Dictionary(ocg_entries(layer_name)));
                    assert(encoded_at(objects@, stream_id, layer_content(key@, layer_ops)));
                }
            }
            assert(kept(objs0, objects@, objs0.len() as int)) by {
                assert forall|k: int| 0 <= k < objs0.len() implies #[trigger] objects@[k] == objs0[k] by {
                    assert(objects@[k] == objs_before[k]);
                }
            }
        }
        i = i + 1;
    }
    proof {
        assert(es.take(i as int) =~= es);
        lemma_written_layers_sorted(es, wl@);
    }
    w.layers = KeyedMap::from_sorted(pairs);
    proof {
        lemma_registry(*w, es, wl@);
    }
    Ok(wl)
}

/// A page to be written: its media box (lower left x and y, upper right x and y, in points),
/// its other boxes and rotation, its own operations, and the layers it shows over them.
#[derive(Debug)]
pub struct PdfPage {
    pub media_box: Vec<i64>,
    pub boxes: PageBoxes,
    pub contents: Vec<Operation>,
    pub layers: Vec<LayerId>,
}

/// The objects written for a page: the page object, its content stream (when it has
/// operations), its own resources (when it shows layers), and the content streams and
/// optional content groups of the layers it shows, in its order.
#[derive(Debug)]
pub struct WrittenPage {
    pub page_id: (u32, u16),
    pub content_id: Option<(u32, u16)>,
    pub resources_id: Option<(u32, u16)>,
    pub layer_streams: Vec<(u32, u16)>,
    pub groups: Vec<(LayerId, (u32, u16))>,
}

/// Whether some layer written under `key` has the given group and stream.
pub open spec fn shown_layer(
    es: Seq<(String, Layer<Operation>)>,
    wl: Seq<WriterLayer>,
    key: Seq<char>,
    ocg: (u32, u16),
    stream: (u32, u16),
) -> bool {
    exists|j: int| 0 <= j < es.len() && #[trigger] es[j].0@ == key && wl[j].ocg_id == ocg && wl[j].stream_id == stream
}

/// Whether a layer is written under `key`.
pub open spec fn is_registered(es: Seq<(String, Layer<Operation>)>, key: Seq<char>) -> bool {
    exists|j: int| 0 <= j < es.len() && #[trigger] es[j].0@ == key
}

/// Whether every layer that a page shows is written.
pub open spec fn layers_registered(es: Seq<(String, Layer<Operation>)>, p: PdfPage) -> bool {
    forall|i: int| 0 <= i < p.layers@.len() ==> is_registered(es, (#[trigger] p.layers@[i]).0@)
}

/// Whether a page's own content stream, if it has one, can be encoded.
pub open spec fn page_encodes(p: PdfPage) -> bool {
    p.contents@.len() == 0 || content_encoding(operations_view(p.contents@)) is Some
}

/// Whether a page can be written.
pub open spec fn page_ok(es: Seq<(String, Layer<Operation>)>, p: PdfPage) -> bool {
    layers_registered(es, p) && page_encodes(p)
}

/// Whether `e` reports the first layer of the page that is not written.
pub open spec fn first_missing_layer(es: Seq<(String, Layer<Operation>)>, p: PdfPage, e: ResourceNotRegistered) -> bool {
    exists|i: int| {
        &&& 0 <= i < p.layers@.len()
        &&& !is_registered(es, (#[trigger] p.layers@[i]).0@)
        &&& (e matches ResourceNotRegistered::LayerId(id) && id.0@ == p.layers@[i].0@)
        &&& forall|j: int| 0 <= j < i ==> is_registered(es, (#[trigger] p.layers@[j]).0@)
    }
}

/// The ids of the given object, if any, as a sequence.
pub open spec fn opt_ids(id: Option<(u32, u16)>) -> Seq<(u32, u16)> {
    match id {
        Some(i) => seq![i],
        None => Seq::empty(),
    }
}

/// Whether a page was written, with the page tree at `pages_id` and the font and XObject
/// dictionaries at `fonts` and `xobjects`: its content stream, its own resources naming the
/// groups of its layers, and its page object listing its content stream and then its layers'.
pub open spec fn page_written(
    objects: Seq<PdfObject>,
    pages_id: (u32, u16),
    fonts: (u32, u16),
    xobjects: (u32, u16),
    es: Seq<(String, Layer<Operation>)>,
    wl: Seq<WriterLayer>,
    p: PdfPage,
    wp: WrittenPage,
) -> bool {
    let n = p.layers@.len();
    &&& wp.layer_streams@.len() == n
    &&& wp.groups@.len() == n
    &&& forall|i: int| 0 <= i < n ==> {
        &&& (#[trigger] wp.groups@[i]).0.0@ == p.layers@[i].0@
        &&& shown_layer(es, wl, p.layers@[i].0@, wp.groups@[i].1, wp.layer_streams@[i])
    }
    &&& (wp.content_id is Some <==> p.contents@.len() > 0)
    &&& (wp.content_id matches Some(c) ==> encoded_at(objects, c, operations_view(p.contents@)))
    &&& (wp.resources_id is Some <==> n > 0)
    &&& (wp.resources_id matches Some(res) ==> holds(
        objects,
        res,
        ObjView::Dictionary(page_own_resources_entries(fonts, xobjects, layer_properties(wp.groups@))),
    ))
    &&& holds(
        objects,
        wp.page_id,
        ObjView::Dictionary(
            page_object_entries(pages_id, wp.resources_id, p.media_box@, opt_ids(wp.content_id) + wp.layer_streams@)
                + page_boxes_entries(p.boxes),
        ),
    )
}

/// Whether none of a page's objects is at `id`.
pub open spec fn avoids(wp: WrittenPage, id: Option<(u32, u16)>) -> bool {
    id matches Some(x) ==> {
        &&& x.0 != wp.page_id.0
        &&& (wp.content_id matches Some(c) ==> c.0 != x.0)
        &&& (wp.resources_id matches Some(r) ==> r.0 != x.0)
    }
}

/// The id, or `(0, 0)` for none.
pub open spec fn id_or_zero(id: Option<(u32, u16)>) -> (u32, u16) {
    match id {
        Some(i) => i,
        None => (0u32, 0u16),
    }
}

/// Whether the writer's layers are the written layers.
pub open spec fn registry(w: DocumentWriter, es: Seq<(String, Layer<Operation>)>, wl: Seq<WriterLayer>) -> bool {
    &&& wl.len() == es.len()
    &&& w.layers.wf()
    &&& forall|j: int| 0 <= j < es.len() ==> w.layers.get_spec((#[trigger] es[j]).0@) == Some(wl[j])
    &&& forall|k: Seq<char>| (forall|j: int| 0 <= j < es.len() ==> (#[trigger] es[j]).0@ != k)
        ==> w.layers.get_spec(k) is None
}

/// Whether the page tree, the font dictionary and the XObject dictionary, where they have
/// ids, have different object numbers, each of generation 0.
pub open spec fn shared_distinct(w: DocumentWriter) -> bool {
    &&& id_or_zero(w.pages_id).1 == 0
    &&& id_or_zero(w.fonts).1 == 0
    &&& id_or_zero(w.xobjects).1 == 0
    &&& (w.pages_id is Some && w.fonts is Some ==> id_or_zero(w.pages_id).0 != id_or_zero(w.fonts).0)
    &&& (w.pages_id is Some && w.xobjects is Some ==> id_or_zero(w.pages_id).0 != id_or_zero(w.xobjects).0)
    &&& (w.fonts is Some && w.xobjects is Some ==> id_or_zero(w.fonts).0 != id_or_zero(w.xobjects).0)
}

/// Whether an id newly handed out for a shared object comes after `m`.
pub open spec fn shared_after(before: Option<(u32, u16)>, after: Option<(u32, u16)>, m: int) -> bool {
    &&& after is Some
    &&& (before matches Some(b) ==> after == Some(b))
    &&& (before is None ==> id_or_zero(after).0 > m)
}

/// Writes a page: its content stream when it has operations, its own resources when it shows
/// layers, and its page object; a layer that is not written is an error, reported before
/// anything of the page is written.
fn write_page(
    w: &mut DocumentWriter,
    objects: &mut Vec<PdfObject>,
    page: PdfPage,
    Ghost(es): Ghost<Seq<(String, Layer<Operation>)>>,
    Ghost(wl): Ghost<Seq<WriterLayer>>,
) -> (r: Result<WrittenPage, WriteError>)
    requires
        registry(*old(w), es, wl),
        old(objects)@.len() == old(w).max_id,
        old(w).max_id + 6 < u32::MAX,
        ids_below(*old(w), old(w).max_id),
        old(w).resources_id is None,
        shared_distinct(*old(w)),
    ensures
        r is Err <==> !page_ok(es, page),
        match r {
            Err(WriteError::Resource(e)) => first_missing_layer(es, page, e),
            Err(WriteError::ContentEncoding) => layers_registered(es, page) && !page_encodes(page),
            Err(WriteError::NoPages) => false,
            Ok(wp) => {
                &&& final(objects)@.len() == final(w).max_id
                &&& old(w).max_id < final(w).max_id <= old(w).max_id + 6
                &&& kept(old(objects)@, final(objects)@, old(objects)@.len() as int)
                &&& page_written(
                    final(objects)@,
                    id_or_zero(final(w).pages_id),
                    id_or_zero(final(w).fonts),
                    id_or_zero(final(w).xobjects),
                    es,
                    wl,
                    page,
                    wp,
                )
                &&& wp.page_id.0 > old(w).max_id
                &&& (wp.content_id matches Some(c) ==> c.0 > old(w).max_id)
                &&& (wp.resources_id matches Some(x) ==> x.0 > old(w).max_id)
                &&& shared_after(old(w).pages_id, final(w).pages_id, old(w).max_id as int)
                &&& (page.layers@.len() > 0 ==> shared_after(old(w).fonts, final(w).fonts, old(w).max_id as int)
                    && shared_after(old(w).xobjects, final(w).xobjects, old(w).max_id as int)
                    && final(w).uses_shared_resources == old(w).uses_shared_resources)
                &&& (page.layers@.len() == 0 ==> final(w).fonts == old(w).fonts && final(w).xobjects == old(w).xobjects
                    && final(w).uses_shared_resources)
                &&& avoids(wp, final(w).pages_id)
                &&& avoids(wp, final(w).fonts)
                &&& avoids(wp, final(w).xobjects)
                &&& final(w).pages@ == old(w).pages@.push(wp.page_id)
                &&& final(w).layers == old(w).layers
                &&& final(w).resources_id == old(w).resources_id
                &&& final(w).info_dict == old(w).info_dict
                &&& final(w).catalog_extras == old(w).catalog_extras
                &&& ids_below(*final(w), final(w).max_id)
                &&& shared_distinct(*final(w))
            },
        },
{
    let ghost m = w.max_id as int;
    let ghost objs0 = objects@;
    let mut i: usize = 0;
    while i < page.layers.len()
        invariant
            i <= page.layers@.len(),
            registry(*w, es, wl),
            forall|j: int| 0 <= j < i ==> is_registered(es, (#[trigger] page.layers@[j]).0@),
        decreases page.layers.len() - i,
    {
        if w.layers.get(page.layers[i].0.as_str()).is_none() {
            let ghost key = page.layers@[i as int].0@;
            assert(!is_registered(es, key)) by {
                if is_registered(es, key) {
                    let j = choose|j: int| 0 <= j < es.len() && #[trigger] es[j].0@ == key;
                    assert(w.layers.get_spec(es[j].0@) == Some(wl[j]));
                }
            }
            let e = ResourceNotRegistered::LayerId(LayerId(page.layers[i].0.clone()));
            return Err(WriteError::Resource(e));
        }
        proof {
            let key = page.layers@[i as int].0@;
            if !is_registered(es, key) {
                assert(forall|j: int| 0 <= j < es.len() ==> (#[trigger] es[j]).0@ != key);
            }
        }
        i = i + 1;
    }
    assert(layers_registered(es, page));
    let mut contents: Vec<(u32, u16)> = Vec::new();
    let content_id = if page.contents.len() > 0 {
        let bytes = match encode_content(&page.contents) {
            Some(b) => b,
            None => {
                return Err(WriteError::ContentEncoding);
            },
        };
        let id = w.insert_object();
        objects.push(PdfObject::Stream(Vec::new(), bytes, true));
        contents.push(id);
        Some(id)
    } else {
        None
    };
    let ghost m1 = w.max_id as int;
    let ghost objs1 = objects@;
    let plan = match w.page_resources(&page.layers) {
        Ok(p) => p,
        Err(e) => {
            proof {
                let k = choose|k: int| 0 <= k < page.layers@.len() && w.layers.get_spec(page.layers@[k].0@) is None;
                assert(is_registered(es, page.layers@[k].0@));
                let j = choose|j: int| 0 <= j < es.len() && #[trigger] es[j].0@ == page.layers@[k].0@;
                assert(w.layers.get_spec(es[j].0@) == Some(wl[j]));
            }
            return Err(WriteError::Resource(e));
        },
    };
    let ghost m2 = w.max_id as int;
    let resources_id = match plan.own {
        None => None,
        Some((res_id, font_id, xobjects_id, groups)) => {
            let ghost g = groups@;
            if objects.len() < res_id.0 as usize - 1 {
                objects.push(PdfObject::Null);
            }
            if objects.len() < res_id.0 as usize - 1 {
                objects.push(PdfObject::Null);
            }
            objects.push(PdfObject::Dictionary(page_own_resources(font_id, xobjects_id, &groups)));
            assert(objects@.len() == w.max_id);
            Some((res_id, groups))
        },
    };
    let ghost objs2 = objects@;
    let ghost m3 = w.max_id as int;
    let pages_id = w.pages_id();
    if objects.len() < w.max_id as usize {
        objects.push(PdfObject::Null);
    }
    let mut k: usize = 0;
    while k < plan.layer_streams.len()
        invariant
            k <= plan.layer_streams@.len(),
            contents@ == opt_ids(content_id) + plan.layer_streams@.take(k as int),
        decreases plan.layer_streams.len() - k,
    {
        contents.push(plan.layer_streams[k]);
        assert(plan.layer_streams@.take(k + 1) =~= plan.layer_streams@.take(k as int).push(plan.layer_streams@[k as int]));
        k = k + 1;
    }
    assert(plan.layer_streams@.take(k as int) =~= plan.layer_streams@);
    let (res_ref, groups) = match resources_id {
        Some((id, g)) => (Some(id), g),
        None => (None, Vec::new()),
    };
    let mut page_dict = page_object(pages_id, res_ref, &page.media_box, &contents);
    push_page_boxes(&mut page_dict, &page.boxes);
    let page_id = w.new_page();
    objects.push(PdfObject::Dictionary(page_dict));
    let wp = WrittenPage { page_id, content_id, resources_id: res_ref, layer_streams: plan.layer_streams, groups };
    Ok(wp)
}

/// A page that was written stays written when objects are only added after it, and when the
/// font and XObject dictionaries it names stay where they are.
proof fn lemma_page_written_kept(
    objs: Seq<PdfObject>,
    objs2: Seq<PdfObject>,
    pages_id: (u32, u16),
    f: (u32, u16),
    x: (u32, u16),
    f2: (u32, u16),
    x2: (u32, u16),
    es: Seq<(String, Layer<Operation>)>,
    wl: Seq<WriterLayer>,
    p: PdfPage,
    wp: WrittenPage,
)
    requires
        page_written(objs, pages_id, f, x, es, wl, p, wp),
        kept(objs, objs2, objs.len() as int),
        objs.len() <= objs2.len(),
        p.layers@.len() > 0 ==> f2 == f && x2 == x,
    ensures
        page_written(objs2, pages_id, f2, x2, es, wl, p, wp),
        wp.page_id.0 <= objs.len(),
        wp.content_id matches Some(c) ==> c.0 <= objs.len(),
        wp.resources_id matches Some(r) ==> r.0 <= objs.len(),
{
    assert(objs2[wp.page_id.0 - 1] == objs[wp.page_id.0 - 1]);
    if let Some(c) = wp.content_id {
        assert(objs2[c.0 - 1] == objs[c.0 - 1]);
    }
    if let Some(r) = wp.resources_id {
        assert(objs2[r.0 - 1] == objs[r.0 - 1]);
    }
}

/// A page that was written stays written where its objects stay, and when the font and
/// XObject dictionaries it names stay where they are.
proof fn lemma_page_written_at(
    objs: Seq<PdfObject>,
    objs2: Seq<PdfObject>,
    pages_id: (u32, u16),
    f: (u32, u16),
    x: (u32, u16),
    f2: (u32, u16),
    x2: (u32, u16),
    es: Seq<(String, Layer<Operation>)>,
    wl: Seq<WriterLayer>,
    p: PdfPage,
    wp: WrittenPage,
)
    requires
        page_written(objs, pages_id, f, x, es, wl, p, wp),
        objs.len() <= objs2.len(),
        objs2[wp.page_id.0 - 1] == objs[wp.page_id.0 - 1],
        wp.content_id matches Some(c) ==> objs2[c.0 - 1] == objs[c.0 - 1],
        wp.resources_id matches Some(r) ==> objs2[r.0 - 1] == objs[r.0 - 1],
        p.layers@.len() > 0 ==> f2 == f && x2 == x,
    ensures
        page_written(objs2, pages_id, f2, x2, es, wl, p, wp),
{
}

/// Whether the pages before `i` can be written.
pub open spec fn pages_ok_before(es: Seq<(String, Layer<Operation>)>, ps: Seq<PdfPage>, i: int) -> bool {
    forall|j: int| 0 <= j < i ==> page_ok(es, #[trigger] ps[j])
}

/// Whether `e` is what writing the pages reports: the first page that cannot be written
/// shows a layer that is not written (the first such layer), or its content stream cannot be
/// encoded.
pub open spec fn pages_error(es: Seq<(String, Layer<Operation>)>, ps: Seq<PdfPage>, e: WriteError) -> bool {
    exists|i: int| {
        &&& 0 <= i < ps.len()
        &&& pages_ok_before(es, ps, i)
        &&& match e {
            WriteError::Resource(r) => first_missing_layer(es, #[trigger] ps[i], r),
            WriteError::ContentEncoding => layers_registered(es, ps[i]) && !page_encodes(ps[i]),
            WriteError::NoPages => false,
        }
    }
}

/// Writes the pages in order.
fn write_pages(
    w: &mut DocumentWriter,
    objects: &mut Vec<PdfObject>,
    pages: Vec<PdfPage>,
    Ghost(es): Ghost<Seq<(String, Layer<Operation>)>>,
    Ghost(wl): Ghost<Seq<WriterLayer>>,
) -> (r: Result<Vec<WrittenPage>, WriteError>)
    requires
        registry(*old(w), es, wl),
        old(objects)@.len() == old(w).max_id,
        old(w).max_id + 6 * pages@.len() + 6 < u32::MAX,
        ids_below(*old(w), old(w).max_id),
        old(w).resources_id is None,
        old(w).pages_id is None,
        old(w).fonts is None,
        old(w).xobjects is None,
        old(w).pages@.len() == 0,
        !old(w).uses_shared_resources,
    ensures
        r is Ok <==> pages_ok_before(es, pages@, pages@.len() as int),
        r matches Err(e) ==> pages_error(es, pages@, e),
        r matches Ok(wps) ==> {
            &&& wps@.len() == pages@.len()
            &&& final(objects)@.len() == final(w).max_id
            &&& final(w).max_id <= old(w).max_id + 6 * pages@.len()
            &&& kept(old(objects)@, final(objects)@, old(objects)@.len() as int)
            &&& forall|i: int| 0 <= i < pages@.len() ==> {
                &&& page_written(
                    final(objects)@,
                    id_or_zero(final(w).pages_id),
                    id_or_zero(final(w).fonts),
                    id_or_zero(final(w).xobjects),
                    es,
                    wl,
                    pages@[i],
                    #[trigger] wps@[i],
                )
                &&& avoids(wps@[i], final(w).pages_id)
                &&& avoids(wps@[i], final(w).fonts)
                &&& avoids(wps@[i], final(w).xobjects)
                &&& final(w).pages@[i] == wps@[i].page_id
            }
            &&& final(w).pages@.len() == pages@.len()
            &&& (final(w).pages_id is Some <==> pages@.len() > 0)
            &&& (final(w).fonts is Some <==> exists|i: int| 0 <= i < pages@.len() && (#[trigger] pages@[i]).layers@.len() > 0)
            &&& (final(w).xobjects is Some <==> final(w).fonts is Some)
            &&& (final(w).uses_shared_resources <==> exists|i: int| 0 <= i < pages@.len()
                && (#[trigger] pages@[i]).layers@.len() == 0)
            &&& final(w).layers == old(w).layers
            &&& final(w).resources_id is None
            &&& final(w).info_dict == old(w).info_dict
            &&& final(w).catalog_extras == old(w).catalog_extras
            &&& ids_below(*final(w), final(w).max_id)
            &&& shared_distinct(*final(w))
            &&& (final(w).pages_id matches Some(x) ==> x.0 > old(w).max_id)
            &&& (final(w).fonts matches Some(x) ==> x.0 > old(w).max_id)
            &&& (final(w).xobjects matches Some(x) ==> x.0 > old(w).max_id)
        },
{
    let ghost ps = pages@;
    let ghost m = w.max_id as int;
    let ghost objs0 = objects@;
    let mut wps: Vec<WrittenPage> = Vec::new();
    let mut i: usize = 0;
    for page in iter: pages
        invariant
            i == iter.index(),
            iter.seq() == ps,
            wps@.len() == i,
            registry(*w, es, wl),
            w.layers == old(w).layers,
            objects@.len() == w.max_id,
            m == old(w).max_id,
            objs0.len() == m,
            m + 6 * ps.len() + 6 < u32::MAX,
            m <= w.max_id <= m + 6 * i,
            ids_below(*w, w.max_id),
            kept(objs0, objects@, objs0.len() as int),
            pages_ok_before(es, ps, i as int),
            forall|j: int| 0 <= j < i ==> {
                &&& page_written(
                    objects@,
                    id_or_zero(w.pages_id),
                    id_or_zero(w.fonts),
                    id_or_zero(w.xobjects),
                    es,
                    wl,
                    ps[j],
                    #[trigger] wps@[j],
                )
                &&& avoids(wps@[j], w.pages_id)
                &&& avoids(wps@[j], w.fonts)
                &&& avoids(wps@[j], w.xobjects)
                &&& w.pages@[j] == wps@[j].page_id
            },
            w.pages@.len() == i,
            w.pages_id is Some <==> i > 0,
            w.fonts is Some <==> exists|j: int| 0 <= j < i && (#[trigger] ps[j]).layers@.len() > 0,
            w.xobjects is Some <==> w.fonts is Some,
            w.uses_shared_resources <==> exists|j: int| 0 <= j < i && (#[trigger] ps[j]).layers@.len() == 0,
            w.resources_id is None,
            w.info_dict == old(w).info_dict,
            w.catalog_extras == old(w).catalog_extras,
            shared_distinct(*w),
            w.pages_id matches Some(x) ==> x.0 > m,
            w.fonts matches Some(x) ==> x.0 > m,
            w.xobjects matches Some(x) ==> x.0 > m,
    {
        assert(ps[i as int] == page);
        let ghost w0 = *w;
        let ghost objs_before = objects@;
        let ghost wps_before = wps@;
        match write_page(w, objects, page, Ghost(es), Ghost(wl)) {
            Err(e) => {
                assert(pages_error(es, ps, e)) by {
                    assert(0 <= i < ps.len() && pages_ok_before(es, ps, i as int));
                }
                assert(!pages_ok_before(es, ps, ps.len() as int)) by {
                    assert(!page_ok(es, ps[i as int]));
                }
                return Err(e);
            },
            Ok(wp) => {
                let ghost wp_g = wp;
                wps.push(wp);
                proof {
                    assert forall|j: int| 0 <= j < i + 1 implies {
                        &&& page_written(
                            objects@,
                            id_or_zero(w.pages_id),
                            id_or_zero(w.fonts),
                            id_or_zero(w.xobjects),
                            es,
                            wl,
                            ps[j],
                            #[trigger] wps@[j],
                        )
                        &&& avoids(wps@[j], w.pages_id)
                        &&& avoids(wps@[j], w.fonts)
                        &&& avoids(wps@[j], w.xobjects)
                        &&& w.pages@[j] == wps@[j].page_id
                    } by {
                        if j < i {
                            assert(wps@[j] == wps_before[j]);
                            if ps[j].layers@.len() > 0 {
                                assert(w0.fonts is Some);
                            }
                            lemma_page_written_kept(
                                objs_before,
                                objects@,
                                id_or_zero(w0.pages_id),
                                id_or_zero(w0.fonts),
                                id_or_zero(w0.xobjects),
                                id_or_zero(w.fonts),
                                id_or_zero(w.xobjects),
                                es,
                                wl,
                                ps[j],
                                wps@[j],
                            );
                            assert(id_or_zero(w0.pages_id) == id_or_zero(w.pages_id));
                        }
                    }
                    assert(pages_ok_before(es, ps, i + 1)) by {
                        assert(page_ok(es, ps[i as int]));
                    }
                    assert(w.fonts is Some <==> exists|j: int| 0 <= j < i + 1 && (#[trigger] ps[j]).layers@.len() > 0) by {
                        if w0.fonts is Some {
                            let j = choose|j: int| 0 <= j < i && (#[trigger] ps[j]).layers@.len() > 0;
                            assert(0 <= j < i + 1);
                        }
                    }
                    assert(w.uses_shared_resources <==> exists|j: int| 0 <= j < i + 1 && (#[trigger] ps[j]).layers@.len() == 0) by {
                        if w0.uses_shared_resources {
                            let j = choose|j: int| 0 <= j < i && (#[trigger] ps[j]).layers@.len() == 0;
                            assert(0 <= j < i + 1);
                        }
                    }
                    assert(kept(objs0, objects@, objs0.len() as int)) by {
                        assert forall|k: int| 0 <= k < objs0.len() implies #[trigger] objects@[k] == objs0[k] by {
                            assert(objects@[k] == objs_before[k]);
                        }
                    }
                }
            },
        }
        i = i + 1;
    }
    Ok(wps)
}

/// The name an object is, if it is one.
pub open spec fn named(v: ObjView) -> Option<Seq<char>> {
    match v {
        ObjView::Name(n) => Some(n),
        _ => None,
    }
}

/// Whether a font resource name is registered: the id of a loaded font, or the id of a
/// registered built-in font.
pub open spec fn font_known(fonts: PdfFontMap, n: Seq<char>) -> bool {
    fonts.font(n) is Some || exists|b: BuiltinFont| fonts.has_builtin(b) && #[trigger] builtin_id(b) == n
}

/// Whether the resources an operation names are registered: the font of a `Tf` and the
/// XObject of a `Do`.
pub open spec fn op_names_ok(op: (Seq<char>, Seq<ObjView>), fonts: PdfFontMap, xobjects: KeyedMap<XObject>) -> bool {
    &&& (op.0 == "Tf"@ && op.1.len() > 0 && named(op.1[0]) is Some ==> font_known(fonts, named(op.1[0])->0))
    &&& (op.0 == "Do"@ && op.1.len() > 0 && named(op.1[0]) is Some ==> xobjects.get_spec(named(op.1[0])->0) is Some)
}

/// Whether the resources all the operations name are registered.
pub open spec fn ops_names_ok(ops: Seq<Operation>, fonts: PdfFontMap, xobjects: KeyedMap<XObject>) -> bool {
    forall|i: int| 0 <= i < ops.len() ==> op_names_ok(operations_view(ops)[i], fonts, xobjects)
}

proof fn lemma_objs_view_index(s: Seq<PdfObject>)
    ensures
        objs_view(s).len() == s.len(),
        forall|i: int| 0 <= i < s.len() ==> #[trigger] objs_view(s)[i] == obj_view(s[i]),
    decreases s.len(),
{
    if s.len() > 0 {
        lemma_objs_view_index(s.drop_last());
    }
}

/// Whether a font resource name is registered.
fn font_name_known(fonts: &PdfFontMap, n: &str) -> (r: bool)
    ensures
        r == font_known(*fonts, n@),
{
    if fonts.has_id(&FontId(n.to_owned())) {
        return true;
    }
    let bs = fonts.registered_builtins();
    let mut i: usize = 0;
    while i < bs.len()
        invariant
            i <= bs@.len(),
            bs@ == fonts.builtins(),
            forall|b: BuiltinFont| bs@.contains(b) == fonts.has_builtin(b),
            forall|j: int| 0 <= j < i ==> builtin_id(bs@[j]) != n@,
        decreases bs.len() - i,
    {
        if str_eq(bs[i].dedicated_font_id(), n) {
            assert(bs@.contains(bs@[i as int]));
            return true;
        }
        i = i + 1;
    }
    proof {
        if exists|b: BuiltinFont| fonts.has_builtin(b) && #[trigger] builtin_id(b) == n@ {
            let b = choose|b: BuiltinFont| fonts.has_builtin(b) && #[trigger] builtin_id(b) == n@;
            assert(bs@.contains(b));
            let j = choose|j: int| 0 <= j < bs@.len() && bs@[j] == b;
        }
    }
    false
}

/// Whether the resources that the operations name are registered: the font of each `Tf`
/// among the fonts, the XObject of each `Do` among the XObjects.
pub fn operations_use_registered_names(ops: &Vec<Operation>, fonts: &PdfFontMap, xobjects: &XObjectMap) -> (r: bool)
    requires
        xobjects.map.wf(),
    ensures
        r == ops_names_ok(ops@, *fonts, xobjects.map),
{
    let mut i: usize = 0;
    while i < ops.len()
        invariant
            i <= ops@.len(),
            xobjects.map.wf(),
            forall|k: int| 0 <= k < i ==> op_names_ok(operations_view(ops@)[k], *fonts, xobjects.map),
        decreases ops.len() - i,
    {
        let op = &ops[i];
        proof {
            lemma_objs_view_index(op.operands@);
            reveal_strlit("Tf");
            reveal_strlit("Do");
            assert(operations_view(ops@)[i as int] == (op.operator@, objs_view(op.operands@)));
        }
        if op.operands.len() > 0 {
            match &op.operands[0] {
                PdfObject::Name(n) => {
                    if str_eq(op.operator.as_str(), "Tf") && !font_name_known(fonts, n.as_str()) {
                        return false;
                    }
                    if str_eq(op.operator.as_str(), "Do") && !xobjects.map.contains_key(n.as_str()) {
                        return false;
                    }
                },
                _ => {},
            }
        }
        i = i + 1;
    }
    true
}

/// A written document: its objects, the one numbered `k` (generation 0) at `k - 1`, and where
/// its parts are. The catalog, the trailer's root, is the last object.
#[derive(Debug)]
pub struct WrittenDocument {
    pub objects: Vec<PdfObject>,
    /// The catalog.
    pub root: (u32, u16),
    /// The document information dictionary.
    pub info: (u32, u16),
    /// Each layer's objects, in the order of the layer ids.
    pub layers: Vec<WriterLayer>,
    /// The page tree.
    pub pages_id: (u32, u16),
    /// Each page's objects, in order.
    pub pages: Vec<WrittenPage>,
    /// The font resource dictionary.
    pub fonts_id: (u32, u16),
    /// The number of objects before the fonts' objects.
    pub font_objects_from: u32,
    /// The XObject resource dictionary.
    pub xobjects_id: (u32, u16),
    /// The number of objects before the XObjects' streams.
    pub xobject_objects_from: u32,
    /// The resources shared by the pages that show no layer, when there are such pages.
    pub shared_resources: Option<(u32, u16)>,
}

/// The optional content groups of the written layers.
pub open spec fn ocg_ids(wl: Seq<WriterLayer>) -> Seq<(u32, u16)> {
    wl.map_values(|l: WriterLayer| l.ocg_id)
}

/// The page objects of the written pages.
pub open spec fn page_ids(wps: Seq<WrittenPage>) -> Seq<(u32, u16)> {
    wps.map_values(|wp: WrittenPage| wp.page_id)
}

/// The `n` objects after the first `m`, with their ids.
pub open spec fn pairs_at(objects: Seq<PdfObject>, m: int, n: int) -> Seq<((u32, u16), PdfObject)> {
    Seq::new(n as nat, |j: int| (((m + 1 + j) as u32, 0u16), objects[m + j]))
}

/// The entries of the catalog.
pub open spec fn catalog_entries(pages_id: (u32, u16), c: CatalogInfo, ocgs: Seq<(u32, u16)>) -> Seq<(Seq<char>, ObjView)> {
    seq![
        ("Type"@, ObjView::Name("Catalog"@)),
        ("Pages"@, ObjView::Reference(pages_id.0, pages_id.1)),
        ("PageLayout"@, ObjView::Name(page_layout_name(c.page_layout))),
        ("PageMode"@, ObjView::Name(page_mode_name(c.page_mode))),
    ] + opt_entry("Lang"@, opt_text(c.language)) + (if ocgs.len() == 0 {
        Seq::empty()
    } else {
        seq![("OCProperties"@, ObjView::Dictionary(oc_properties_entries(ocgs)))]
    })
}

/// The entries of the page tree.
pub open spec fn page_tree_entries(kids: Seq<(u32, u16)>, shared: Option<(u32, u16)>) -> Seq<(Seq<char>, ObjView)> {
    seq![
        ("Type"@, ObjView::Name("Pages"@)),
        ("Kids"@, ObjView::Array(refs_view(kids))),
        ("Count"@, ObjView::Integer(kids.len() as int)),
    ] + opt_entry(
        "Resources"@,
        match shared {
            Some(s) => Some(ObjView::Reference(s.0, s.1)),
            None => None,
        },
    )
}

/// Whether every layer's content stream can be encoded.
pub open spec fn layers_encode(es: Seq<(String, Layer<Operation>)>) -> bool {
    forall|j: int| 0 <= j < es.len() ==> layer_encodes(#[trigger] es[j])
}

/// Whether `d` is the written document `doc`, with the given creation date and scaled glyph
/// widths of its fonts.
pub open spec fn document_written(
    d: WrittenDocument,
    doc: PdfDocument<PdfPage, Operation>,
    date: Option<Seq<char>>,
    widths: Seq<Vec<Option<i64>>>,
) -> bool {
    let objects = d.objects@;
    let es = doc.resources.layers.map.entries();
    let ps = doc.pages@;
    let fonts = doc.resources.fonts;
    let n = fonts.entries().len() as int;
    let b = fonts.builtins().len() as int;
    let xs = doc.resources.xobjects.map.entries();
    let mf = d.font_objects_from as int;
    let mx = d.xobject_objects_from as int;
    &&& d.root == (objects.len() as u32, 0u16)
    &&& d.info == (1u32, 0u16)
    &&& holds(objects, d.info, ObjView::Dictionary(document_info_entries(doc.metadata.info, date)))
    &&& d.layers@.len() == es.len()
    &&& forall|j: int| 0 <= j < es.len() ==> {
        &&& #[trigger] d.layers@[j] == layer_ids_at(1, j)
        &&& layer_written(objects, es[j], d.layers@[j])
    }
    &&& d.pages@.len() == ps.len()
    &&& forall|i: int| 0 <= i < ps.len() ==> page_written(
        objects,
        d.pages_id,
        d.fonts_id,
        d.xobjects_id,
        es,
        d.layers@,
        ps[i],
        #[trigger] d.pages@[i],
    )
    &&& holds(
        objects,
        d.pages_id,
        ObjView::Dictionary(
            page_tree_entries(page_ids(d.pages@), d.shared_resources),
        ),
    )
    &&& (d.shared_resources is Some <==> exists|i: int| 0 <= i < ps.len() && (#[trigger] ps[i]).layers@.len() == 0)
    &&& (d.shared_resources matches Some(sr) ==> holds(
        objects,
        sr,
        ObjView::Dictionary(shared_resources_entries(Some(d.fonts_id), Some(d.xobjects_id))),
    ))
    &&& mf + 4 * n + b <= objects.len()
    &&& 1 <= d.fonts_id.0 <= objects.len() && d.fonts_id.1 == 0
    &&& objects[d.fonts_id.0 - 1] matches PdfObject::Dictionary(fd) && {
        &&& fd@.len() == n + b
        &&& forall|i: int| 0 <= i < n ==> font_written(
            #[trigger] fonts.entries()[i],
            widths[i]@,
            mf,
            i,
            fd@[i],
            pairs_at(objects, mf, 4 * n + b),
        )
        &&& forall|j: int| 0 <= j < b ==> builtin_written(
            #[trigger] fonts.builtins()[j],
            mf,
            n,
            j,
            fd@[n + j],
            pairs_at(objects, mf, 4 * n + b),
        )
    }
    &&& mx + xs.len() <= objects.len()
    &&& 1 <= d.xobjects_id.0 <= objects.len() && d.xobjects_id.1 == 0
    &&& objects[d.xobjects_id.0 - 1] matches PdfObject::Dictionary(xd) && {
        &&& xd@.len() == xs.len()
        &&& forall|i: int| 0 <= i < xs.len() ==> {
            &&& (#[trigger] xd@[i]).0@ == xs[i].0@
            &&& obj_view(xd@[i].1) == ObjView::Reference((mx + 1 + i) as u32, 0u16)
            &&& holds(objects, ((mx + 1 + i) as u32, 0u16), xobject_stream(xs[i].1))
        }
    }
    &&& holds(
        objects,
        d.root,
        ObjView::Dictionary(
            catalog_entries(d.pages_id, doc.metadata.catalog_info, ocg_ids(d.layers@)),
        ),
    )
}

/// Writes a document: its information dictionary (with the creation date, already in the PDF
/// date format, when given), its layers, its pages, its fonts (`font_widths[i]` being the glyph
/// widths of the `i`-th loaded font scaled to a 1000-unit em) and images, the shared resources
/// when a page shows no layer, the page tree and the catalog.
///
/// The fonts and XObjects that the layers' and pages' operations name must be registered
/// (`operations_use_registered_names` tells); content that names another is not written.
///
/// The first thing that cannot be written is reported: a layer whose content stream cannot be
/// encoded, then, page by page, a layer that the page shows and the document does not have or
/// a content stream that cannot be encoded; a document without pages is an error last.
#[verifier::rlimit(100)]
#[verifier::spinoff_prover]
pub fn write_document(
    doc: PdfDocument<PdfPage, Operation>,
    creation_date: Option<String>,
    font_widths: &Vec<Vec<Option<i64>>>,
) -> (r: Result<WrittenDocument, WriteError>)
    requires
        doc.wf(),
        font_widths@.len() == doc.resources.fonts.entries().len(),
        forall|i: int| 0 <= i < font_widths@.len() ==> (#[trigger] font_widths@[i]).len() <= 65535,
        forall|i: int| 0 <= i < doc.resources.fonts.entries().len()
            ==> (#[trigger] doc.resources.fonts.entries()[i]).1.font.bytes().len() <= i64::MAX,
        forall|i: int| 0 <= i < doc.resources.xobjects.map.entries().len()
            ==> xobject_writable(#[trigger] doc.resources.xobjects.map.entries()[i].1),
        2 * doc.resources.layers.map.entries().len() + 6 * doc.pages@.len() + 4 * doc.resources.fonts.entries().len()
            + doc.resources.fonts.builtins().len() + doc.resources.xobjects.map.entries().len() + 16 < u32::MAX,
        forall|j: int| 0 <= j < doc.resources.layers.map.entries().len() ==> ops_names_ok(
            (#[trigger] doc.resources.layers.map.entries()[j]).1.operations@,
            doc.resources.fonts,
            doc.resources.xobjects.map,
        ),
        forall|i: int| 0 <= i < doc.pages@.len() ==> ops_names_ok(
            (#[trigger] doc.pages@[i]).contents@,
            doc.resources.fonts,
            doc.resources.xobjects.map,
        ),
    ensures
        ({
            let es = doc.resources.layers.map.entries();
            let ps = doc.pages@;
            &&& (r is Ok <==> layers_encode(es) && pages_ok_before(es, ps, ps.len() as int) && ps.len() > 0)
            &&& (r matches Err(e) ==> match e {
                WriteError::NoPages => layers_encode(es) && pages_ok_before(es, ps, ps.len() as int) && ps.len() == 0,
                WriteError::ContentEncoding => !layers_encode(es) || pages_error(es, ps, e),
                WriteError::Resource(_) => layers_encode(es) && pages_error(es, ps, e),
            })
            &&& (r matches Ok(d) ==> document_written(
                d,
                doc,
                match creation_date {
                    Some(s) => Some(s@),
                    None => None,
                },
                font_widths@,
            ))
        }),
{
    let ghost d0 = doc;
    let ghost date = match &creation_date {
        Some(s) => Some(s@),
        None => None::<Seq<char>>,
    };
    let ghost es = doc.resources.layers.map.entries();
    let ghost ps = doc.pages@;
    let (metadata, resources, pages) = doc.into_parts();
    let mut w = DocumentWriter::new();
    let mut objects: Vec<PdfObject> = Vec::new();
    let info_dict = metadata.info.into_dictionary(creation_date);
    let info_id = w.insert_object();
    objects.push(PdfObject::Dictionary(info_dict));
    w.info_dict = Some(info_id);
    w.catalog_extras = Some(metadata.catalog_info);
    let PdfResources { fonts: font_map, xobjects, layers } = resources;
    let wl = match write_layers(&mut w, &mut objects, layers.map.into_entries()) {
        Ok(v) => v,
        Err(e) => {
            return Err(e);
        },
    };
    let ghost objs_l = objects@;
    let ghost m_l = w.max_id as int;
    let wps = match write_pages(&mut w, &mut objects, pages, Ghost(es), Ghost(wl@)) {
        Ok(v) => v,
        Err(e) => {
            return Err(e);
        },
    };
    let ghost objs_p = objects@;
    let ghost w_p = w;
    // The fonts' objects, then the font resource dictionary.
    let font_objects_from = w.max_id;
    let (font_dict, font_objects) = font_map.dictionary(font_widths, &mut w);
    let ghost fobjs = font_objects@;
    for entry in iter: font_objects
        invariant
            iter.seq() == fobjs,
            objects@.len() == objs_p.len() + iter.index(),
            kept(objs_p, objects@, objs_p.len() as int),
            forall|j: int| 0 <= j < iter.index() ==> #[trigger] objects@[objs_p.len() + j] == fobjs[j].1,
    {
        objects.push(entry.1);
    }
    let ghost objs_f = objects@;
    let fonts_id = w.font_id();
    if (objects.len() as u32) < fonts_id.0 {
        objects.push(PdfObject::Dictionary(font_dict));
    } else {
        objects.set((fonts_id.0 - 1) as usize, PdfObject::Dictionary(font_dict));
    }
    let ghost objs_fd = objects@;
    // The XObjects' streams, then the XObject resource dictionary.
    let xobject_objects_from = w.max_id;
    let (x_dict, x_objects) = xobjects.dictionary(&mut w);
    let ghost xobjs = x_objects@;
    for entry in iter: x_objects
        invariant
            iter.seq() == xobjs,
            objects@.len() == objs_fd.len() + iter.index(),
            kept(objs_fd, objects@, objs_fd.len() as int),
            forall|j: int| 0 <= j < iter.index() ==> #[trigger] objects@[objs_fd.len() + j] == xobjs[j].1,
    {
        objects.push(entry.1);
    }
    let xobjects_id = w.xobjects_id();
    if (objects.len() as u32) < xobjects_id.0 {
        objects.push(PdfObject::Dictionary(x_dict));
    } else {
        objects.set((xobjects_id.0 - 1) as usize, PdfObject::Dictionary(x_dict));
    }
    let ghost objs_xd = objects@;
    // The shared resources, the catalog and the page tree.
    let done = match w.finish() {
        Ok(d) => d,
        Err(_) => {
            assert(ps.len() == 0);
            return Err(WriteError::NoPages);
        },
    };
    let shared_resources = match done.shared_resources {
        Some((id, _)) => {
            objects.push(PdfObject::Dictionary(done.shared_resources_dictionary()));
            Some(id)
        },
        None => None,
    };
    let ghost objs_s = objects@;
    let catalog = done.catalog_dictionary();
    let ghost cat = catalog;
    objects.push(PdfObject::Dictionary(catalog));
    let ghost objs_c = objects@;
    let tree = done.page_tree_dictionary();
    let ghost tree_g = tree;
    objects.set((done.pages_id.0 - 1) as usize, PdfObject::Dictionary(tree));
    let ghost fin_g = objects@;
    let result = WrittenDocument {
        objects,
        root: done.catalog_id,
        info: info_id,
        layers: wl,
        pages_id: done.pages_id,
        pages: wps,
        fonts_id,
        font_objects_from,
        xobjects_id,
        xobject_objects_from,
        shared_resources,
    };
    proof {
        let fin = fin_g;
        let mp = objs_p.len() as int;
        let mf = font_objects_from as int;
        let mx = xobject_objects_from as int;
        let n = d0.resources.fonts.entries().len() as int;
        let b = d0.resources.fonts.builtins().len() as int;
        let fs = fonts_id.0 - 1;
        let xsl = xobjects_id.0 - 1;
        let psl = done.pages_id.0 - 1;
        assert(mf == mp);
        // Every slot that was not set again keeps what was first stored there.
        assert forall|k: int| 0 <= k < mp && k != fs && k != xsl && k != psl implies #[trigger] fin[k] == objs_p[k] by {
            assert(objs_f[k] == objs_p[k]);
            assert(objs_fd[k] == objs_f[k]);
            assert(objs_xd[k] == objs_fd[k]);
        }
        assert(w_p.pages_id == Some(done.pages_id));
        assert(done.pages_id.0 <= mp);
        assert(w_p.fonts is Some ==> fonts_id == id_or_zero(w_p.fonts));
        assert(w_p.fonts is None ==> fonts_id.0 > mp);
        assert(w_p.xobjects is Some ==> xobjects_id == id_or_zero(w_p.xobjects));
        assert(w_p.xobjects is None ==> xobjects_id.0 > fonts_id.0);
        assert(fs != psl);
        assert(xsl != psl);
        assert(fs != xsl);
        let es = d0.resources.layers.map.entries();
        let ps = d0.pages@;
        // The information dictionary and the layers come before everything set again.
        assert(fs >= m_l && xsl >= m_l && psl >= m_l);
        assert(fin[0] == objs_p[0]);
        assert(objs_p[0] == objs_l[0]);
        assert forall|j: int| 0 <= j < es.len() implies {
            &&& #[trigger] wl@[j] == layer_ids_at(1, j)
            &&& layer_written(fin, es[j], wl@[j])
        } by {
            assert(layer_written(objs_l, es[j], wl@[j]));
            let l = wl@[j];
            assert(fin[l.ocg_id.0 - 1] == objs_p[l.ocg_id.0 - 1]);
            assert(objs_p[l.ocg_id.0 - 1] == objs_l[l.ocg_id.0 - 1]);
            assert(fin[l.stream_id.0 - 1] == objs_p[l.stream_id.0 - 1]);
            assert(objs_p[l.stream_id.0 - 1] == objs_l[l.stream_id.0 - 1]);
        }
        // The pages.
        assert forall|i: int| 0 <= i < ps.len() implies page_written(
            fin,
            done.pages_id,
            fonts_id,
            xobjects_id,
            es,
            wl@,
            ps[i],
            #[trigger] wps@[i],
        ) by {
            let wp = wps@[i];
            lemma_page_written_kept(
                objs_p,
                objs_p,
                id_or_zero(w_p.pages_id),
                id_or_zero(w_p.fonts),
                id_or_zero(w_p.xobjects),
                id_or_zero(w_p.fonts),
                id_or_zero(w_p.xobjects),
                es,
                wl@,
                ps[i],
                wp,
            );
            if ps[i].layers@.len() > 0 {
                assert(w_p.fonts is Some);
            }
            lemma_page_written_at(
                objs_p,
                fin,
                done.pages_id,
                id_or_zero(w_p.fonts),
                id_or_zero(w_p.xobjects),
                fonts_id,
                xobjects_id,
                es,
                wl@,
                ps[i],
                wp,
            );
        }
        // The page tree, the shared resources and the catalog.
        assert(fin.len() == objs_c.len());
        assert(fin[psl] == PdfObject::Dictionary(tree_g));
        assert(done.kids@ =~= page_ids(wps@));
        assert(fin[fin.len() - 1] == objs_c[objs_c.len() - 1]);
        assert(done.ocgs@ =~= ocg_ids(wl@));
        assert(done.catalog == d0.metadata.catalog_info);
        assert(done.catalog_id == (fin.len() as u32, 0u16));
        // The fonts.
        assert(objs_fd[fs] == PdfObject::Dictionary(font_dict));
        assert(objs_xd[fs] == objs_fd[fs]);
        assert(fin[fs] == objs_xd[fs]);
        assert forall|j: int| 0 <= j < 4 * n + b implies #[trigger] fin[mf + j] == fobjs[j].1 by {
            assert(objs_f[mp + j] == fobjs[j].1);
            assert(objs_fd[mf + j] == objs_f[mf + j]);
            assert(objs_xd[mf + j] == objs_fd[mf + j]);
        }
        assert(pairs_at(fin, mf, 4 * n + b) =~= fobjs);
        // The XObjects.
        let xs = d0.resources.xobjects.map.entries();
        assert(objs_xd[xsl] == PdfObject::Dictionary(x_dict));
        assert(fin[xsl] == objs_xd[xsl]);
        assert(mx + xs.len() <= fin.len());
        assert forall|i: int| 0 <= i < xs.len() implies #[trigger] fin[mx + i] == xobjs[i].1 by {
            assert(objs_xd[mx + i] == xobjs[i].1);
        }
        let xd = x_dict@;
        assert forall|i: int| 0 <= i < xs.len() implies holds(fin, ((mx + 1 + i) as u32, 0u16), xobject_stream(#[trigger] xs[i].1)) by {
            assert(fin[mx + i] == xobjs[i].1);
            assert(xd[i].0@ == xs[i].0@);
        }
        assert(fin.len() == done.catalog_id.0 as int);
        assert(fin[done.catalog_id.0 - 1] == PdfObject::Dictionary(cat));
        assert(entries_view(cat@) == catalog_entries(
            done.pages_id,
            d0.metadata.catalog_info,
            ocg_ids(wl@),
        ));
        assert(obj_view(fin[done.catalog_id.0 - 1]) == ObjView::Dictionary(entries_view(cat@)));
        assert(holds(fin, done.catalog_id, ObjView::Dictionary(catalog_entries(
            done.pages_id,
            d0.metadata.catalog_info,
            ocg_ids(wl@),
        ))));
        assert(result.objects@ == fin);
        assert(holds(fin, done.pages_id, ObjView::Dictionary(page_tree_entries(page_ids(wps@), shared_resources))));
        assert(fonts_id.1 == 0 && xobjects_id.1 == 0);
        assert(document_written(result, d0, date, font_widths@));
    }
    Ok(result)
}

} // verus!

