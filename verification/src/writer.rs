//! The bookkeeping of writing a document: which object numbers the objects get, which
//! shared objects exist, and what the final page tree, catalog and trailer refer to.
//!
//! The objects themselves are stored by the caller's object store, at the ids decided here;
//! object numbers are handed out as the store does it: one more than the greatest so far,
//! generation 0.
use vstd::prelude::*;
use crate::font_map::TuxPdfError;
use crate::pdf_types::CatalogInfo;
use crate::resources::{KeyedMap, LayerId, ResourceNotRegistered};

verus! {

/// The objects written for a layer: its optional content group and its content stream.
#[derive(Debug, Clone, Copy, PartialEq, Eq)]
pub struct WriterLayer {
    pub ocg_id: (u32, u16),
    pub stream_id: (u32, u16),
}

/// The state of writing a document.
#[derive(Debug, Clone)]
pub struct DocumentWriter {
    /// The greatest object number handed out so far.
    pub max_id: u32,
    /// The layers written so far.
    pub layers: KeyedMap<WriterLayer>,
    /// The font dictionary's object, once asked for.
    pub fonts: Option<(u32, u16)>,
    /// The XObject dictionary's object, once asked for.
    pub xobjects: Option<(u32, u16)>,
    /// The page objects, in order.
    pub pages: Vec<(u32, u16)>,
    /// The page tree's object, once asked for.
    pub pages_id: Option<(u32, u16)>,
    /// Whether a page uses the shared resources.
    pub uses_shared_resources: bool,
    /// The shared resources' object, once asked for.
    pub resources_id: Option<(u32, u16)>,
    /// The document information dictionary's object.
    pub info_dict: Option<(u32, u16)>,
    /// Settings for the catalog.
    pub catalog_extras: Option<CatalogInfo>,
}

/// What finishing a document writes: the page tree (at `pages_id`, with the pages as kids and
/// the shared resources, if any), the shared resources (at their id, new when `created`, with
/// the font and XObject dictionaries), and the catalog (a new object, listing the layers'
/// optional content groups), which the trailer names as root beside the information dictionary.
#[derive(Debug)]
pub struct FinishedDocument {
    pub pages_id: (u32, u16),
    pub kids: Vec<(u32, u16)>,
    /// The shared resources' object and whether it is a new one.
    pub shared_resources: Option<((u32, u16), bool)>,
    pub fonts: Option<(u32, u16)>,
    pub xobjects: Option<(u32, u16)>,
    pub catalog: CatalogInfo,
    pub ocgs: Vec<(u32, u16)>,
    pub catalog_id: (u32, u16),
    pub info: Option<(u32, u16)>,
    /// The greatest object number once finished.
    pub max_id: u32,
}

/// The resources of one page: the content streams of its layers, and, when it shows
/// layers, its own resources object that names their groups.
#[derive(Debug)]
pub struct PageResources {
    /// The layers' content streams, in the page's order.
    pub layer_streams: Vec<(u32, u16)>,
    /// The page's own resources: its object, the font and XObject dictionaries' objects, and
    /// each layer's id with its optional content group. `None`: the page uses the shared resources.
    pub own: Option<((u32, u16), (u32, u16), (u32, u16), Vec<(LayerId, (u32, u16))>)>,
}

/// Whether all object numbers in use are at most `max_id`.
pub open spec fn ids_below(w: DocumentWriter, max_id: u32) -> bool {
    &&& (w.fonts matches Some(id) ==> id.0 <= max_id)
    &&& (w.xobjects matches Some(id) ==> id.0 <= max_id)
    &&& (w.pages_id matches Some(id) ==> id.0 <= max_id)
    &&& (w.resources_id matches Some(id) ==> id.0 <= max_id)
    &&& forall|i: int| 0 <= i < w.pages@.len() ==> w.pages@[i].0 <= max_id
}

/// Law of object numbers: while every object number in use is at most the greatest handed
/// out (which each operation of the writer keeps), the next one handed out is in use nowhere.
pub proof fn law_next_id_is_unused(w: DocumentWriter)
    requires
        ids_below(w, w.max_id),
        w.max_id < u32::MAX,
    ensures
        ({
            let n = (w.max_id + 1) as u32;
            &&& (w.fonts matches Some(id) ==> id.0 != n)
            &&& (w.xobjects matches Some(id) ==> id.0 != n)
            &&& (w.pages_id matches Some(id) ==> id.0 != n)
            &&& (w.resources_id matches Some(id) ==> id.0 != n)
            &&& forall|i: int| 0 <= i < w.pages@.len() ==> w.pages@[i].0 != n
        }),
{
}

/// How many object numbers getting a shared object's id hands out: one when it has none yet.
pub open spec fn newly(id: Option<(u32, u16)>) -> int {
    if id is None {
        1
    } else {
        0
    }
}

/// Whether a get-or-create of a shared object went as it should: an id handed out before is
/// given again and nothing new is handed out; otherwise the next object number is handed out
/// and kept.
pub open spec fn got_or_created(
    before: Option<(u32, u16)>,
    before_max: u32,
    after: Option<(u32, u16)>,
    after_max: u32,
    r: (u32, u16),
) -> bool {
    &&& after == Some(r)
    &&& match before {
        Some(id) => r == id && after_max == before_max,
        None => r == ((before_max + 1) as u32, 0u16) && after_max == r.0,
    }
}

/// Law of the shared objects: asking twice for the id of a shared object (page tree, font
/// dictionary, XObject dictionary, shared resources) gives the same id, and the second time
/// hands out no object number.
pub proof fn law_shared_ids_are_stable(
    s0: Option<(u32, u16)>,
    m0: u32,
    s1: Option<(u32, u16)>,
    m1: u32,
    r1: (u32, u16),
    s2: Option<(u32, u16)>,
    m2: u32,
    r2: (u32, u16),
)
    requires
        got_or_created(s0, m0, s1, m1, r1),
        got_or_created(s1, m1, s2, m2, r2),
    ensures
        r1 == r2,
        m2 == m1,
        s2 == s1,
{
}

impl DocumentWriter {
    /// A writer that has handed out no object number.
    pub fn new() -> (r: Self)
        ensures
            r.max_id == 0,
            r.layers.wf(),
            forall|k: Seq<char>| r.layers.get_spec(k) is None,
            r.fonts is None && r.xobjects is None && r.pages_id is None && r.resources_id is None,
            r.pages@.len() == 0,
            !r.uses_shared_resources,
            r.info_dict is None && r.catalog_extras is None,
            ids_below(r, r.max_id),
    {
        DocumentWriter {
            max_id: 0,
            layers: KeyedMap::new(),
            fonts: None,
            xobjects: None,
            pages: Vec::new(),
            pages_id: None,
            uses_shared_resources: false,
            resources_id: None,
            info_dict: None,
            catalog_extras: None,
        }
    }

    /// Hands out a new object id: one more than the greatest object number, generation 0.
    pub fn new_object_id(&mut self) -> (r: (u32, u16))
        requires
            old(self).max_id < u32::MAX,
        ensures
            r == ((old(self).max_id + 1) as u32, 0u16),
            final(self).max_id == r.0,
            final(self).layers == old(self).layers,
            final(self).fonts == old(self).fonts,
            final(self).xobjects == old(self).xobjects,
            final(self).pages == old(self).pages,
            final(self).pages_id == old(self).pages_id,
            final(self).uses_shared_resources == old(self).uses_shared_resources,
            final(self).resources_id == old(self).resources_id,
            final(self).info_dict == old(self).info_dict,
            final(self).catalog_extras == old(self).catalog_extras,
            ids_below(*old(self), old(self).max_id) ==> ids_below(*final(self), final(self).max_id),
    {
        self.max_id = self.max_id + 1;
        (self.max_id, 0)
    }

    /// The id for a new object that the caller stores (a new object id).
    pub fn insert_object(&mut self) -> (r: (u32, u16))
        requires
            old(self).max_id < u32::MAX,
        ensures
            r == ((old(self).max_id + 1) as u32, 0u16),
            final(self).max_id == r.0,
            final(self).layers == old(self).layers,
            final(self).fonts == old(self).fonts,
            final(self).xobjects == old(self).xobjects,
            final(self).pages == old(self).pages,
            final(self).pages_id == old(self).pages_id,
            final(self).uses_shared_resources == old(self).uses_shared_resources,
            final(self).resources_id == old(self).resources_id,
            final(self).info_dict == old(self).info_dict,
            final(self).catalog_extras == old(self).catalog_extras,
            ids_below(*old(self), old(self).max_id) ==> ids_below(*final(self), final(self).max_id),
    {
        self.new_object_id()
    }

    /// The id for a new page object, which is appended to the pages.
    pub fn new_page(&mut self) -> (r: (u32, u16))
        requires
            old(self).max_id < u32::MAX,
        ensures
            r == ((old(self).max_id + 1) as u32, 0u16),
            final(self).max_id == r.0,
            final(self).pages@ == old(self).pages@.push(r),
            final(self).layers == old(self).layers,
            final(self).fonts == old(self).fonts,
            final(self).xobjects == old(self).xobjects,
            final(self).pages_id == old(self).pages_id,
            final(self).uses_shared_resources == old(self).uses_shared_resources,
            final(self).resources_id == old(self).resources_id,
            final(self).info_dict == old(self).info_dict,
            final(self).catalog_extras == old(self).catalog_extras,
            ids_below(*old(self), old(self).max_id) ==> ids_below(*final(self), final(self).max_id),
    {
        let page_id = self.insert_object();
        self.pages.push(page_id);
        page_id
    }

    /// The page tree's id: the one handed out before, or a new one.
    pub fn pages_id(&mut self) -> (r: (u32, u16))
        requires
            old(self).max_id < u32::MAX,
        ensures
            got_or_created(old(self).pages_id, old(self).max_id, final(self).pages_id, final(self).max_id, r),
            final(self).layers == old(self).layers,
            final(self).fonts == old(self).fonts,
            final(self).xobjects == old(self).xobjects,
            final(self).pages == old(self).pages,
            final(self).uses_shared_resources == old(self).uses_shared_resources,
            final(self).resources_id == old(self).resources_id,
            final(self).info_dict == old(self).info_dict,
            final(self).catalog_extras == old(self).catalog_extras,
            ids_below(*old(self), old(self).max_id) ==> ids_below(*final(self), final(self).max_id),
    {
        match self.pages_id {
            Some(pages_id) => pages_id,
            None => {
                let pages_id = self.new_object_id();
                self.pages_id = Some(pages_id);
                pages_id
            },
        }
    }

    /// The font dictionary's id: the one handed out before, or a new one.
    pub fn font_id(&mut self) -> (r: (u32, u16))
        requires
            old(self).max_id < u32::MAX,
        ensures
            got_or_created(old(self).fonts, old(self).max_id, final(self).fonts, final(self).max_id, r),
            final(self).layers == old(self).layers,
            final(self).xobjects == old(self).xobjects,
            final(self).pages == old(self).pages,
            final(self).pages_id == old(self).pages_id,
            final(self).uses_shared_resources == old(self).uses_shared_resources,
            final(self).resources_id == old(self).resources_id,
            final(self).info_dict == old(self).info_dict,
            final(self).catalog_extras == old(self).catalog_extras,
            ids_below(*old(self), old(self).max_id) ==> ids_below(*final(self), final(self).max_id),
    {
        match self.fonts {
            Some(font_id) => font_id,
            None => {
                let font_id = self.new_object_id();
                self.fonts = Some(font_id);
                font_id
            },
        }
    }

    /// The XObject dictionary's id: the one handed out before, or a new one.
    pub fn xobjects_id(&mut self) -> (r: (u32, u16))
        requires
            old(self).max_id < u32::MAX,
        ensures
            got_or_created(old(self).xobjects, old(self).max_id, final(self).xobjects, final(self).max_id, r),
            final(self).layers == old(self).layers,
            final(self).fonts == old(self).fonts,
            final(self).pages == old(self).pages,
            final(self).pages_id == old(self).pages_id,
            final(self).uses_shared_resources == old(self).uses_shared_resources,
            final(self).resources_id == old(self).resources_id,
            final(self).info_dict == old(self).info_dict,
            final(self).catalog_extras == old(self).catalog_extras,
            ids_below(*old(self), old(self).max_id) ==> ids_below(*final(self), final(self).max_id),
    {
        match self.xobjects {
            Some(xobjects_id) => xobjects_id,
            None => {
                let xobjects_id = self.new_object_id();
                self.xobjects = Some(xobjects_id);
                xobjects_id
            },
        }
    }

    /// The shared resources' id: the one handed out before, or a new one.
    pub fn shared_resources_id(&mut self) -> (r: (u32, u16))
        requires
            old(self).max_id < u32::MAX,
        ensures
            got_or_created(old(self).resources_id, old(self).max_id, final(self).resources_id, final(self).max_id, r),
            final(self).layers == old(self).layers,
            final(self).fonts == old(self).fonts,
            final(self).xobjects == old(self).xobjects,
            final(self).pages == old(self).pages,
            final(self).pages_id == old(self).pages_id,
            final(self).uses_shared_resources == old(self).uses_shared_resources,
            final(self).info_dict == old(self).info_dict,
            final(self).catalog_extras == old(self).catalog_extras,
            ids_below(*old(self), old(self).max_id) ==> ids_below(*final(self), final(self).max_id),
    {
        match self.resources_id {
            Some(resources_id) => resources_id,
            None => {
                let resources_id = self.new_object_id();
                self.resources_id = Some(resources_id);
                resources_id
            },
        }
    }

    /// Notes that a page uses the shared resources.
    pub fn uses_shared_resources(&mut self)
        ensures
            final(self).uses_shared_resources,
            final(self).max_id == old(self).max_id,
            final(self).layers == old(self).layers,
            final(self).fonts == old(self).fonts,
            final(self).xobjects == old(self).xobjects,
            final(self).pages == old(self).pages,
            final(self).pages_id == old(self).pages_id,
            final(self).resources_id == old(self).resources_id,
            final(self).info_dict == old(self).info_dict,
            final(self).catalog_extras == old(self).catalog_extras,
            ids_below(*old(self), old(self).max_id) ==> ids_below(*final(self), final(self).max_id),
    {
        self.uses_shared_resources = true;
    }

    /// The resources of a page that shows the given layers, in order.
    ///
    /// A layer that was not written is an error. A page without layers uses the shared
    /// resources; a page with layers gets its own resources object, made after the font and
    /// XObject dictionaries' ids are settled, that names each layer's group.
    pub fn page_resources(&mut self, layer_ids: &Vec<LayerId>) -> (r: Result<PageResources, ResourceNotRegistered>)
        requires
            old(self).layers.wf(),
            old(self).max_id < u32::MAX - 3,
        ensures
            final(self).layers == old(self).layers,
            final(self).pages == old(self).pages,
            final(self).pages_id == old(self).pages_id,
            final(self).info_dict == old(self).info_dict,
            final(self).catalog_extras == old(self).catalog_extras,
            ids_below(*old(self), old(self).max_id) ==> ids_below(*final(self), final(self).max_id),
            old(self).max_id <= final(self).max_id <= old(self).max_id + 3,
            final(self).resources_id == old(self).resources_id,
            r is Err <==> exists|i: int| 0 <= i < layer_ids@.len() && old(self).layers.get_spec(layer_ids@[i].0@) is None,
            r matches Err(e) ==> exists|i: int| {
                &&& 0 <= i < layer_ids@.len()
                &&& old(self).layers.get_spec(layer_ids@[i].0@) is None
                &&& (e matches ResourceNotRegistered::LayerId(id) && id.0@ == layer_ids@[i].0@)
                &&& forall|j: int| 0 <= j < i ==> old(self).layers.get_spec(layer_ids@[j].0@) is Some
            },
            match r {
                Err(_) => true,
                Ok(p) => {
                    &&& p.layer_streams@.len() == layer_ids@.len()
                    &&& forall|i: int| #![trigger layer_ids@[i]] 0 <= i < layer_ids@.len() ==> (old(self).layers.get_spec(layer_ids@[i].0@) matches Some(l)
                        && l.stream_id == p.layer_streams@[i])
                    &&& if layer_ids@.len() == 0 {
                        &&& p.own is None
                        &&& final(self).uses_shared_resources
                        &&& final(self).max_id == old(self).max_id
                        &&& final(self).fonts == old(self).fonts
                        &&& final(self).xobjects == old(self).xobjects
                    } else {
                        &&& p.own matches Some((res_id, font_id, xobjects_id, props)) && {
                            &&& final(self).fonts == Some(font_id)
                            &&& final(self).xobjects == Some(xobjects_id)
                            &&& res_id == (final(self).max_id, 0u16)
                            &&& final(self).max_id > old(self).max_id
                            &&& font_id == match old(self).fonts {
                                Some(f) => f,
                                None => ((old(self).max_id + 1) as u32, 0u16),
                            }
                            &&& xobjects_id == match old(self).xobjects {
                                Some(x) => x,
                                None => ((old(self).max_id + newly(old(self).fonts) + 1) as u32, 0u16),
                            }
                            &&& final(self).max_id == old(self).max_id + newly(old(self).fonts) + newly(old(self).xobjects) + 1
                            &&& props@.len() == layer_ids@.len()
                            &&& forall|i: int| #![trigger layer_ids@[i]] 0 <= i < layer_ids@.len() ==> props@[i].0.0@ == layer_ids@[i].0@ && (old(
                                self,
                            ).layers.get_spec(layer_ids@[i].0@) matches Some(l) && l.ocg_id == props@[i].1)
                        }
                        &&& final(self).uses_shared_resources == old(self).uses_shared_resources
                    }
                },
            },
    {
        let mut found: Vec<WriterLayer> = Vec::new();
        let mut i: usize = 0;
        while i < layer_ids.len()
            invariant
                self.layers.wf(),
                self.layers == old(self).layers,
                *self == *old(self),
                i <= layer_ids.len(),
                found@.len() == i,
                forall|j: int| #![trigger layer_ids@[j]] 0 <= j < i ==> old(self).layers.get_spec(layer_ids@[j].0@) == Some(found@[j]),
            decreases layer_ids.len() - i,
        {
            match self.layers.get(layer_ids[i].0.as_str()) {
                Some(layer) => found.push(*layer),
                None => {
                    let id = layer_ids[i].0.clone();
                    let e = ResourceNotRegistered::LayerId(LayerId(id));
                    assert(old(self).layers.get_spec(layer_ids@[i as int].0@) is None);
                    assert(forall|j: int| 0 <= j < i ==> old(self).layers.get_spec(layer_ids@[j].0@) is Some);
                    return Err(e);
                },
            }
            i = i + 1;
        }
        let mut layer_streams: Vec<(u32, u16)> = Vec::new();
        if layer_ids.len() == 0 {
            self.uses_shared_resources();
            return Ok(PageResources { layer_streams, own: None });
        }
        let mut props: Vec<(LayerId, (u32, u16))> = Vec::new();
        let mut k: usize = 0;
        while k < found.len()
            invariant
                k <= found.len(),
                found@.len() == layer_ids@.len(),
                forall|j: int| #![trigger layer_ids@[j]] 0 <= j < found@.len() ==> old(self).layers.get_spec(layer_ids@[j].0@) == Some(found@[j]),
                layer_streams@.len() == k,
                props@.len() == k,
                forall|j: int| 0 <= j < k ==> layer_streams@[j] == found@[j].stream_id,
                forall|j: int| 0 <= j < k ==> props@[j].1 == found@[j].ocg_id,
                forall|j: int| 0 <= j < k ==> props@[j].0.0@ == layer_ids@[j].0@,
            decreases found.len() - k,
        {
            let ghost ls0 = layer_streams@;
            let ghost pr0 = props@;
            let layer = found[k];
            layer_streams.push(layer.stream_id);
            let id = layer_ids[k].0.clone();
            props.push((LayerId(id), layer.ocg_id));
            proof {
                assert(layer == found@[k as int]);
                assert(id@ == layer_ids@[k as int].0@);
                assert forall|j: int| 0 <= j < k + 1 implies layer_streams@[j] == found@[j].stream_id by {
                    if j < k {
                        assert(layer_streams@[j] == ls0[j]);
                    }
                }
                assert forall|j: int| 0 <= j < k + 1 implies props@[j].1 == found@[j].ocg_id by {
                    if j < k {
                        assert(props@[j] == pr0[j]);
                    }
                }
                assert forall|j: int| 0 <= j < k + 1 implies props@[j].0.0@ == layer_ids@[j].0@ by {
                    if j < k {
                        assert(props@[j] == pr0[j]);
                    }
                }
            }
            k = k + 1;
        }
        let font_id = self.font_id();
        let xobjects_id = self.xobjects_id();
        let res_id = self.insert_object();
        assert(self.layers == old(self).layers);
        Ok(PageResources { layer_streams, own: Some((res_id, font_id, xobjects_id, props)) })
    }

    /// Finishes the document: it needs a page tree (`NoPagesCreated` otherwise). When a page
    /// uses the shared resources they are written (at their id if one was handed out, else as
    /// a new object); then the catalog is a new object, with the layers' groups.
    pub fn finish(self) -> (r: Result<FinishedDocument, TuxPdfError>)
        requires
            self.max_id < u32::MAX - 2,
        ensures
            self.pages_id is None <==> r == Err::<FinishedDocument, TuxPdfError>(TuxPdfError::NoPagesCreated),
            r is Ok <==> self.pages_id is Some,
            r matches Ok(d) ==> {
                &&& Some(d.pages_id) == self.pages_id
                &&& d.kids@ == self.pages@
                &&& d.fonts == self.fonts
                &&& d.xobjects == self.xobjects
                &&& d.info == self.info_dict
                &&& d.ocgs@ == self.layers.entries().map_values(|e: (String, WriterLayer)| e.1.ocg_id)
                &&& d.catalog == match self.catalog_extras {
                    Some(c) => c,
                    None => CatalogInfo { page_layout: crate::pdf_types::PageLayout::SinglePage, language: None, page_mode: crate::pdf_types::PageMode::UseNone },
                }
                &&& if self.uses_shared_resources {
                    match self.resources_id {
                        Some(id) => d.shared_resources == Some((id, false)) && d.catalog_id == ((self.max_id + 1) as u32, 0u16),
                        None => d.shared_resources == Some((((self.max_id + 1) as u32, 0u16), true))
                            && d.catalog_id == ((self.max_id + 2) as u32, 0u16),
                    }
                } else {
                    d.shared_resources is None && d.catalog_id == ((self.max_id + 1) as u32, 0u16)
                }
                &&& d.max_id == d.catalog_id.0
            },
    {
        let mut w = self;
        let pages_id = match w.pages_id {
            Some(id) => id,
            None => {
                return Err(TuxPdfError::NoPagesCreated);
            },
        };
        let shared_resources = if w.uses_shared_resources {
            match w.resources_id {
                Some(id) => Some((id, false)),
                None => Some((w.insert_object(), true)),
            }
        } else {
            None
        };
        let entries = w.layers.entries_in_order();
        let mut ocgs: Vec<(u32, u16)> = Vec::new();
        let mut i: usize = 0;
        while i < entries.len()
            invariant
                i <= entries.len(),
                ocgs@ == entries@.take(i as int).map_values(|e: (String, WriterLayer)| e.1.ocg_id),
            decreases entries.len() - i,
        {
            ocgs.push(entries[i].1.ocg_id);
            assert(entries@.take(i + 1).map_values(|e: (String, WriterLayer)| e.1.ocg_id) =~= entries@.take(
                i as int,
            ).map_values(|e: (String, WriterLayer)| e.1.ocg_id).push(entries@[i as int].1.ocg_id));
            i = i + 1;
        }
        assert(entries@.take(entries@.len() as int) =~= entries@);
        let catalog_id = w.insert_object();
        let catalog = match w.catalog_extras {
            Some(c) => c,
            None => CatalogInfo { page_layout: crate::pdf_types::PageLayout::SinglePage, language: None, page_mode: crate::pdf_types::PageMode::UseNone },
        };
        Ok(FinishedDocument {
            pages_id,
            kids: w.pages,
            shared_resources,
            fonts: w.fonts,
            xobjects: w.xobjects,
            catalog,
            ocgs,
            catalog_id,
            info: w.info_dict,
            max_id: w.max_id,
        })
    }
}

} // verus!
