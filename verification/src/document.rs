//! A document being built: its metadata, the resources its pages share, and its pages.
use vstd::prelude::*;
use crate::conformance::{default_custom_features, PdfConformance};
use crate::font::BuiltinFont;
use crate::font_map::{all_alphanumeric, PdfFontMap};
use crate::pdf_types::{CatalogInfo, PageLayout, PageMode, PdfDocumentInfo, XmpMetadata};
use crate::resources::{inserted, LayerId, PageAnnotMap, PdfResources, XObject, XObjectId};

verus! {

/// What is known of a document beside its pages: its information, its XMP metadata (left out
/// on save when the conformance does not allow it) and the catalog settings.
#[derive(Debug, PartialEq, Clone)]
pub struct PdfMetadata {
    pub info: PdfDocumentInfo,
    pub xmp: Option<XmpMetadata>,
    pub catalog_info: CatalogInfo,
}

/// A document: its metadata, the resources shared between its pages, its bookmarks and its
/// pages of type `P`. `O` is the type of the operations of its layers.
#[derive(Debug, Clone)]
pub struct PdfDocument<P, O> {
    pub metadata: PdfMetadata,
    pub resources: PdfResources<O>,
    pub bookmarks: PageAnnotMap,
    /// The pages, in order.
    pub pages: Vec<P>,
}

impl<P, O> PdfDocument<P, O> {
    /// The pages, in order.
    pub open spec fn pages_spec(self) -> Seq<P> {
        self.pages@
    }

    /// Whether the resources' maps are well formed.
    pub open spec fn wf(self) -> bool {
        &&& self.resources.fonts.wf()
        &&& self.resources.xobjects.map.wf()
        &&& self.resources.layers.map.wf()
    }

    /// An empty document titled `name`: no pages, no resources, the default information
    /// (see `PdfDocumentInfo::with_title`) and catalog settings, no XMP metadata.
    pub fn new(name: String) -> (r: Self)
        ensures
            r.wf(),
            r.pages_spec().len() == 0,
            r.metadata.info.document_title@ == name@,
            r.metadata.info.producer matches Some(p) && p@ == "tux-pdf"@,
            r.metadata.info.trapped is None && r.metadata.info.version is None,
            r.metadata.info.author is None && r.metadata.info.creator is None,
            r.metadata.info.keywords@.len() == 0 && r.metadata.info.subject is None,
            r.metadata.info.conformance matches PdfConformance::Custom(c) && c.identifier is None
                && c.features@ == default_custom_features(),
            r.metadata.xmp is None,
            r.metadata.catalog_info == (CatalogInfo {
                page_layout: PageLayout::SinglePage,
                language: None,
                page_mode: PageMode::UseNone,
            }),
            r.resources.fonts.entries().len() == 0,
            r.resources.fonts.builtins().len() == 0,
            r.resources.xobjects.map.entries().len() == 0,
            r.resources.layers.map.entries().len() == 0,
            forall|id: Seq<char>| r.resources.fonts.font(id) is None,
            forall|b: BuiltinFont| !r.resources.fonts.has_builtin(b),
            forall|k: Seq<char>| r.resources.xobjects.map.get_spec(k) is None,
            forall|k: Seq<char>| r.resources.layers.map.get_spec(k) is None,
    {
        PdfDocument {
            metadata: PdfMetadata {
                info: PdfDocumentInfo::with_title(name),
                xmp: None,
                catalog_info: CatalogInfo {
                    page_layout: PageLayout::SinglePage,
                    language: None,
                    page_mode: PageMode::UseNone,
                },
            },
            resources: PdfResources::new(),
            bookmarks: PageAnnotMap {},
            pages: Vec::new(),
        }
    }

    /// The font map, to register fonts with.
    pub fn font_map(&mut self) -> (r: &mut PdfFontMap)
        ensures
            *r == old(self).resources.fonts,
            final(self).resources.fonts == *final(r),
            final(self).resources.xobjects == old(self).resources.xobjects,
            final(self).resources.layers == old(self).resources.layers,
            final(self).metadata == old(self).metadata,
            final(self).pages_spec() == old(self).pages_spec(),
    {
        &mut self.resources.fonts
    }

    /// Adds an external object under a new random id and returns the id.
    pub fn add_xobject(&mut self, xobject: XObject) -> (r: XObjectId)
        requires
            old(self).wf(),
        ensures
            final(self).wf(),
            r.0@.len() == 32,
            all_alphanumeric(r.0@),
            inserted(old(self).resources.xobjects.map, final(self).resources.xobjects.map, r.0@, xobject),
            final(self).resources.fonts == old(self).resources.fonts,
            final(self).resources.layers == old(self).resources.layers,
            final(self).metadata == old(self).metadata,
            final(self).pages_spec() == old(self).pages_spec(),
    {
        self.resources.xobjects.add_xobject(xobject)
    }

    /// Creates an empty layer named `name` under a new random id and returns the id.
    pub fn create_layer(&mut self, name: &str) -> (r: LayerId)
        requires
            old(self).wf(),
        ensures
            final(self).wf(),
            r.0@.len() == 32,
            all_alphanumeric(r.0@),
            final(self).resources.layers.map.get_spec(r.0@) matches Some(l) && l.name@ == name@
                && l.operations@.len() == 0,
            forall|k: Seq<char>| k != r.0@ ==> final(self).resources.layers.map.get_spec(k)
                == old(self).resources.layers.map.get_spec(k),
            final(self).resources.fonts == old(self).resources.fonts,
            final(self).resources.xobjects == old(self).resources.xobjects,
            final(self).metadata == old(self).metadata,
            final(self).pages_spec() == old(self).pages_spec(),
    {
        self.resources.layers.create_layer(name)
    }

    /// Appends a page.
    pub fn add_page(&mut self, page: P)
        ensures
            final(self).pages_spec() == old(self).pages_spec().push(page),
            final(self).resources == old(self).resources,
            final(self).metadata == old(self).metadata,
    {
        self.pages.push(page);
    }

    /// The pages, in order.
    pub fn pages(&self) -> (r: &[P])
        ensures
            r@ == self.pages_spec(),
    {
        self.pages.as_slice()
    }

    /// The document taken apart, to be written: its metadata, resources and pages.
    pub fn into_parts(self) -> (r: (PdfMetadata, PdfResources<O>, Vec<P>))
        ensures
            r.0 == self.metadata,
            r.1 == self.resources,
            r.2@ == self.pages_spec(),
    {
        (self.metadata, self.resources, self.pages)
    }
}

} // verus!
