//! The dictionaries of a document: font descriptors, fonts, pages, the page tree, the
//! catalog, resources and the document information.
use vstd::prelude::*;
use crate::pdf_object::{
    entries_view, integers, name, obj_view, objs_view, opt_entry, push_entry, push_item, references, ObjView,
    PdfObject,
};
use crate::cmap::{width_runs, width_runs_spec};
use crate::font_map::CidFontData;
use crate::writer::DocumentWriter;
use crate::image::{color_space_name_spec, PdfXObjectImage, ColorBits};
use crate::resources::{XObject, XObjectMap};
use vstd::utf8::encode_utf8;
use crate::pdf_types::{
    page_layout_name, page_mode_name, CatalogInfo, FontEncoding, FontFlags, PdfDocumentInfo, font_encoding_name,
};

verus! {

/// A font descriptor (section 9.8): the metrics and flags of a font, and its font file.
#[derive(Debug, Clone)]
pub struct FontDescriptor {
    pub font_name: String,
    pub font_family: Option<String>,
    pub font_stretch: Option<String>,
    pub font_weight: Option<i64>,
    pub flags: FontFlags,
    pub font_b_box: Option<Vec<i64>>,
    pub italic_angle: i64,
    pub ascent: i64,
    pub descent: i64,
    pub leading: Option<i64>,
    pub cap_height: Option<i64>,
    pub x_height: Option<i64>,
    pub stem_v: Option<i64>,
    pub stem_h: Option<i64>,
    pub avg_width: Option<i64>,
    pub max_width: Option<i64>,
    pub missing_width: Option<i64>,
    pub font_file1: Option<(u32, u16)>,
    pub font_file2: Option<(u32, u16)>,
    pub font_file3: Option<(u32, u16)>,
    pub char_set: Option<String>,
}

/// An optional name, as a view.
pub open spec fn opt_name(v: Option<String>) -> Option<ObjView> {
    match v {
        Some(s) => Some(ObjView::Name(s@)),
        None => None,
    }
}

/// An optional integer, as a view.
pub open spec fn opt_int(v: Option<i64>) -> Option<ObjView> {
    match v {
        Some(i) => Some(ObjView::Integer(i as int)),
        None => None,
    }
}

/// An optional reference, as a view.
pub open spec fn opt_ref(v: Option<(u32, u16)>) -> Option<ObjView> {
    match v {
        Some(id) => Some(ObjView::Reference(id.0, id.1)),
        None => None,
    }
}

/// The entries of a font descriptor's dictionary, in order: the required ones, then each
/// optional one that is set.
pub open spec fn font_descriptor_entries(d: FontDescriptor) -> Seq<(Seq<char>, ObjView)> {
    seq![
        ("Type"@, ObjView::Name("FontDescriptor"@)),
        ("FontName"@, ObjView::Name(d.font_name@)),
        ("Flags"@, ObjView::Integer(d.flags.spec_bits() as int)),
        ("ItalicAngle"@, ObjView::Integer(d.italic_angle as int)),
        ("Ascent"@, ObjView::Integer(d.ascent as int)),
        ("Descent"@, ObjView::Integer(d.descent as int)),
    ] + opt_entry("FontFamily"@, opt_name(d.font_family)) + opt_entry("FontStretch"@, opt_name(d.font_stretch))
        + opt_entry("FontWeight"@, opt_int(d.font_weight)) + opt_entry(
        "FontBBox"@,
        match d.font_b_box {
            Some(b) => Some(ObjView::Array(b@.map_values(|v: i64| ObjView::Integer(v as int)))),
            None => None,
        },
    ) + opt_entry("Leading"@, opt_int(d.leading)) + opt_entry("CapHeight"@, opt_int(d.cap_height)) + opt_entry(
        "XHeight"@,
        opt_int(d.x_height),
    ) + opt_entry("StemV"@, opt_int(d.stem_v)) + opt_entry("StemH"@, opt_int(d.stem_h)) + opt_entry(
        "AvgWidth"@,
        opt_int(d.avg_width),
    ) + opt_entry("MaxWidth"@, opt_int(d.max_width)) + opt_entry("MissingWidth"@, opt_int(d.missing_width))
        + opt_entry("FontFile"@, opt_ref(d.font_file1)) + opt_entry("FontFile2"@, opt_ref(d.font_file2))
        + opt_entry("FontFile3"@, opt_ref(d.font_file3)) + opt_entry("CharSet"@, opt_name(d.char_set))
}

/// Appends an optional name entry.
fn push_opt_name(dict: &mut Vec<(String, PdfObject)>, key: &str, v: &Option<String>)
    ensures
        entries_view(final(dict)@) == entries_view(old(dict)@) + opt_entry(key@, opt_name(*v)),
{
    match v {
        Some(s) => push_entry(dict, key, name(s.as_str())),
        None => {},
    }
    assert(entries_view(dict@) =~= entries_view(old(dict)@) + opt_entry(key@, opt_name(*v)));
}

/// Appends an optional integer entry.
fn push_opt_int(dict: &mut Vec<(String, PdfObject)>, key: &str, v: Option<i64>)
    ensures
        entries_view(final(dict)@) == entries_view(old(dict)@) + opt_entry(key@, opt_int(v)),
{
    match v {
        Some(i) => push_entry(dict, key, PdfObject::Integer(i)),
        None => {},
    }
    assert(entries_view(dict@) =~= entries_view(old(dict)@) + opt_entry(key@, opt_int(v)));
}

/// Appends an optional reference entry.
fn push_opt_ref(dict: &mut Vec<(String, PdfObject)>, key: &str, v: Option<(u32, u16)>)
    ensures
        entries_view(final(dict)@) == entries_view(old(dict)@) + opt_entry(key@, opt_ref(v)),
{
    match v {
        Some(id) => push_entry(dict, key, PdfObject::Reference(id.0, id.1)),
        None => {},
    }
    assert(entries_view(dict@) =~= entries_view(old(dict)@) + opt_entry(key@, opt_ref(v)));
}

impl FontDescriptor {
    /// The descriptor's dictionary: type, name, flags, italic angle, ascent and descent, then
    /// each optional entry that is set.
    pub fn into_dictionary(&self) -> (r: Vec<(String, PdfObject)>)
        ensures
            entries_view(r@) == font_descriptor_entries(*self),
    {
        let mut dict: Vec<(String, PdfObject)> = Vec::new();
        push_entry(&mut dict, "Type", name("FontDescriptor"));
        push_entry(&mut dict, "FontName", name(self.font_name.as_str()));
        push_entry(&mut dict, "Flags", PdfObject::Integer(self.flags.bits()));
        push_entry(&mut dict, "ItalicAngle", PdfObject::Integer(self.italic_angle));
        push_entry(&mut dict, "Ascent", PdfObject::Integer(self.ascent));
        push_entry(&mut dict, "Descent", PdfObject::Integer(self.descent));
        let ghost head = entries_view(dict@);
        assert(head =~= seq![
            ("Type"@, ObjView::Name("FontDescriptor"@)),
            ("FontName"@, ObjView::Name(self.font_name@)),
            ("Flags"@, ObjView::Integer(self.flags.spec_bits() as int)),
            ("ItalicAngle"@, ObjView::Integer(self.italic_angle as int)),
            ("Ascent"@, ObjView::Integer(self.ascent as int)),
            ("Descent"@, ObjView::Integer(self.descent as int)),
        ]);
        push_opt_name(&mut dict, "FontFamily", &self.font_family);
        push_opt_name(&mut dict, "FontStretch", &self.font_stretch);
        push_opt_int(&mut dict, "FontWeight", self.font_weight);
        let ghost before_bbox = entries_view(dict@);
        match &self.font_b_box {
            Some(b) => push_entry(&mut dict, "FontBBox", integers(b)),
            None => {},
        }
        assert(entries_view(dict@) =~= before_bbox + opt_entry(
            "FontBBox"@,
            match self.font_b_box {
                Some(b) => Some(ObjView::Array(b@.map_values(|v: i64| ObjView::Integer(v as int)))),
                None => None,
            },
        ));
        push_opt_int(&mut dict, "Leading", self.leading);
        push_opt_int(&mut dict, "CapHeight", self.cap_height);
        push_opt_int(&mut dict, "XHeight", self.x_height);
        push_opt_int(&mut dict, "StemV", self.stem_v);
        push_opt_int(&mut dict, "StemH", self.stem_h);
        push_opt_int(&mut dict, "AvgWidth", self.avg_width);
        push_opt_int(&mut dict, "MaxWidth", self.max_width);
        push_opt_int(&mut dict, "MissingWidth", self.missing_width);
        push_opt_ref(&mut dict, "FontFile", self.font_file1);
        push_opt_ref(&mut dict, "FontFile2", self.font_file2);
        push_opt_ref(&mut dict, "FontFile3", self.font_file3);
        push_opt_name(&mut dict, "CharSet", &self.char_set);
        assert(entries_view(dict@) =~= font_descriptor_entries(*self));
        dict
    }
}

} // verus!

verus! {

/// The view of an optional array.
pub open spec fn opt_array(v: Option<Vec<PdfObject>>) -> Option<ObjView> {
    match v {
        Some(a) => Some(ObjView::Array(objs_view(a@))),
        None => None,
    }
}

/// Appends an optional array entry.
fn push_opt_array(dict: &mut Vec<(String, PdfObject)>, key: &str, v: Option<Vec<PdfObject>>)
    ensures
        entries_view(final(dict)@) == entries_view(old(dict)@) + opt_entry(key@, opt_array(v)),
{
    let ghost gv = v;
    match v {
        Some(a) => push_entry(dict, key, PdfObject::Array(a)),
        None => {},
    }
    assert(entries_view(dict@) =~= entries_view(old(dict)@) + opt_entry(key@, opt_array(gv)));
}

/// A font's subtype: its name, and the entries it adds to the font dictionary.
pub trait FontSubType: Sized {
    /// The subtype's name.
    spec fn sub_type_spec(&self) -> Seq<char>;

    /// The entries the subtype adds.
    spec fn entries_spec(self) -> Seq<(Seq<char>, ObjView)>;

    /// The subtype's name.
    fn sub_type(&self) -> (r: &'static str)
        ensures
            r@ == self.sub_type_spec(),
    ;

    /// Adds the subtype's entries to a font dictionary.
    fn write_to_dictionary(self, dict: &mut Vec<(String, PdfObject)>)
        ensures
            entries_view(final(dict)@) == entries_view(old(dict)@) + self.entries_spec(),
    ;
}

impl FontSubType for crate::pdf_types::BuiltinFontSubType {
    open spec fn sub_type_spec(&self) -> Seq<char> {
        "Type1"@
    }

    open spec fn entries_spec(self) -> Seq<(Seq<char>, ObjView)> {
        Seq::empty()
    }

    fn sub_type(&self) -> (r: &'static str) {
        "Type1"
    }

    /// A built-in font adds nothing.
    fn write_to_dictionary(self, dict: &mut Vec<(String, PdfObject)>) {
        assert(entries_view(dict@) =~= entries_view(dict@) + Seq::<(Seq<char>, ObjView)>::empty());
    }
}

/// A Type 1 font that is not built in (section 9.6.2).
#[derive(Debug)]
pub struct Type1Font {
    pub first_char: i64,
    pub last_char: i64,
    pub widths: Vec<PdfObject>,
    pub font_descriptor: (u32, u16),
}

impl FontSubType for Type1Font {
    open spec fn sub_type_spec(&self) -> Seq<char> {
        "Type1"@
    }

    open spec fn entries_spec(self) -> Seq<(Seq<char>, ObjView)> {
        seq![
            ("FirstChar"@, ObjView::Integer(self.first_char as int)),
            ("LastChar"@, ObjView::Integer(self.last_char as int)),
            ("Widths"@, ObjView::Array(objs_view(self.widths@))),
            ("FontDescriptor"@, ObjView::Reference(self.font_descriptor.0, self.font_descriptor.1)),
        ]
    }

    fn sub_type(&self) -> (r: &'static str) {
        "Type1"
    }

    fn write_to_dictionary(self, dict: &mut Vec<(String, PdfObject)>) {
        let ghost start = entries_view(dict@);
        let ghost me = self;
        push_entry(dict, "FirstChar", PdfObject::Integer(self.first_char));
        push_entry(dict, "LastChar", PdfObject::Integer(self.last_char));
        push_entry(dict, "Widths", PdfObject::Array(self.widths));
        push_entry(dict, "FontDescriptor", PdfObject::Reference(self.font_descriptor.0, self.font_descriptor.1));
        assert(entries_view(dict@) =~= start + me.entries_spec());
    }
}

/// A composite font (section 9.7): its descendant font dictionaries and its ToUnicode map.
#[derive(Debug)]
pub struct Type0Font {
    /// The descendant fonts, each a dictionary object.
    pub descendant_fonts: Vec<PdfObject>,
    pub to_unicode: Option<(u32, u16)>,
}

impl FontSubType for Type0Font {
    open spec fn sub_type_spec(&self) -> Seq<char> {
        "Type0"@
    }

    open spec fn entries_spec(self) -> Seq<(Seq<char>, ObjView)> {
        seq![("DescendantFonts"@, ObjView::Array(objs_view(self.descendant_fonts@)))] + opt_entry(
            "ToUnicode"@,
            opt_ref(self.to_unicode),
        )
    }

    fn sub_type(&self) -> (r: &'static str) {
        "Type0"
    }

    fn write_to_dictionary(self, dict: &mut Vec<(String, PdfObject)>) {
        let ghost start = entries_view(dict@);
        let ghost me = self;
        push_entry(dict, "DescendantFonts", PdfObject::Array(self.descendant_fonts));
        push_opt_ref(dict, "ToUnicode", self.to_unicode);
        assert(entries_view(dict@) =~= start + me.entries_spec());
    }
}

/// The character collection of a CID font, as a dictionary.
pub open spec fn cid_system_info_entries(info: crate::pdf_types::CIDSystemInfo) -> Seq<(Seq<char>, ObjView)> {
    seq![
        ("Registry"@, ObjView::Text(info.registry@)),
        ("Ordering"@, ObjView::Text(info.ordering@)),
        ("Supplement"@, ObjView::Integer(info.supplement as int)),
    ]
}

impl crate::pdf_types::CIDSystemInfo {
    /// The dictionary: registry and ordering as strings, and the supplement.
    pub fn into_dictionary(&self) -> (r: Vec<(String, PdfObject)>)
        ensures
            entries_view(r@) == cid_system_info_entries(*self),
    {
        let mut dict: Vec<(String, PdfObject)> = Vec::new();
        push_entry(&mut dict, "Registry", PdfObject::Text(self.registry.clone()));
        push_entry(&mut dict, "Ordering", PdfObject::Text(self.ordering.clone()));
        push_entry(&mut dict, "Supplement", PdfObject::Integer(self.supplement));
        assert(entries_view(dict@) =~= cid_system_info_entries(*self));
        dict
    }
}

/// A CID font with TrueType glyphs (section 9.7.4).
#[derive(Debug)]
pub struct CidFontType2 {
    pub cid_system_info: crate::pdf_types::CIDSystemInfo,
    pub font_descriptor: (u32, u16),
    pub dw: Option<i64>,
    pub w: Option<Vec<PdfObject>>,
    pub dw2: Option<Vec<PdfObject>>,
    pub w2: Option<Vec<PdfObject>>,
    /// The name of the CID to glyph mapping (such as `Identity`).
    pub cid_to_gid_map: Option<String>,
}

impl FontSubType for CidFontType2 {
    open spec fn sub_type_spec(&self) -> Seq<char> {
        "CIDFontType2"@
    }

    open spec fn entries_spec(self) -> Seq<(Seq<char>, ObjView)> {
        seq![
            ("CIDSystemInfo"@, ObjView::Dictionary(cid_system_info_entries(self.cid_system_info))),
            ("FontDescriptor"@, ObjView::Reference(self.font_descriptor.0, self.font_descriptor.1)),
        ] + opt_entry("DW"@, opt_int(self.dw)) + opt_entry("W"@, opt_array(self.w)) + opt_entry(
            "DW2"@,
            opt_array(self.dw2),
        ) + opt_entry("W2"@, opt_array(self.w2)) + opt_entry("CIDToGIDMap"@, opt_name(self.cid_to_gid_map))
    }

    fn sub_type(&self) -> (r: &'static str) {
        "CIDFontType2"
    }

    fn write_to_dictionary(self, dict: &mut Vec<(String, PdfObject)>) {
        let ghost start = entries_view(dict@);
        let ghost me = self;
        push_entry(dict, "CIDSystemInfo", PdfObject::Dictionary(self.cid_system_info.into_dictionary()));
        push_entry(dict, "FontDescriptor", PdfObject::Reference(self.font_descriptor.0, self.font_descriptor.1));
        push_opt_int(dict, "DW", self.dw);
        push_opt_array(dict, "W", self.w);
        push_opt_array(dict, "DW2", self.dw2);
        push_opt_array(dict, "W2", self.w2);
        push_opt_name(dict, "CIDToGIDMap", &self.cid_to_gid_map);
        assert(entries_view(dict@) =~= start + me.entries_spec());
    }
}

/// A font dictionary: the subtype, the encoding and the base font name.
#[derive(Debug)]
pub struct FontObject<S> {
    pub sub_type: S,
    pub encoding: Option<FontEncoding>,
    pub base_font: String,
}

/// The view of an optional encoding.
pub open spec fn opt_encoding(e: Option<FontEncoding>) -> Option<ObjView> {
    match e {
        Some(e) => Some(ObjView::Name(font_encoding_name(e))),
        None => None,
    }
}

impl<S: FontSubType> FontObject<S> {
    /// The font's dictionary: type, subtype, base font, the encoding if set, then the
    /// subtype's entries.
    pub fn into_dictionary(self) -> (r: Vec<(String, PdfObject)>)
        ensures
            entries_view(r@) == seq![
                ("Type"@, ObjView::Name("Font"@)),
                ("Subtype"@, ObjView::Name(self.sub_type.sub_type_spec())),
                ("BaseFont"@, ObjView::Name(self.base_font@)),
            ] + opt_entry("Encoding"@, opt_encoding(self.encoding)) + self.sub_type.entries_spec(),
    {
        let ghost me = self;
        let mut dict: Vec<(String, PdfObject)> = Vec::new();
        push_entry(&mut dict, "Type", name("Font"));
        push_entry(&mut dict, "Subtype", name(self.sub_type.sub_type()));
        push_entry(&mut dict, "BaseFont", name(self.base_font.as_str()));
        let ghost head = entries_view(dict@);
        match self.encoding {
            Some(e) => push_entry(&mut dict, "Encoding", name(e.name())),
            None => {},
        }
        assert(entries_view(dict@) =~= head + opt_entry("Encoding"@, opt_encoding(me.encoding)));
        let ghost mid = entries_view(dict@);
        self.sub_type.write_to_dictionary(&mut dict);
        assert(entries_view(dict@) =~= seq![
            ("Type"@, ObjView::Name("Font"@)),
            ("Subtype"@, ObjView::Name(me.sub_type.sub_type_spec())),
            ("BaseFont"@, ObjView::Name(me.base_font@)),
        ] + opt_entry("Encoding"@, opt_encoding(me.encoding)) + me.sub_type.entries_spec());
        dict
    }
}

} // verus!

verus! {

/// A page object (section 7.7.3.3).
#[derive(Debug)]
pub struct Page {
    pub contents_id: (u32, u16),
    pub parent_id: (u32, u16),
    pub resources_id: (u32, u16),
    pub media_box: Vec<PdfObject>,
    pub crop_box: Option<Vec<PdfObject>>,
    pub art_box: Option<Vec<PdfObject>>,
    pub bleed_box: Option<Vec<PdfObject>>,
    pub trim_box: Option<Vec<PdfObject>>,
    pub rotation: Option<PdfObject>,
}

/// The entries of a page's dictionary.
pub open spec fn page_entries(p: Page) -> Seq<(Seq<char>, ObjView)> {
    seq![
        ("Type"@, ObjView::Name("Page"@)),
        ("Parent"@, ObjView::Reference(p.parent_id.0, p.parent_id.1)),
        ("Resources"@, ObjView::Reference(p.resources_id.0, p.resources_id.1)),
        ("MediaBox"@, ObjView::Array(objs_view(p.media_box@))),
        ("Contents"@, ObjView::Reference(p.contents_id.0, p.contents_id.1)),
    ] + opt_entry("CropBox"@, opt_array(p.crop_box)) + opt_entry("ArtBox"@, opt_array(p.art_box)) + opt_entry(
        "BleedBox"@,
        opt_array(p.bleed_box),
    ) + opt_entry("TrimBox"@, opt_array(p.trim_box)) + opt_entry(
        "Rotate"@,
        match p.rotation {
            Some(r) => Some(obj_view(r)),
            None => None,
        },
    )
}

impl Page {
    /// The page's dictionary: type, parent, resources, media box and contents, then each
    /// box and the rotation that is set.
    pub fn into_dictionary(self) -> (r: Vec<(String, PdfObject)>)
        ensures
            entries_view(r@) == page_entries(self),
    {
        let ghost me = self;
        let mut dict: Vec<(String, PdfObject)> = Vec::new();
        push_entry(&mut dict, "Type", name("Page"));
        push_entry(&mut dict, "Parent", PdfObject::Reference(self.parent_id.0, self.parent_id.1));
        push_entry(&mut dict, "Resources", PdfObject::Reference(self.resources_id.0, self.resources_id.1));
        push_entry(&mut dict, "MediaBox", PdfObject::Array(self.media_box));
        push_entry(&mut dict, "Contents", PdfObject::Reference(self.contents_id.0, self.contents_id.1));
        push_opt_array(&mut dict, "CropBox", self.crop_box);
        push_opt_array(&mut dict, "ArtBox", self.art_box);
        push_opt_array(&mut dict, "BleedBox", self.bleed_box);
        push_opt_array(&mut dict, "TrimBox", self.trim_box);
        match self.rotation {
            Some(r) => push_entry(&mut dict, "Rotate", r),
            None => {},
        }
        assert(entries_view(dict@) =~= page_entries(me));
        dict
    }
}

/// The page tree (section 7.7.3.2): the pages, as references.
#[derive(Debug, Clone, PartialEq)]
pub struct PagesObject {
    pub kids: Vec<(u32, u16)>,
}

impl PagesObject {
    /// The page tree's dictionary: type, the kids, and their count.
    pub fn into_dictionary(&self) -> (r: Vec<(String, PdfObject)>)
        requires
            self.kids@.len() <= i64::MAX,
        ensures
            entries_view(r@) == seq![
                ("Type"@, ObjView::Name("Pages"@)),
                ("Kids"@, ObjView::Array(self.kids@.map_values(|id: (u32, u16)| ObjView::Reference(id.0, id.1)))),
                ("Count"@, ObjView::Integer(self.kids@.len() as int)),
            ],
    {
        let mut dict: Vec<(String, PdfObject)> = Vec::new();
        push_entry(&mut dict, "Type", name("Pages"));
        push_entry(&mut dict, "Kids", references(&self.kids));
        let n = self.kids.len();
        push_entry(&mut dict, "Count", PdfObject::Integer(n as i64));
        dict
    }
}

/// The document catalog (table 28).
#[derive(Debug, PartialEq)]
pub struct CatalogObject {
    pub pages: (u32, u16),
    pub page_layout: crate::pdf_types::PageLayout,
    pub page_mode: crate::pdf_types::PageMode,
    pub language: Option<String>,
}

/// The view of an optional text.
pub open spec fn opt_text(v: Option<String>) -> Option<ObjView> {
    match v {
        Some(s) => Some(ObjView::Text(s@)),
        None => None,
    }
}

impl CatalogObject {
    /// The catalog's dictionary: type, pages, page layout, page mode, and the language if set.
    pub fn into_dictionary(&self) -> (r: Vec<(String, PdfObject)>)
        ensures
            entries_view(r@) == seq![
                ("Type"@, ObjView::Name("Catalog"@)),
                ("Pages"@, ObjView::Reference(self.pages.0, self.pages.1)),
                ("PageLayout"@, ObjView::Name(page_layout_name(self.page_layout))),
                ("PageMode"@, ObjView::Name(page_mode_name(self.page_mode))),
            ] + opt_entry("Lang"@, opt_text(self.language)),
    {
        let mut dict: Vec<(String, PdfObject)> = Vec::new();
        push_entry(&mut dict, "Type", name("Catalog"));
        push_entry(&mut dict, "Pages", PdfObject::Reference(self.pages.0, self.pages.1));
        push_entry(&mut dict, "PageLayout", name(self.page_layout.name()));
        push_entry(&mut dict, "PageMode", name(self.page_mode.name()));
        let ghost head = entries_view(dict@);
        match &self.language {
            Some(l) => push_entry(&mut dict, "Lang", PdfObject::Text(l.clone())),
            None => {},
        }
        assert(entries_view(dict@) =~= head + opt_entry("Lang"@, opt_text(self.language)));
        dict
    }
}

impl CatalogInfo {
    /// The catalog for a page tree, with these settings.
    pub fn create_catalog_object(self, pages: (u32, u16)) -> (r: CatalogObject)
        ensures
            r.pages == pages,
            r.page_layout == self.page_layout,
            r.page_mode == self.page_mode,
            r.language == self.language,
    {
        CatalogObject { pages, page_layout: self.page_layout, language: self.language, page_mode: self.page_mode }
    }
}

/// The resources of a page: its font dictionary.
#[derive(Debug)]
pub struct Resources {
    pub font: Option<Vec<(String, PdfObject)>>,
}

impl Resources {
    /// The resources' dictionary: the fonts, if any.
    pub fn into_dictionary(self) -> (r: Vec<(String, PdfObject)>)
        ensures
            entries_view(r@) == opt_entry(
                "Font"@,
                match self.font {
                    Some(f) => Some(ObjView::Dictionary(entries_view(f@))),
                    None => None,
                },
            ),
    {
        let ghost me = self;
        let mut dict: Vec<(String, PdfObject)> = Vec::new();
        match self.font {
            Some(f) => push_entry(&mut dict, "Font", PdfObject::Dictionary(f)),
            None => {},
        }
        assert(entries_view(dict@) =~= opt_entry(
            "Font"@,
            match me.font {
                Some(f) => Some(ObjView::Dictionary(entries_view(f@))),
                None => None,
            },
        ));
        dict
    }
}

/// The entries of the document information dictionary.
pub open spec fn document_info_entries(info: PdfDocumentInfo, creation_date: Option<Seq<char>>) -> Seq<
    (Seq<char>, ObjView),
> {
    seq![("Title"@, ObjView::Text(info.document_title@))] + opt_entry("Author"@, opt_text(info.author))
        + opt_entry("Creator"@, opt_text(info.creator)) + opt_entry("Subject"@, opt_text(info.subject))
        + opt_entry("Producer"@, opt_text(info.producer)) + opt_entry(
        "CreationDate"@,
        match creation_date {
            Some(d) => Some(ObjView::Text(d)),
            None => None,
        },
    ) + opt_entry(
        "Trapped"@,
        match info.trapped {
            Some(t) => Some(ObjView::Boolean(t)),
            None => None,
        },
    )
}

/// Appends an optional text entry.
fn push_opt_text(dict: &mut Vec<(String, PdfObject)>, key: &str, v: &Option<String>)
    ensures
        entries_view(final(dict)@) == entries_view(old(dict)@) + opt_entry(key@, opt_text(*v)),
{
    match v {
        Some(s) => push_entry(dict, key, PdfObject::Text(s.clone())),
        None => {},
    }
    assert(entries_view(dict@) =~= entries_view(old(dict)@) + opt_entry(key@, opt_text(*v)));
}

impl PdfDocumentInfo {
    /// The document information dictionary: the title, then author, creator, subject,
    /// producer, creation date (already in the PDF date format) and trapped, where set.
    pub fn into_dictionary(&self, creation_date: Option<String>) -> (r: Vec<(String, PdfObject)>)
        ensures
            entries_view(r@) == document_info_entries(
                *self,
                match creation_date {
                    Some(d) => Some(d@),
                    None => None,
                },
            ),
    {
        let ghost date = match &creation_date {
            Some(d) => Some(d@),
            None => None::<Seq<char>>,
        };
        let mut dict: Vec<(String, PdfObject)> = Vec::new();
        push_entry(&mut dict, "Title", PdfObject::Text(self.document_title.clone()));
        push_opt_text(&mut dict, "Author", &self.author);
        push_opt_text(&mut dict, "Creator", &self.creator);
        push_opt_text(&mut dict, "Subject", &self.subject);
        push_opt_text(&mut dict, "Producer", &self.producer);
        push_opt_text(&mut dict, "CreationDate", &creation_date);
        match self.trapped {
            Some(t) => push_entry(&mut dict, "Trapped", PdfObject::Boolean(t)),
            None => {},
        }
        assert(entries_view(dict@) =~= document_info_entries(*self, date));
        dict
    }
}

} // verus!

verus! {

/// The `W` array of a CID font for width runs: each run's first glyph id, then its widths.
pub open spec fn w_array(runs: Seq<(nat, Seq<i64>)>) -> Seq<ObjView>
    decreases runs.len(),
{
    if runs.len() == 0 {
        Seq::empty()
    } else {
        w_array(runs.drop_last()) + seq![
            ObjView::Integer(runs.last().0 as int),
            ObjView::Array(runs.last().1.map_values(|v: i64| ObjView::Integer(v as int))),
        ]
    }
}

/// The descriptor of an embedded TrueType font: italic flag, metrics, the bounding box
/// `[0, max height, total width, max height]`, a vertical stem of 80 and the font file.
pub open spec fn embedded_descriptor_entries(data: CidFontData, font_file: (u32, u16)) -> Seq<(Seq<char>, ObjView)> {
    seq![
        ("Type"@, ObjView::Name("FontDescriptor"@)),
        ("FontName"@, ObjView::Name(data.font_name@)),
        ("Flags"@, ObjView::Integer(32)),
        ("ItalicAngle"@, ObjView::Integer(data.italic_angle as int)),
        ("Ascent"@, ObjView::Integer(data.ascent as int)),
        ("Descent"@, ObjView::Integer(data.descent as int)),
        ("FontBBox"@, ObjView::Array(seq![
            ObjView::Integer(0),
            ObjView::Integer(data.max_height as int),
            ObjView::Integer(data.total_width as int),
            ObjView::Integer(data.max_height as int),
        ])),
        ("CapHeight"@, ObjView::Integer(data.ascent as int)),
        ("StemV"@, ObjView::Integer(80)),
        ("FontFile2"@, ObjView::Reference(font_file.0, font_file.1)),
    ]
}

/// The CID font (`CIDFontType2`) of an embedded font: Adobe-Identity-0 characters, default
/// width 1000 and the given `W` array.
pub open spec fn cid_font_entries(data: CidFontData, descriptor: (u32, u16), w: Seq<ObjView>) -> Seq<(Seq<char>, ObjView)> {
    seq![
        ("Type"@, ObjView::Name("Font"@)),
        ("Subtype"@, ObjView::Name("CIDFontType2"@)),
        ("BaseFont"@, ObjView::Name(data.font_name@)),
        ("CIDSystemInfo"@, ObjView::Dictionary(seq![
            ("Registry"@, ObjView::Text("Adobe"@)),
            ("Ordering"@, ObjView::Text("Identity"@)),
            ("Supplement"@, ObjView::Integer(0)),
        ])),
        ("FontDescriptor"@, ObjView::Reference(descriptor.0, descriptor.1)),
        ("DW"@, ObjView::Integer(1000)),
        ("W"@, ObjView::Array(w)),
    ]
}

/// The composite (`Type0`) font of an embedded font, with `Identity-H` encoding.
pub open spec fn type0_font_entries(data: CidFontData, cid_font: Seq<(Seq<char>, ObjView)>, to_unicode: (u32, u16)) -> Seq<
    (Seq<char>, ObjView),
> {
    seq![
        ("Type"@, ObjView::Name("Font"@)),
        ("Subtype"@, ObjView::Name("Type0"@)),
        ("BaseFont"@, ObjView::Name(data.font_name@)),
        ("Encoding"@, ObjView::Name("Identity-H"@)),
        ("DescendantFonts"@, ObjView::Array(seq![ObjView::Dictionary(cid_font)])),
        ("ToUnicode"@, ObjView::Reference(to_unicode.0, to_unicode.1)),
    ]
}

/// Law of the embedded font's encoding: the Type0 font dictionary of an embedded font has the
/// horizontal identity encoding (`Identity-H`), the one for two-byte glyph ids written left to
/// right: it has that entry, and every entry under `Encoding` is that.
pub proof fn law_embedded_font_is_identity_h(data: CidFontData, cid_font: Seq<(Seq<char>, ObjView)>, to_unicode: (u32, u16))
    ensures
        exists|i: int|
            0 <= i < type0_font_entries(data, cid_font, to_unicode).len() && #[trigger] type0_font_entries(
                data,
                cid_font,
                to_unicode,
            )[i] == ("Encoding"@, ObjView::Name(font_encoding_name(FontEncoding::IdentityH))),
        forall|j: int|
            0 <= j < type0_font_entries(data, cid_font, to_unicode).len() && (#[trigger] type0_font_entries(
                data,
                cid_font,
                to_unicode,
            )[j]).0 == "Encoding"@ ==> type0_font_entries(data, cid_font, to_unicode)[j].1 == ObjView::Name(
                font_encoding_name(FontEncoding::IdentityH),
            ),
{
    reveal_strlit("Encoding");
    reveal_strlit("Identity-H");
    reveal_strlit("Type");
    reveal_strlit("Subtype");
    reveal_strlit("BaseFont");
    reveal_strlit("DescendantFonts");
    reveal_strlit("ToUnicode");
    let es = type0_font_entries(data, cid_font, to_unicode);
    assert(es[3] == ("Encoding"@, ObjView::Name(font_encoding_name(FontEncoding::IdentityH))));
    assert forall|j: int| 0 <= j < es.len() && (#[trigger] es[j]).0 == "Encoding"@ implies es[j].1 == ObjView::Name(
        font_encoding_name(FontEncoding::IdentityH),
    ) by {
        if j != 3 {
            assert(es[j].0[0] != "Encoding"@[0]);
        }
    }
}

/// Whether `objects` and `dict` are the objects of an embedded font made of `data` and its
/// font dictionary, with the object ids from `m + 1` on: the ToUnicode CMap stream, the font
/// file stream (not to be compressed, with its length) and the font descriptor; `widths` are
/// the glyph widths scaled to a 1000-unit em, by glyph id.
pub open spec fn embedded_font_objects(
    data: CidFontData,
    font_bytes: Seq<u8>,
    widths: Seq<Option<i64>>,
    m: u32,
    objects: Seq<((u32, u16), PdfObject)>,
    dict: Seq<(String, PdfObject)>,
) -> bool {
    let to_unicode = ((m + 1) as u32, 0u16);
    let font_file = ((m + 2) as u32, 0u16);
    let descriptor = ((m + 3) as u32, 0u16);
    let w = w_array(width_runs_spec(widths));
    &&& objects.len() == 3
    &&& objects[0].0 == to_unicode
    &&& obj_view(objects[0].1) == ObjView::Stream(Seq::empty(), encode_utf8(data.to_unicode@), true)
    &&& objects[1].0 == font_file
    &&& obj_view(objects[1].1) == ObjView::Stream(
        seq![("Length1"@, ObjView::Integer(font_bytes.len() as int))],
        font_bytes,
        false,
    )
    &&& objects[2].0 == descriptor
    &&& obj_view(objects[2].1) == ObjView::Dictionary(embedded_descriptor_entries(data, font_file))
    &&& entries_view(dict) == type0_font_entries(data, cid_font_entries(data, descriptor, w), to_unicode)
}

impl CidFontData {
    /// The font dictionary of an embedded font, and the objects it refers to, which the
    /// writer hands out ids for: the ToUnicode CMap stream, the font file stream (not to be
    /// compressed, with its length), and the font descriptor. `widths` are the glyph widths
    /// scaled to a 1000-unit em, by glyph id.
    pub fn dictionary(&self, font_bytes: &[u8], widths: &Vec<Option<i64>>, writer: &mut DocumentWriter) -> (r: (
        Vec<(String, PdfObject)>,
        Vec<((u32, u16), PdfObject)>,
    ))
        requires
            old(writer).max_id < u32::MAX - 3,
            widths.len() <= 65535,
            font_bytes@.len() <= i64::MAX,
        ensures
            final(writer).max_id == old(writer).max_id + 3,
            embedded_font_objects(*self, font_bytes@, widths@, old(writer).max_id, r.1@, r.0@),
            final(writer).layers == old(writer).layers,
            final(writer).fonts == old(writer).fonts,
            final(writer).xobjects == old(writer).xobjects,
            final(writer).pages == old(writer).pages,
            final(writer).pages_id == old(writer).pages_id,
            final(writer).uses_shared_resources == old(writer).uses_shared_resources,
            final(writer).resources_id == old(writer).resources_id,
            final(writer).info_dict == old(writer).info_dict,
            final(writer).catalog_extras == old(writer).catalog_extras,
    {
        let mut objects: Vec<((u32, u16), PdfObject)> = Vec::new();
        let cmap_bytes = vstd::slice::slice_to_vec(self.to_unicode.as_str().as_bytes());
        let to_unicode_id = writer.insert_object();
        objects.push((to_unicode_id, PdfObject::Stream(Vec::new(), cmap_bytes, true)));
        assert(entries_view(Seq::<(String, PdfObject)>::empty()) =~= Seq::empty());

        let runs = width_runs(widths);
        let mut w: Vec<PdfObject> = Vec::new();
        let mut i: usize = 0;
        while i < runs.len()
            invariant
                i <= runs.len(),
                runs@.map_values(|run: (u16, Vec<i64>)| (run.0 as nat, run.1@)) == width_runs_spec(widths@),
                objs_view(w@) == w_array(width_runs_spec(widths@).take(i as int)),
            decreases runs.len() - i,
        {
            let ghost spec_runs = width_runs_spec(widths@);
            let ghost before = objs_view(w@);
            push_item(&mut w, PdfObject::Integer(runs[i].0 as i64));
            push_item(&mut w, integers(&runs[i].1));
            proof {
                assert(spec_runs[i as int] == (runs@[i as int].0 as nat, runs@[i as int].1@));
                assert(spec_runs.take(i + 1).drop_last() =~= spec_runs.take(i as int));
                assert(objs_view(w@) =~= before + seq![
                    ObjView::Integer(runs@[i as int].0 as int),
                    ObjView::Array(runs@[i as int].1@.map_values(|v: i64| ObjView::Integer(v as int))),
                ]);
            }
            i = i + 1;
        }
        assert(width_runs_spec(widths@).take(runs.len() as int) =~= width_runs_spec(widths@));

        let mut length: Vec<(String, PdfObject)> = Vec::new();
        push_entry(&mut length, "Length1", PdfObject::Integer(font_bytes.len() as i64));
        let font_file_id = writer.insert_object();
        objects.push((font_file_id, PdfObject::Stream(length, vstd::slice::slice_to_vec(font_bytes), false)));

        let mut bbox: Vec<i64> = Vec::new();
        bbox.push(0);
        bbox.push(self.max_height as i64);
        bbox.push(self.total_width as i64);
        bbox.push(self.max_height as i64);
        let mut descriptor: Vec<(String, PdfObject)> = Vec::new();
        push_entry(&mut descriptor, "Type", name("FontDescriptor"));
        push_entry(&mut descriptor, "FontName", name(self.font_name.as_str()));
        push_entry(&mut descriptor, "Flags", PdfObject::Integer(crate::pdf_types::FontFlags::italic().bits()));
        push_entry(&mut descriptor, "ItalicAngle", PdfObject::Integer(self.italic_angle));
        push_entry(&mut descriptor, "Ascent", PdfObject::Integer(self.ascent as i64));
        push_entry(&mut descriptor, "Descent", PdfObject::Integer(self.descent as i64));
        push_entry(&mut descriptor, "FontBBox", integers(&bbox));
        push_entry(&mut descriptor, "CapHeight", PdfObject::Integer(self.ascent as i64));
        push_entry(&mut descriptor, "StemV", PdfObject::Integer(80));
        push_entry(&mut descriptor, "FontFile2", PdfObject::Reference(font_file_id.0, font_file_id.1));
        assert(bbox@.map_values(|v: i64| ObjView::Integer(v as int)) =~= seq![
            ObjView::Integer(0),
            ObjView::Integer(self.max_height as int),
            ObjView::Integer(self.total_width as int),
            ObjView::Integer(self.max_height as int),
        ]);
        assert(entries_view(descriptor@) =~= embedded_descriptor_entries(*self, font_file_id));
        let descriptor_id = writer.insert_object();
        objects.push((descriptor_id, PdfObject::Dictionary(descriptor)));

        let mut info: Vec<(String, PdfObject)> = Vec::new();
        push_entry(&mut info, "Registry", PdfObject::Text(String::from_str("Adobe")));
        push_entry(&mut info, "Ordering", PdfObject::Text(String::from_str("Identity")));
        push_entry(&mut info, "Supplement", PdfObject::Integer(0));
        let ghost info_view = entries_view(info@);
        assert(info_view =~= seq![
            ("Registry"@, ObjView::Text("Adobe"@)),
            ("Ordering"@, ObjView::Text("Identity"@)),
            ("Supplement"@, ObjView::Integer(0)),
        ]);
        let mut cid_font: Vec<(String, PdfObject)> = Vec::new();
        push_entry(&mut cid_font, "Type", name("Font"));
        push_entry(&mut cid_font, "Subtype", name("CIDFontType2"));
        push_entry(&mut cid_font, "BaseFont", name(self.font_name.as_str()));
        push_entry(&mut cid_font, "CIDSystemInfo", PdfObject::Dictionary(info));
        push_entry(&mut cid_font, "FontDescriptor", PdfObject::Reference(descriptor_id.0, descriptor_id.1));
        push_entry(&mut cid_font, "DW", PdfObject::Integer(1000));
        let ghost w_view = objs_view(w@);
        push_entry(&mut cid_font, "W", PdfObject::Array(w));
        let ghost cid_view = entries_view(cid_font@);
        assert(cid_view =~= cid_font_entries(*self, descriptor_id, w_view));

        let mut descendants: Vec<PdfObject> = Vec::new();
        push_item(&mut descendants, PdfObject::Dictionary(cid_font));
        let mut font: Vec<(String, PdfObject)> = Vec::new();
        push_entry(&mut font, "Type", name("Font"));
        push_entry(&mut font, "Subtype", name("Type0"));
        push_entry(&mut font, "BaseFont", name(self.font_name.as_str()));
        push_entry(&mut font, "Encoding", name("Identity-H"));
        push_entry(&mut font, "DescendantFonts", PdfObject::Array(descendants));
        push_entry(&mut font, "ToUnicode", PdfObject::Reference(to_unicode_id.0, to_unicode_id.1));
        assert(entries_view(font@) =~= type0_font_entries(*self, cid_view, to_unicode_id));
        (font, objects)
    }
}

/// The number of bits of a component.
pub open spec fn color_bits_count(b: ColorBits) -> int {
    match b {
        ColorBits::Bit8 => 8,
        ColorBits::Bit16 => 16,
    }
}

/// The bounding box of an image that is not clipped: the identity matrix `[1 0 0 1 0 0]`.
pub open spec fn identity_matrix() -> Seq<ObjView> {
    seq![
        ObjView::Integer(1),
        ObjView::Integer(0),
        ObjView::Integer(0),
        ObjView::Integer(1),
        ObjView::Integer(0),
        ObjView::Integer(0),
    ]
}

/// The stream dictionary of an image XObject (section 8.9.5).
pub open spec fn image_stream_entries(img: PdfXObjectImage) -> Seq<(Seq<char>, ObjView)> {
    seq![
        ("Type"@, ObjView::Name("XObject"@)),
        ("Subtype"@, ObjView::Name("Image"@)),
        ("Width"@, ObjView::Integer(img.size.width as int)),
        ("Height"@, ObjView::Integer(img.size.height as int)),
        ("ColorSpace"@, ObjView::Name(color_space_name_spec(img.color_space))),
        ("BitsPerComponent"@, ObjView::Integer(color_bits_count(img.bits_per_component))),
        ("Interpolate"@, ObjView::Boolean(img.interpolate)),
        ("BBox"@, ObjView::Array(identity_matrix())),
    ] + opt_entry(
        "SMask"@,
        match img.smask {
            Some(id) => Some(ObjView::Reference(id.0, id.1)),
            None => None,
        },
    )
}

impl PdfXObjectImage {
    /// The image as a stream object; the pixel data moves into the stream and the image is
    /// left without data.
    pub fn into_stream(&mut self) -> (r: PdfObject)
        requires
            old(self).image_data@.len() > 0,
        ensures
            obj_view(r) == ObjView::Stream(image_stream_entries(*old(self)), old(self).image_data@, true),
            final(self).image_data@ == Seq::<u8>::empty(),
            final(self).size == old(self).size,
            final(self).color_space == old(self).color_space,
            final(self).bits_per_component == old(self).bits_per_component,
            final(self).interpolate == old(self).interpolate,
            final(self).image_filter == old(self).image_filter,
            final(self).smask == old(self).smask,
    {
        let mut dict: Vec<(String, PdfObject)> = Vec::new();
        push_entry(&mut dict, "Type", name("XObject"));
        push_entry(&mut dict, "Subtype", name("Image"));
        push_entry(&mut dict, "Width", PdfObject::Integer(self.size.width));
        push_entry(&mut dict, "Height", PdfObject::Integer(self.size.height));
        push_entry(&mut dict, "ColorSpace", name(self.color_space.name()));
        push_entry(&mut dict, "BitsPerComponent", PdfObject::Integer(self.bits_per_component.bits()));
        push_entry(&mut dict, "Interpolate", PdfObject::Boolean(self.interpolate));
        let identity: Vec<i64> = vec![1, 0, 0, 1, 0, 0];
        assert(identity@.map_values(|v: i64| ObjView::Integer(v as int)) =~= identity_matrix());
        push_entry(&mut dict, "BBox", integers(&identity));
        let ghost head = entries_view(dict@);
        match self.smask {
            Some((n, g)) => push_entry(&mut dict, "SMask", PdfObject::Reference(n, g)),
            None => {},
        }
        assert(entries_view(dict@) =~= image_stream_entries(*old(self)));
        let mut data: Vec<u8> = Vec::new();
        core::mem::swap(&mut data, &mut self.image_data);
        PdfObject::Stream(dict, data, true)
    }
}

/// The ids handed out by the writer from `max_id` on: `max_id + 1 + i` for the `i`-th.
pub open spec fn handed_out_id(max_id: u32, i: int) -> (u32, u16) {
    ((max_id + 1 + i) as u32, 0u16)
}

/// The key of an XObject and its view once written: the stream of its image.
pub open spec fn xobject_stream(x: XObject) -> ObjView {
    match x {
        XObject::Image(img) => ObjView::Stream(image_stream_entries(*img), img.image_data@, true),
    }
}

/// Whether an XObject can be written: an image needs pixel data.
pub open spec fn xobject_writable(x: XObject) -> bool {
    match x {
        XObject::Image(img) => img.image_data@.len() > 0,
    }
}

impl XObjectMap {
    /// The XObject dictionary of the resources, and the stream objects it refers to: each
    /// XObject, in order, gets the next object id from the writer, and the dictionary maps its
    /// id to a reference.
    pub fn dictionary(self, writer: &mut DocumentWriter) -> (r: (Vec<(String, PdfObject)>, Vec<((u32, u16), PdfObject)>))
        requires
            old(writer).max_id + self.map.entries().len() < u32::MAX,
            forall|i: int| 0 <= i < self.map.entries().len() ==> xobject_writable(#[trigger] self.map.entries()[i].1),
        ensures
            ({
                let es = self.map.entries();
                let m = old(writer).max_id;
                &&& final(writer).max_id == m + es.len()
                &&& r.0@.len() == es.len()
                &&& r.1@.len() == es.len()
                &&& forall|i: int| 0 <= i < es.len() ==> {
                    &&& (#[trigger] r.0@[i]).0@ == es[i].0@
                    &&& obj_view(r.0@[i].1) == ObjView::Reference(handed_out_id(m, i).0, handed_out_id(m, i).1)
                    &&& r.1@[i].0 == handed_out_id(m, i)
                    &&& obj_view(r.1@[i].1) == xobject_stream(es[i].1)
                }
            }),
            final(writer).layers == old(writer).layers,
            final(writer).fonts == old(writer).fonts,
            final(writer).xobjects == old(writer).xobjects,
            final(writer).pages == old(writer).pages,
            final(writer).pages_id == old(writer).pages_id,
            final(writer).uses_shared_resources == old(writer).uses_shared_resources,
            final(writer).resources_id == old(writer).resources_id,
            final(writer).info_dict == old(writer).info_dict,
            final(writer).catalog_extras == old(writer).catalog_extras,
    {
        let ghost es = self.map.entries();
        let ghost m = writer.max_id;
        let entries = self.map.into_entries();
        let mut dict: Vec<(String, PdfObject)> = Vec::new();
        let mut objects: Vec<((u32, u16), PdfObject)> = Vec::new();
        let mut i: usize = 0;
        for entry in iter: entries
            invariant
                i == dict@.len(),
                i == iter.index(),
                iter.seq() == es,
                writer.max_id == m + i,
                m + es.len() < u32::MAX,
                forall|k: int| 0 <= k < es.len() ==> xobject_writable(#[trigger] es[k].1),
                dict@.len() == objects@.len(),
                forall|k: int| 0 <= k < i ==> {
                    &&& (#[trigger] dict@[k]).0@ == es[k].0@
                    &&& obj_view(dict@[k].1) == ObjView::Reference(handed_out_id(m, k).0, handed_out_id(m, k).1)
                    &&& objects@[k].0 == handed_out_id(m, k)
                    &&& obj_view(objects@[k].1) == xobject_stream(es[k].1)
                },
                writer.layers == old(writer).layers,
                writer.fonts == old(writer).fonts,
                writer.xobjects == old(writer).xobjects,
                writer.pages == old(writer).pages,
                writer.pages_id == old(writer).pages_id,
                writer.uses_shared_resources == old(writer).uses_shared_resources,
                writer.resources_id == old(writer).resources_id,
                writer.info_dict == old(writer).info_dict,
                writer.catalog_extras == old(writer).catalog_extras,
        {
            let (key, xobject) = entry;
            assert(es[i as int] == (key, xobject));
            let stream = match xobject {
                XObject::Image(image) => {
                    let mut img = *image;
                    img.into_stream()
                },
            };
            let id = writer.insert_object();
            dict.push((key, PdfObject::Reference(id.0, id.1)));
            objects.push((id, stream));
            i = i + 1;
        }
        (dict, objects)
    }
}

/// The references to the given objects.
pub open spec fn refs_view(ids: Seq<(u32, u16)>) -> Seq<ObjView> {
    ids.map_values(|id: (u32, u16)| ObjView::Reference(id.0, id.1))
}

/// The entries of an optional content group (section 8.11.2): its type and name.
pub open spec fn ocg_entries(name: Seq<char>) -> Seq<(Seq<char>, ObjView)> {
    seq![("Type"@, ObjView::Name("OCG"@)), ("Name"@, ObjView::Text(name))]
}

impl<O> crate::resources::Layer<O> {
    /// The dictionary of the layer's optional content group.
    pub fn create_ocg_dictionary(&self) -> (r: Vec<(String, PdfObject)>)
        ensures
            entries_view(r@) == ocg_entries(self.name@),
    {
        ocg_dictionary(self.name.as_str())
    }
}

/// The dictionary of the optional content group of a layer.
pub fn ocg_dictionary(layer_name: &str) -> (r: Vec<(String, PdfObject)>)
    ensures
        entries_view(r@) == ocg_entries(layer_name@),
{
    let mut dict: Vec<(String, PdfObject)> = Vec::new();
    push_entry(&mut dict, "Type", name("OCG"));
    push_entry(&mut dict, "Name", PdfObject::Text(layer_name.to_owned()));
    assert(entries_view(dict@) =~= ocg_entries(layer_name@));
    dict
}

/// The entries of the resources of a page that shows layers: the shared font and XObject
/// dictionaries, and the layers' groups under their ids.
pub open spec fn page_own_resources_entries(
    font: (u32, u16),
    xobjects: (u32, u16),
    properties: Seq<(Seq<char>, ObjView)>,
) -> Seq<(Seq<char>, ObjView)> {
    seq![
        ("Font"@, ObjView::Reference(font.0, font.1)),
        ("XObject"@, ObjView::Reference(xobjects.0, xobjects.1)),
        ("Properties"@, ObjView::Dictionary(properties)),
    ]
}

/// The properties of a page's resources: each layer's id names a reference to its group.
pub open spec fn layer_properties(groups: Seq<(crate::resources::LayerId, (u32, u16))>) -> Seq<(Seq<char>, ObjView)> {
    groups.map_values(|g: (crate::resources::LayerId, (u32, u16))| (g.0.0@, ObjView::Reference(g.1.0, g.1.1)))
}

/// The resources dictionary of a page that shows layers.
pub fn page_own_resources(
    font: (u32, u16),
    xobjects: (u32, u16),
    groups: &Vec<(crate::resources::LayerId, (u32, u16))>,
) -> (r: Vec<(String, PdfObject)>)
    ensures
        entries_view(r@) == page_own_resources_entries(font, xobjects, layer_properties(groups@)),
{
    let mut properties: Vec<(String, PdfObject)> = Vec::new();
    let mut i: usize = 0;
    while i < groups.len()
        invariant
            i <= groups.len(),
            entries_view(properties@) == layer_properties(groups@.take(i as int)),
        decreases groups.len() - i,
    {
        let ghost before = entries_view(properties@);
        let (id, group) = (&groups[i].0, groups[i].1);
        push_entry(&mut properties, id.0.as_str(), PdfObject::Reference(group.0, group.1));
        assert(groups@.take(i + 1).drop_last() =~= groups@.take(i as int));
        assert(layer_properties(groups@.take(i + 1)) =~= layer_properties(groups@.take(i as int)).push(
            (groups@[i as int].0.0@, ObjView::Reference(group.0, group.1)),
        ));
        i = i + 1;
    }
    assert(groups@.take(groups.len() as int) =~= groups@);
    let mut dict: Vec<(String, PdfObject)> = Vec::new();
    push_entry(&mut dict, "Font", PdfObject::Reference(font.0, font.1));
    push_entry(&mut dict, "XObject", PdfObject::Reference(xobjects.0, xobjects.1));
    push_entry(&mut dict, "Properties", PdfObject::Dictionary(properties));
    assert(entries_view(dict@) =~= page_own_resources_entries(font, xobjects, layer_properties(groups@)));
    dict
}

/// The entries of a page object as the document writer stores it: its parent, its own
/// resources if it has them (else it inherits the shared ones), its media box, and its
/// content streams in order.
pub open spec fn page_object_entries(
    parent: (u32, u16),
    resources: Option<(u32, u16)>,
    media_box: Seq<i64>,
    contents: Seq<(u32, u16)>,
) -> Seq<(Seq<char>, ObjView)> {
    seq![("Type"@, ObjView::Name("Page"@)), ("Parent"@, ObjView::Reference(parent.0, parent.1))]
        + opt_entry("Resources"@, opt_ref(resources))
        + seq![
        ("MediaBox"@, ObjView::Array(media_box.map_values(|v: i64| ObjView::Integer(v as int)))),
        ("Contents"@, ObjView::Array(refs_view(contents))),
    ]
}

/// The dictionary of a page object.
pub fn page_object(
    parent: (u32, u16),
    resources: Option<(u32, u16)>,
    media_box: &Vec<i64>,
    contents: &Vec<(u32, u16)>,
) -> (r: Vec<(String, PdfObject)>)
    ensures
        entries_view(r@) == page_object_entries(parent, resources, media_box@, contents@),
{
    let mut dict: Vec<(String, PdfObject)> = Vec::new();
    push_entry(&mut dict, "Type", name("Page"));
    push_entry(&mut dict, "Parent", PdfObject::Reference(parent.0, parent.1));
    let ghost head = entries_view(dict@);
    match resources {
        Some(id) => push_entry(&mut dict, "Resources", PdfObject::Reference(id.0, id.1)),
        None => {},
    }
    assert(entries_view(dict@) =~= head + opt_entry("Resources"@, opt_ref(resources)));
    push_entry(&mut dict, "MediaBox", integers(media_box));
    let r = references(contents);
    push_entry(&mut dict, "Contents", r);
    assert(entries_view(dict@) =~= page_object_entries(parent, resources, media_box@, contents@));
    dict
}

/// The page's optional boxes (lower left x and y, upper right x and y, in points) and its
/// rotation in degrees, where set.
#[derive(Debug, Clone)]
pub struct PageBoxes {
    pub crop_box: Option<Vec<i64>>,
    pub art_box: Option<Vec<i64>>,
    pub bleed_box: Option<Vec<i64>>,
    pub trim_box: Option<Vec<i64>>,
    pub rotate: Option<i64>,
}

/// The view of an optional box: an array of its numbers.
pub open spec fn opt_box(b: Option<Vec<i64>>) -> Option<ObjView> {
    match b {
        Some(v) => Some(ObjView::Array(v@.map_values(|x: i64| ObjView::Integer(x as int)))),
        None => None,
    }
}

/// The entries of a page's boxes and rotation, after its other entries: CropBox, ArtBox,
/// BleedBox, TrimBox and Rotate, each where set.
pub open spec fn page_boxes_entries(b: PageBoxes) -> Seq<(Seq<char>, ObjView)> {
    opt_entry("CropBox"@, opt_box(b.crop_box)) + opt_entry("ArtBox"@, opt_box(b.art_box))
        + opt_entry("BleedBox"@, opt_box(b.bleed_box)) + opt_entry("TrimBox"@, opt_box(b.trim_box))
        + opt_entry(
        "Rotate"@,
        match b.rotate {
            Some(r) => Some(ObjView::Integer(r as int)),
            None => None,
        },
    )
}

/// Appends an optional box under `key`.
fn push_opt_box(dict: &mut Vec<(String, PdfObject)>, key: &str, b: &Option<Vec<i64>>)
    ensures
        entries_view(final(dict)@) == entries_view(old(dict)@) + opt_entry(key@, opt_box(*b)),
{
    match b {
        Some(v) => push_entry(dict, key, integers(v)),
        None => {},
    }
    assert(entries_view(dict@) =~= entries_view(old(dict)@) + opt_entry(key@, opt_box(*b)));
}

/// Appends a page's boxes and rotation, where set, to its dictionary.
pub fn push_page_boxes(dict: &mut Vec<(String, PdfObject)>, boxes: &PageBoxes)
    ensures
        entries_view(final(dict)@) == entries_view(old(dict)@) + page_boxes_entries(*boxes),
{
    push_opt_box(dict, "CropBox", &boxes.crop_box);
    push_opt_box(dict, "ArtBox", &boxes.art_box);
    push_opt_box(dict, "BleedBox", &boxes.bleed_box);
    push_opt_box(dict, "TrimBox", &boxes.trim_box);
    let ghost before = entries_view(dict@);
    match boxes.rotate {
        Some(r) => push_entry(dict, "Rotate", PdfObject::Integer(r)),
        None => {},
    }
    assert(entries_view(dict@) =~= entries_view(old(dict)@) + page_boxes_entries(*boxes));
}

/// The entries of the shared resources: the font and XObject dictionaries that exist.
pub open spec fn shared_resources_entries(fonts: Option<(u32, u16)>, xobjects: Option<(u32, u16)>) -> Seq<
    (Seq<char>, ObjView),
> {
    opt_entry("Font"@, opt_ref(fonts)) + opt_entry("XObject"@, opt_ref(xobjects))
}

/// The optional content properties of a catalog (section 8.11.4.2): the groups, and the
/// default configuration that lists them in order.
pub open spec fn oc_properties_entries(ocgs: Seq<(u32, u16)>) -> Seq<(Seq<char>, ObjView)> {
    seq![
        ("OCGs"@, ObjView::Array(refs_view(ocgs))),
        ("D"@, ObjView::Dictionary(seq![("Order"@, ObjView::Array(refs_view(ocgs)))])),
    ]
}

impl crate::writer::FinishedDocument {
    /// The dictionary of the shared resources.
    pub fn shared_resources_dictionary(&self) -> (r: Vec<(String, PdfObject)>)
        ensures
            entries_view(r@) == shared_resources_entries(self.fonts, self.xobjects),
    {
        let mut dict: Vec<(String, PdfObject)> = Vec::new();
        match self.fonts {
            Some(id) => push_entry(&mut dict, "Font", PdfObject::Reference(id.0, id.1)),
            None => {},
        }
        let ghost head = entries_view(dict@);
        assert(head =~= opt_entry("Font"@, opt_ref(self.fonts)));
        match self.xobjects {
            Some(id) => push_entry(&mut dict, "XObject", PdfObject::Reference(id.0, id.1)),
            None => {},
        }
        assert(entries_view(dict@) =~= shared_resources_entries(self.fonts, self.xobjects));
        dict
    }

    /// The dictionary of the page tree: its kids and their count, and the shared resources
    /// when the pages use them.
    pub fn page_tree_dictionary(&self) -> (r: Vec<(String, PdfObject)>)
        requires
            self.kids@.len() <= i64::MAX,
        ensures
            entries_view(r@) == seq![
                ("Type"@, ObjView::Name("Pages"@)),
                ("Kids"@, ObjView::Array(refs_view(self.kids@))),
                ("Count"@, ObjView::Integer(self.kids@.len() as int)),
            ] + opt_entry(
                "Resources"@,
                match self.shared_resources {
                    Some(s) => Some(ObjView::Reference(s.0.0, s.0.1)),
                    None => None,
                },
            ),
    {
        let mut dict: Vec<(String, PdfObject)> = Vec::new();
        push_entry(&mut dict, "Type", name("Pages"));
        push_entry(&mut dict, "Kids", references(&self.kids));
        let n = self.kids.len();
        push_entry(&mut dict, "Count", PdfObject::Integer(n as i64));
        let ghost head = entries_view(dict@);
        match self.shared_resources {
            Some((id, _)) => push_entry(&mut dict, "Resources", PdfObject::Reference(id.0, id.1)),
            None => {},
        }
        assert(entries_view(dict@) =~= head + opt_entry(
            "Resources"@,
            match self.shared_resources {
                Some(s) => Some(ObjView::Reference(s.0.0, s.0.1)),
                None => None,
            },
        ));
        dict
    }

    /// The dictionary of the catalog, with the optional content properties when the document
    /// has layers.
    pub fn catalog_dictionary(&self) -> (r: Vec<(String, PdfObject)>)
        ensures
            entries_view(r@) == seq![
                ("Type"@, ObjView::Name("Catalog"@)),
                ("Pages"@, ObjView::Reference(self.pages_id.0, self.pages_id.1)),
                ("PageLayout"@, ObjView::Name(page_layout_name(self.catalog.page_layout))),
                ("PageMode"@, ObjView::Name(page_mode_name(self.catalog.page_mode))),
            ] + opt_entry("Lang"@, opt_text(self.catalog.language)) + (if self.ocgs@.len() == 0 {
                Seq::empty()
            } else {
                seq![("OCProperties"@, ObjView::Dictionary(oc_properties_entries(self.ocgs@)))]
            }),
    {
        let catalog = CatalogObject {
            pages: self.pages_id,
            page_layout: self.catalog.page_layout,
            page_mode: self.catalog.page_mode,
            language: self.catalog.language.clone(),
        };
        let mut dict = catalog.into_dictionary();
        let ghost head = entries_view(dict@);
        if self.ocgs.len() > 0 {
            let mut order: Vec<(String, PdfObject)> = Vec::new();
            push_entry(&mut order, "Order", references(&self.ocgs));
            let mut props: Vec<(String, PdfObject)> = Vec::new();
            push_entry(&mut props, "OCGs", references(&self.ocgs));
            push_entry(&mut props, "D", PdfObject::Dictionary(order));
            assert(entries_view(props@) =~= oc_properties_entries(self.ocgs@));
            push_entry(&mut dict, "OCProperties", PdfObject::Dictionary(props));
        }
        assert(entries_view(dict@) =~= head + (if self.ocgs@.len() == 0 {
            Seq::empty()
        } else {
            seq![("OCProperties"@, ObjView::Dictionary(oc_properties_entries(self.ocgs@)))]
        }));
        dict
    }
}

} // verus!
