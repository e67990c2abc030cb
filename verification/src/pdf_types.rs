//! PDF dictionary vocabulary: font descriptor flags, font encodings, catalog settings
//! and document information.
use vstd::prelude::*;
use crate::conformance::{CustomPdfConformance, PdfConformance, default_custom_features};

verus! {

/// Flags of a font descriptor (section 9.8.2), as a set of bits.
#[derive(Debug, Clone, Copy, PartialEq, Eq, Structural)]
pub struct FontFlags {
    bits: i64,
}

/// The bits of the named font flags, in declaration order: fixed pitch, serif, symbolic,
/// script, non-symbolic, italic, all cap, small cap, force bold.
pub open spec fn named_flag_bits() -> Seq<i64> {
    seq![1i64, 2, 4, 8, 16, 32, 65536, 131072, 262144]
}

/// The union of the named flag bits.
pub open spec fn all_named_bits() -> i64 {
    1i64 | 2 | 4 | 8 | 16 | 32 | 65536 | 131072 | 262144
}

/// Whether a flag's bit is set in `bits`.
pub open spec fn flag_set_in(bits: i64) -> spec_fn(i64) -> bool {
    |b: i64| bits & b == b
}

/// The flags that iterating a flags value yields: each named flag whose bit is set, in
/// declaration order, then the remaining bits (if any) as one last value.
pub open spec fn flag_iter_bits(bits: i64) -> Seq<i64> {
    let named = named_flag_bits().filter(flag_set_in(bits));
    let rest = bits & !all_named_bits();
    if rest != 0 {
        named.push(rest)
    } else {
        named
    }
}

impl FontFlags {
    /// Bit 1: all glyphs have the same width.
    pub fn fixed_pitch() -> (r: FontFlags)
        ensures
            r.spec_bits() == 1,
    {
        FontFlags { bits: 1 }
    }

    /// Bit 2: glyphs have serifs.
    pub fn serif() -> (r: FontFlags)
        ensures
            r.spec_bits() == 2,
    {
        FontFlags { bits: 2 }
    }

    /// Bit 3: the font holds characters outside the standard Latin set.
    pub fn symbolic() -> (r: FontFlags)
        ensures
            r.spec_bits() == 4,
    {
        FontFlags { bits: 4 }
    }

    /// Bit 4: glyphs resemble cursive handwriting.
    pub fn script() -> (r: FontFlags)
        ensures
            r.spec_bits() == 8,
    {
        FontFlags { bits: 8 }
    }

    /// Bit 6: the font uses the standard Latin character set.
    pub fn non_symbolic() -> (r: FontFlags)
        ensures
            r.spec_bits() == 16,
    {
        FontFlags { bits: 16 }
    }

    /// Bit 7: glyphs have dominant vertical strokes that are slanted.
    pub fn italic() -> (r: FontFlags)
        ensures
            r.spec_bits() == 32,
    {
        FontFlags { bits: 32 }
    }

    /// Bit 17: the font has no lowercase letters.
    pub fn all_cap() -> (r: FontFlags)
        ensures
            r.spec_bits() == 65536,
    {
        FontFlags { bits: 65536 }
    }

    /// Bit 18: lowercase letters are small capitals.
    pub fn small_cap() -> (r: FontFlags)
        ensures
            r.spec_bits() == 131072,
    {
        FontFlags { bits: 131072 }
    }

    /// Bit 19: bold glyphs are painted with extra pixels at small sizes.
    pub fn force_bold() -> (r: FontFlags)
        ensures
            r.spec_bits() == 262144,
    {
        FontFlags { bits: 262144 }
    }

    /// The bits of the flags.
    pub closed spec fn spec_bits(self) -> i64 {
        self.bits
    }

    /// Flags with exactly these bits, named or not.
    pub fn from_bits_retain(bits: i64) -> (r: Self)
        ensures
            r.spec_bits() == bits,
    {
        FontFlags { bits }
    }

    /// The bits of the flags.
    pub fn bits(&self) -> (r: i64)
        ensures
            r == self.spec_bits(),
    {
        self.bits
    }

    /// Whether all bits of `other` are set.
    pub fn contains(&self, other: FontFlags) -> (r: bool)
        ensures
            r == (self.spec_bits() & other.spec_bits() == other.spec_bits()),
    {
        self.bits & other.bits == other.bits
    }

    /// The flags of both.
    pub fn union(self, other: FontFlags) -> (r: FontFlags)
        ensures
            r.spec_bits() == self.spec_bits() | other.spec_bits(),
    {
        FontFlags { bits: self.bits | other.bits }
    }

    /// The flags one by one: each named flag that is set, in declaration order, then
    /// the remaining bits as one value when there are any.
    pub fn iter(&self) -> (r: Vec<FontFlags>)
        ensures
            r@.map_values(|f: FontFlags| f.spec_bits()) == flag_iter_bits(self.spec_bits()),
    {
        let named: [i64; 9] = [1, 2, 4, 8, 16, 32, 65536, 131072, 262144];
        assert(named@ == named_flag_bits());
        let mut r: Vec<FontFlags> = Vec::new();
        let mut i: usize = 0;
        while i < 9
            invariant
                i <= 9,
                named@ == named_flag_bits(),
                r@.map_values(|f: FontFlags| f.spec_bits()) == named_flag_bits().take(i as int).filter(
                    flag_set_in(self.bits),
                ),
            decreases 9 - i,
        {
            let b = named[i];
            let ghost prev = r@;
            proof {
                assert(named_flag_bits().take(i + 1).drop_last() == named_flag_bits().take(i as int));
                reveal(Seq::filter);
            }
            if self.bits & b == b {
                r.push(FontFlags { bits: b });
                assert(r@.map_values(|f: FontFlags| f.spec_bits()) =~= prev.map_values(
                    |f: FontFlags| f.spec_bits(),
                ).push(b));
            }
            i = i + 1;
        }
        assert(named_flag_bits().take(9) == named_flag_bits());
        let all: i64 = 1 | 2 | 4 | 8 | 16 | 32 | 65536 | 131072 | 262144;
        let rest = self.bits & !all;
        if rest != 0 {
            let ghost prev = r@;
            r.push(FontFlags { bits: rest });
            assert(r@.map_values(|f: FontFlags| f.spec_bits()) =~= prev.map_values(|f: FontFlags| f.spec_bits()).push(
                rest,
            ));
        }
        r
    }
}

/// The bits of a sequence of flags, joined.
pub open spec fn union_of(s: Seq<i64>) -> i64
    decreases s.len(),
{
    if s.len() == 0 {
        0
    } else {
        union_of(s.drop_last()) | s.last()
    }
}

/// Keeping the flags set in `bits` and joining them gives `bits` restricted to the joined
/// flags, when each flag is either wholly set in `bits` or not at all.
proof fn lemma_union_of_set_flags(s: Seq<i64>, bits: i64)
    requires
        forall|i: int| 0 <= i < s.len() ==> bits & #[trigger] s[i] == s[i] || bits & s[i] == 0,
    ensures
        union_of(s.filter(flag_set_in(bits))) == bits & union_of(s),
    decreases s.len(),
{
    reveal(Seq::filter);
    if s.len() == 0 {
        assert(s.filter(flag_set_in(bits)) =~= Seq::<i64>::empty());
        assert(bits & 0i64 == 0) by (bit_vector);
    } else {
        let t = s.drop_last();
        let x = s.last();
        lemma_union_of_set_flags(t, bits);
        let a = union_of(t);
        assert(bits & x == x || bits & x == 0) by {
            assert(s[s.len() - 1] == x);
        }
        if bits & x == x {
            assert(s.filter(flag_set_in(bits)) == t.filter(flag_set_in(bits)).push(x));
            assert(t.filter(flag_set_in(bits)).push(x).drop_last() =~= t.filter(flag_set_in(bits)));
            assert((bits & a) | x == bits & (a | x)) by (bit_vector)
                requires
                    bits & x == x,
            ;
        } else {
            assert(s.filter(flag_set_in(bits)) == t.filter(flag_set_in(bits)));
            assert(bits & a == bits & (a | x)) by (bit_vector)
                requires
                    bits & x == 0,
            ;
        }
    }
}

/// A named flag is wholly set in any bits or not at all.
proof fn lemma_named_flag_single_bit(bits: i64, x: i64)
    by (bit_vector)
    requires
        x == 1 || x == 2 || x == 4 || x == 8 || x == 16 || x == 32 || x == 65536 || x == 131072 || x == 262144,
    ensures
        bits & x == x || bits & x == 0,
{
}

/// Law of the font flags: joining the flags that iterating yields gives back the flags.
pub proof fn law_flag_iter_union(bits: i64)
    ensures
        union_of(flag_iter_bits(bits)) == bits,
{
    let named = named_flag_bits();
    assert forall|i: int| 0 <= i < named.len() implies bits & #[trigger] named[i] == named[i] || bits
        & named[i] == 0 by {
        lemma_named_flag_single_bit(bits, named[i]);
    }
    lemma_union_of_set_flags(named, bits);
    assert(union_of(named) == all_named_bits()) by {
        let s0 = Seq::<i64>::empty();
        let s1 = s0.push(1);
        let s2 = s1.push(2);
        let s3 = s2.push(4);
        let s4 = s3.push(8);
        let s5 = s4.push(16);
        let s6 = s5.push(32);
        let s7 = s6.push(65536);
        let s8 = s7.push(131072);
        let s9 = s8.push(262144);
        assert(s9 =~= named);
        assert(s1.drop_last() =~= s0);
        assert(s2.drop_last() =~= s1);
        assert(s3.drop_last() =~= s2);
        assert(s4.drop_last() =~= s3);
        assert(s5.drop_last() =~= s4);
        assert(s6.drop_last() =~= s5);
        assert(s7.drop_last() =~= s6);
        assert(s8.drop_last() =~= s7);
        assert(s9.drop_last() =~= s8);
        assert(union_of(s0) == 0);
        assert(union_of(s1) == union_of(s0) | 1);
        assert(union_of(s2) == union_of(s1) | 2);
        assert(union_of(s3) == union_of(s2) | 4);
        assert(union_of(s4) == union_of(s3) | 8);
        assert(union_of(s5) == union_of(s4) | 16);
        assert(union_of(s6) == union_of(s5) | 32);
        assert(union_of(s7) == union_of(s6) | 65536);
        assert(union_of(s8) == union_of(s7) | 131072);
        assert(union_of(s9) == union_of(s8) | 262144);
        assert((((((((((0i64 | 1) | 2) | 4) | 8) | 16) | 32) | 65536) | 131072) | 262144) == 1i64 | 2 | 4 | 8
            | 16 | 32 | 65536 | 131072 | 262144) by (bit_vector);
    }
    let all = all_named_bits();
    let kept = named.filter(flag_set_in(bits));
    let rest = bits & !all;
    if rest != 0 {
        assert(flag_iter_bits(bits) == kept.push(rest));
        assert(union_of(kept.push(rest)) == union_of(kept) | rest) by {
            assert(kept.push(rest).drop_last() =~= kept);
        }
        assert((bits & all) | (bits & !all) == bits) by (bit_vector);
    } else {
        assert((bits & !all) == 0 ==> bits & all == bits) by (bit_vector);
    }
}

/// The name of an encoding.
pub open spec fn font_encoding_name(e: FontEncoding) -> Seq<char> {
    match e {
        FontEncoding::WinAnsiEncoding => "WinAnsiEncoding"@,
        FontEncoding::IdentityH => "Identity-H"@,
        FontEncoding::IdentityV => "Identity-V"@,
    }
}

/// A font encoding.
#[derive(Debug, PartialEq, Clone, Copy, Eq, PartialOrd, Ord, Structural)]
pub enum FontEncoding {
    WinAnsiEncoding,
    /// The horizontal identity mapping for 2-byte CIDs.
    IdentityH,
    /// The vertical identity mapping for 2-byte CIDs.
    IdentityV,
}

impl FontEncoding {
    /// The PDF name of the encoding.
    pub fn name(&self) -> (r: &'static str)
        ensures
            r@ == font_encoding_name(*self),
    {
        match self {
            FontEncoding::WinAnsiEncoding => "WinAnsiEncoding",
            FontEncoding::IdentityH => "Identity-H",
            FontEncoding::IdentityV => "Identity-V",
        }
    }
}

/// The subtype of the built-in fonts (they share `Type1` with Type 1 fonts).
#[derive(Debug, Clone, Copy, Default, PartialEq, Eq)]
pub struct BuiltinFontSubType;

impl BuiltinFontSubType {
    /// The font's subtype name, `Type1`.
    pub fn sub_type(&self) -> (r: &'static str)
        ensures
            r@ == "Type1"@,
    {
        "Type1"
    }
}

/// The character collection of a CID font.
#[derive(Debug, Clone, PartialEq, Eq, PartialOrd, Ord)]
pub struct CIDSystemInfo {
    pub registry: String,
    pub ordering: String,
    pub supplement: i64,
}

/// XMP metadata.
#[derive(Debug, Clone, PartialEq, Eq)]
pub struct XmpMetadata {
    /// Web-viewable or "default" or to be left empty. Usually "default".
    pub rendition_class: Option<String>,
}

/// How pages are laid out when the document is opened.
#[derive(Debug, Clone, Copy, PartialEq, Eq, Default, Structural)]
pub enum PageLayout {
    /// Display one page at a time
    #[default]
    SinglePage,
    OneColumn,
    TwoColumnLeft,
    TwoColumnRight,
    TwoPageLeft,
    TwoPageRight,
}

/// The PDF name of a page layout.
pub open spec fn page_layout_name(l: PageLayout) -> Seq<char> {
    match l {
        PageLayout::SinglePage => "SinglePage"@,
        PageLayout::OneColumn => "OneColumn"@,
        PageLayout::TwoColumnLeft => "TwoColumnLeft"@,
        PageLayout::TwoColumnRight => "TwoColumnRight"@,
        PageLayout::TwoPageLeft => "TwoPageLeft"@,
        PageLayout::TwoPageRight => "TwoPageRight"@,
    }
}

impl PageLayout {
    /// The PDF name of the layout.
    pub fn name(&self) -> (r: &'static str)
        ensures
            r@ == page_layout_name(*self),
    {
        match self {
            PageLayout::SinglePage => "SinglePage",
            PageLayout::OneColumn => "OneColumn",
            PageLayout::TwoColumnLeft => "TwoColumnLeft",
            PageLayout::TwoColumnRight => "TwoColumnRight",
            PageLayout::TwoPageLeft => "TwoPageLeft",
            PageLayout::TwoPageRight => "TwoPageRight",
        }
    }
}

/// What is shown beside the pages when the document is opened.
#[derive(Debug, Clone, Copy, PartialEq, Eq, Default, Structural)]
pub enum PageMode {
    /// Neither Document outline nor thumbnail images visible
    #[default]
    UseNone,
    UseOutlines,
    UseThumbs,
    FullScreen,
    UseOC,
    UseAttachments,
}

/// The PDF name of a page mode.
pub open spec fn page_mode_name(m: PageMode) -> Seq<char> {
    match m {
        PageMode::UseNone => "UseNone"@,
        PageMode::UseOutlines => "UseOutlines"@,
        PageMode::UseThumbs => "UseThumbs"@,
        PageMode::FullScreen => "FullScreen"@,
        PageMode::UseOC => "UseOC"@,
        PageMode::UseAttachments => "UseAttachments"@,
    }
}

impl PageMode {
    /// The PDF name of the mode.
    pub fn name(&self) -> (r: &'static str)
        ensures
            r@ == page_mode_name(*self),
    {
        match self {
            PageMode::UseNone => "UseNone",
            PageMode::UseOutlines => "UseOutlines",
            PageMode::UseThumbs => "UseThumbs",
            PageMode::FullScreen => "FullScreen",
            PageMode::UseOC => "UseOC",
            PageMode::UseAttachments => "UseAttachments",
        }
    }
}

/// Settings of the document catalog.
#[derive(Debug, Clone, PartialEq, Eq, Default)]
pub struct CatalogInfo {
    pub page_layout: PageLayout,
    pub language: Option<String>,
    pub page_mode: PageMode,
}

/// Information about the document. Dates are kept by the application as it writes them.
#[derive(Debug, PartialEq, Clone)]
pub struct PdfDocumentInfo {
    /// Is the document trapped?
    pub trapped: Option<bool>,
    /// PDF document version
    pub version: Option<i32>,
    /// PDF Standard
    pub conformance: PdfConformance,
    /// PDF document title
    pub document_title: String,
    /// PDF document author
    pub author: Option<String>,
    /// The creator of the document
    pub creator: Option<String>,
    /// The producer of the document
    pub producer: Option<String>,
    /// Keywords associated with the document
    pub keywords: Vec<String>,
    /// The subject of the document
    pub subject: Option<String>,
}

impl PdfDocumentInfo {
    /// Information for a document with the given title: produced by `tux-pdf`, with the
    /// default conformance and nothing else.
    pub fn with_title(document_title: String) -> (r: Self)
        ensures
            r.document_title@ == document_title@,
            r.producer matches Some(p) && p@ == "tux-pdf"@,
            r.trapped is None && r.version is None && r.author is None && r.creator is None,
            r.keywords@.len() == 0 && r.subject is None,
            r.conformance matches PdfConformance::Custom(c) && c.identifier is None && c.features@
                == default_custom_features(),
    {
        PdfDocumentInfo {
            trapped: None,
            version: None,
            conformance: PdfConformance::Custom(CustomPdfConformance::default_conformance()),
            document_title,
            author: None,
            creator: None,
            producer: Some(String::from_str("tux-pdf")),
            keywords: Vec::new(),
            subject: None,
        }
    }

    /// Whether the information holds nothing to write: no title, author, creator,
    /// producer, keywords or subject.
    pub fn is_empty(&self) -> (r: bool)
        ensures
            r == (self.document_title@.len() == 0 && self.author is None && self.creator is None
                && self.producer is None && self.keywords@.len() == 0 && self.subject is None),
    {
        self.document_title.as_str().is_empty() && self.author.is_none() && self.creator.is_none()
            && self.producer.is_none() && self.keywords.len() == 0 && self.subject.is_none()
    }
}

} // verus!
