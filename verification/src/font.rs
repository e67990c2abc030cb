//! Fonts: the built-in PDF fonts, references to fonts and glyph metrics.
use vstd::prelude::*;
use crate::text_out::str_eq;

verus! {

/// The 14 built-in fonts per the PDF specification.
#[derive(Debug, Copy, Clone, PartialEq, Eq, PartialOrd, Ord, Hash, Structural)]
pub enum BuiltinFont {
    TimesRoman,
    TimesBold,
    TimesItalic,
    TimesBoldItalic,
    Helvetica,
    HelveticaBold,
    HelveticaOblique,
    HelveticaBoldOblique,
    Courier,
    CourierOblique,
    CourierBold,
    CourierBoldOblique,
    Symbol,
    ZapfDingbats,
}

/// The name of a built-in font as it is used in PDF documents.
pub open spec fn builtin_name(f: BuiltinFont) -> Seq<char> {
    match f {
        BuiltinFont::TimesRoman => "Times-Roman"@,
        BuiltinFont::TimesBold => "Times-Bold"@,
        BuiltinFont::TimesItalic => "Times-Italic"@,
        BuiltinFont::TimesBoldItalic => "Times-BoldItalic"@,
        BuiltinFont::Helvetica => "Helvetica"@,
        BuiltinFont::HelveticaBold => "Helvetica-Bold"@,
        BuiltinFont::HelveticaOblique => "Helvetica-Oblique"@,
        BuiltinFont::HelveticaBoldOblique => "Helvetica-BoldOblique"@,
        BuiltinFont::Courier => "Courier"@,
        BuiltinFont::CourierOblique => "Courier-Oblique"@,
        BuiltinFont::CourierBold => "Courier-Bold"@,
        BuiltinFont::CourierBoldOblique => "Courier-BoldOblique"@,
        BuiltinFont::Symbol => "Symbol"@,
        BuiltinFont::ZapfDingbats => "ZapfDingbats"@,
    }
}

/// The dedicated resource identifier of a built-in font: `F1` to `F14`.
pub open spec fn builtin_id(f: BuiltinFont) -> Seq<char> {
    match f {
        BuiltinFont::TimesRoman => "F1"@,
        BuiltinFont::TimesBold => "F2"@,
        BuiltinFont::TimesItalic => "F3"@,
        BuiltinFont::TimesBoldItalic => "F4"@,
        BuiltinFont::Helvetica => "F5"@,
        BuiltinFont::HelveticaBold => "F6"@,
        BuiltinFont::HelveticaOblique => "F7"@,
        BuiltinFont::HelveticaBoldOblique => "F8"@,
        BuiltinFont::Courier => "F9"@,
        BuiltinFont::CourierOblique => "F10"@,
        BuiltinFont::CourierBold => "F11"@,
        BuiltinFont::CourierBoldOblique => "F12"@,
        BuiltinFont::Symbol => "F13"@,
        BuiltinFont::ZapfDingbats => "F14"@,
    }
}

/// All built-in fonts, in declaration order.
pub open spec fn all_builtin_fonts() -> Seq<BuiltinFont> {
    seq![
        BuiltinFont::TimesRoman,
        BuiltinFont::TimesBold,
        BuiltinFont::TimesItalic,
        BuiltinFont::TimesBoldItalic,
        BuiltinFont::Helvetica,
        BuiltinFont::HelveticaBold,
        BuiltinFont::HelveticaOblique,
        BuiltinFont::HelveticaBoldOblique,
        BuiltinFont::Courier,
        BuiltinFont::CourierOblique,
        BuiltinFont::CourierBold,
        BuiltinFont::CourierBoldOblique,
        BuiltinFont::Symbol,
        BuiltinFont::ZapfDingbats,
    ]
}

impl BuiltinFont {
    /// The name of the font as it is used in PDF documents.
    pub fn name(&self) -> (r: &'static str)
        ensures
            r@ == builtin_name(*self),
    {
        match self {
            BuiltinFont::TimesRoman => "Times-Roman",
            BuiltinFont::TimesBold => "Times-Bold",
            BuiltinFont::TimesItalic => "Times-Italic",
            BuiltinFont::TimesBoldItalic => "Times-BoldItalic",
            BuiltinFont::Helvetica => "Helvetica",
            BuiltinFont::HelveticaBold => "Helvetica-Bold",
            BuiltinFont::HelveticaOblique => "Helvetica-Oblique",
            BuiltinFont::HelveticaBoldOblique => "Helvetica-BoldOblique",
            BuiltinFont::Courier => "Courier",
            BuiltinFont::CourierOblique => "Courier-Oblique",
            BuiltinFont::CourierBold => "Courier-Bold",
            BuiltinFont::CourierBoldOblique => "Courier-BoldOblique",
            BuiltinFont::Symbol => "Symbol",
            BuiltinFont::ZapfDingbats => "ZapfDingbats",
        }
    }

    /// We use a dedicated identifier for each built-in font.
    ///
    /// For example, the Times-Roman font has the identifier `F1`.
    pub fn dedicated_font_id(&self) -> (r: &'static str)
        ensures
            r@ == builtin_id(*self),
    {
        match self {
            BuiltinFont::TimesRoman => "F1",
            BuiltinFont::TimesBold => "F2",
            BuiltinFont::TimesItalic => "F3",
            BuiltinFont::TimesBoldItalic => "F4",
            BuiltinFont::Helvetica => "F5",
            BuiltinFont::HelveticaBold => "F6",
            BuiltinFont::HelveticaOblique => "F7",
            BuiltinFont::HelveticaBoldOblique => "F8",
            BuiltinFont::Courier => "F9",
            BuiltinFont::CourierOblique => "F10",
            BuiltinFont::CourierBold => "F11",
            BuiltinFont::CourierBoldOblique => "F12",
            BuiltinFont::Symbol => "F13",
            BuiltinFont::ZapfDingbats => "F14",
        }
    }

    /// The built-in font with the given PDF name: the first in declaration order
    /// whose name equals `value`, or `None`.
    pub fn from_name(value: &str) -> (r: Option<BuiltinFont>)
        ensures
            r matches Some(f) ==> builtin_name(f) == value@,
            r is None ==> forall|f: BuiltinFont| builtin_name(f) != value@,
    {
        let mut i: usize = 0;
        let fonts: [BuiltinFont; 14] = [
            BuiltinFont::TimesRoman,
            BuiltinFont::TimesBold,
            BuiltinFont::TimesItalic,
            BuiltinFont::TimesBoldItalic,
            BuiltinFont::Helvetica,
            BuiltinFont::HelveticaBold,
            BuiltinFont::HelveticaOblique,
            BuiltinFont::HelveticaBoldOblique,
            BuiltinFont::Courier,
            BuiltinFont::CourierOblique,
            BuiltinFont::CourierBold,
            BuiltinFont::CourierBoldOblique,
            BuiltinFont::Symbol,
            BuiltinFont::ZapfDingbats,
        ];
        assert(fonts@ == all_builtin_fonts());
        while i < 14
            invariant
                i <= 14,
                fonts@ == all_builtin_fonts(),
                forall|j: int| 0 <= j < i ==> builtin_name(all_builtin_fonts()[j]) != value@,
            decreases 14 - i,
        {
            let f = fonts[i];
            if str_eq(f.name(), value) {
                return Some(f);
            }
            i = i + 1;
        }
        proof {
            assert forall|f: BuiltinFont| builtin_name(f) != value@ by {
                lemma_all_builtin_listed(f);
            }
        }
        None
    }
}

proof fn lemma_all_builtin_listed(f: BuiltinFont)
    ensures
        exists|j: int| 0 <= j < 14 && all_builtin_fonts()[j] == f,
{
    match f {
        BuiltinFont::TimesRoman => assert(all_builtin_fonts()[0] == f),
        BuiltinFont::TimesBold => assert(all_builtin_fonts()[1] == f),
        BuiltinFont::TimesItalic => assert(all_builtin_fonts()[2] == f),
        BuiltinFont::TimesBoldItalic => assert(all_builtin_fonts()[3] == f),
        BuiltinFont::Helvetica => assert(all_builtin_fonts()[4] == f),
        BuiltinFont::HelveticaBold => assert(all_builtin_fonts()[5] == f),
        BuiltinFont::HelveticaOblique => assert(all_builtin_fonts()[6] == f),
        BuiltinFont::HelveticaBoldOblique => assert(all_builtin_fonts()[7] == f),
        BuiltinFont::Courier => assert(all_builtin_fonts()[8] == f),
        BuiltinFont::CourierOblique => assert(all_builtin_fonts()[9] == f),
        BuiltinFont::CourierBold => assert(all_builtin_fonts()[10] == f),
        BuiltinFont::CourierBoldOblique => assert(all_builtin_fonts()[11] == f),
        BuiltinFont::Symbol => assert(all_builtin_fonts()[12] == f),
        BuiltinFont::ZapfDingbats => assert(all_builtin_fonts()[13] == f),
    }
}

/// A unique identifier for a font.
#[derive(Debug, PartialEq, Clone, Eq, PartialOrd, Ord)]
pub struct FontId(pub String);

/// A reference to a font: an external font by its id, or a built-in font.
#[derive(Debug, Clone, PartialEq)]
pub enum FontRef {
    External(FontId),
    Builtin(BuiltinFont),
}

/// The resource name of a font reference.
pub open spec fn font_ref_id(f: FontRef) -> Seq<char> {
    match f {
        FontRef::External(id) => id.0@,
        FontRef::Builtin(b) => builtin_id(b),
    }
}

impl FontRef {
    /// The resource name under which the font is referenced.
    pub fn id(&self) -> (r: &str)
        ensures
            r@ == font_ref_id(*self),
    {
        match self {
            FontRef::External(id) => id.0.as_str(),
            FontRef::Builtin(builtin) => builtin.dedicated_font_id(),
        }
    }
}

/// Controls how color emoji fonts are rendered in the PDF.
#[derive(Debug, Clone, PartialEq, Default)]
pub enum EmojiRenderMode {
    /// Embed the font as-is. Rendering depends on PDF viewer support for color font tables.
    #[default]
    EmbedFont,
    /// Rasterize each emoji glyph to an image XObject.
    /// `pixels_per_em` controls rasterization quality (default: 128).
    RasterizeToImage { pixels_per_em: u16 },
}

impl EmojiRenderMode {
    /// Creates a `RasterizeToImage` mode with the default quality (128 pixels per em).
    pub fn rasterize() -> (r: Self)
        ensures
            r == (EmojiRenderMode::RasterizeToImage { pixels_per_em: 128 }),
    {
        EmojiRenderMode::RasterizeToImage { pixels_per_em: 128 }
    }

    /// Creates a `RasterizeToImage` mode with a custom quality setting.
    pub fn rasterize_with_quality(pixels_per_em: u16) -> (r: Self)
        ensures
            r == (EmojiRenderMode::RasterizeToImage { pixels_per_em }),
    {
        EmojiRenderMode::RasterizeToImage { pixels_per_em }
    }
}

/// The metrics of a glyph, in font units.
#[derive(Clone, Copy, Debug, Default, PartialEq, Eq)]
pub struct GlyphMetrics {
    /// The width of the glyph, typically the horizontal advance.
    pub width: u32,
    /// The height of the glyph, typically the difference between the ascent and the descent.
    pub height: u32,
}

} // verus!
