//! The style of text: font, size, colours and spacing, and overrides of some of them.
use vstd::prelude::*;
use crate::font::FontRef;
use crate::layout::overridden;

verus! {

/// Something with a fill colour (the non-stroking colour) and an outline colour (the
/// stroking colour).
pub trait HasColorParams<C>: Sized {
    /// The fill colour.
    spec fn fill_color_spec(&self) -> Option<C>;

    /// The outline colour.
    spec fn outline_color_spec(&self) -> Option<C>;

    /// Sets the fill colour.
    fn set_fill_color(&mut self, color: C)
        ensures
            final(self).fill_color_spec() == Some(color),
            final(self).outline_color_spec() == old(self).outline_color_spec(),
    ;

    /// Sets the outline colour.
    fn set_outline_color(&mut self, color: C)
        ensures
            final(self).outline_color_spec() == Some(color),
            final(self).fill_color_spec() == old(self).fill_color_spec(),
    ;

    /// The item with the fill colour set.
    fn with_fill_color(self, color: C) -> (r: Self)
        ensures
            r.fill_color_spec() == Some(color),
            r.outline_color_spec() == self.outline_color_spec(),
    {
        let mut s = self;
        s.set_fill_color(color);
        s
    }

    /// The item with the outline colour set.
    fn with_outline_color(self, color: C) -> (r: Self)
        ensures
            r.outline_color_spec() == Some(color),
            r.fill_color_spec() == self.fill_color_spec(),
    {
        let mut s = self;
        s.set_outline_color(color);
        s
    }

    /// Takes the fill colour out, leaving none.
    fn take_fill_color(&mut self) -> (r: Option<C>)
        ensures
            r == old(self).fill_color_spec(),
            final(self).fill_color_spec() is None,
            final(self).outline_color_spec() == old(self).outline_color_spec(),
    ;

    /// Takes the outline colour out, leaving none.
    fn take_outline_color(&mut self) -> (r: Option<C>)
        ensures
            r == old(self).outline_color_spec(),
            final(self).outline_color_spec() is None,
            final(self).fill_color_spec() == old(self).fill_color_spec(),
    ;
}

/// The parameters that the size of rendered text depends on.
pub trait FontRenderSizeParams<U> {
    /// The font size.
    fn font_size(&self) -> U;

    /// The space added after each character.
    fn character_spacing(&self) -> Option<U>;

    /// The space added after each space character.
    fn word_spacing(&self) -> Option<U>;

    /// How far the text is raised above the baseline.
    fn text_rise(&self) -> Option<U>;
}

/// The style of text. `U` is the unit of lengths, `C` the type of colours.
#[derive(Debug, PartialEq, Clone)]
pub struct TextStyle<U, C> {
    /// The size of the font.
    pub font_size: U,
    /// The font; a built-in font has to be registered with the resources too.
    pub font_ref: FontRef,
    /// The fill colour; without one the colour set before (or black) stays.
    pub fill_color: Option<C>,
    pub outline_color: Option<C>,
    /// Space between characters.
    pub character_spacing: Option<U>,
    /// Space between words.
    pub word_spacing: Option<U>,
    /// Raises the text, for superscripts and subscripts.
    pub text_rise: Option<U>,
    /// Space between the lines of a text block (the library's own, not a PDF setting).
    pub line_spacing: Option<U>,
    /// Width at which the library wraps the text of a block.
    pub max_width: Option<U>,
    /// Minimum width of a text block.
    pub min_width: Option<U>,
}

impl<U, C> HasColorParams<C> for TextStyle<U, C> {
    open spec fn fill_color_spec(&self) -> Option<C> {
        self.fill_color
    }

    open spec fn outline_color_spec(&self) -> Option<C> {
        self.outline_color
    }

    fn set_fill_color(&mut self, color: C) {
        self.fill_color = Some(color);
    }

    fn set_outline_color(&mut self, color: C) {
        self.outline_color = Some(color);
    }

    fn take_fill_color(&mut self) -> (r: Option<C>) {
        self.fill_color.take()
    }

    fn take_outline_color(&mut self) -> (r: Option<C>) {
        self.outline_color.take()
    }
}

impl<U: Copy, C> FontRenderSizeParams<U> for TextStyle<U, C> {
    fn font_size(&self) -> (r: U)
        ensures
            r == self.font_size,
    {
        self.font_size
    }

    fn character_spacing(&self) -> (r: Option<U>)
        ensures
            r == self.character_spacing,
    {
        self.character_spacing
    }

    fn word_spacing(&self) -> (r: Option<U>)
        ensures
            r == self.word_spacing,
    {
        self.word_spacing
    }

    fn text_rise(&self) -> (r: Option<U>)
        ensures
            r == self.text_rise,
    {
        self.text_rise
    }
}

/// Overrides of some of the text style.
#[derive(Debug, PartialEq, Clone, Default)]
pub struct PartialTextStyle<U, C> {
    pub font_size: Option<U>,
    pub font_ref: Option<FontRef>,
    /// Defaults to previously set color or black
    pub fill_color: Option<C>,
    pub outline_color: Option<C>,
    pub word_spacing: Option<U>,
    pub max_width: Option<U>,
}

/// A value replaced when the override is set.
pub open spec fn replaced<T>(over: Option<T>, base: T) -> T {
    match over {
        Some(v) => v,
        None => base,
    }
}

impl<U, C> PartialTextStyle<U, C> {
    /// Whether nothing is overridden.
    pub fn is_empty(&self) -> (r: bool)
        ensures
            r == (self.font_size is None && self.font_ref is None && self.fill_color is None
                && self.outline_color is None && self.word_spacing is None && self.max_width is None),
    {
        self.font_size.is_none() && self.font_ref.is_none() && self.fill_color.is_none()
            && self.outline_color.is_none() && self.word_spacing.is_none() && self.max_width.is_none()
    }

    /// The full style with these overrides applied: each one that is set replaces the full
    /// style's value, the rest of the full style stays.
    pub fn merge_with_full(self, full: TextStyle<U, C>) -> (r: TextStyle<U, C>)
        ensures
            r.font_size == replaced(self.font_size, full.font_size),
            r.font_ref == replaced(self.font_ref, full.font_ref),
            r.fill_color == overridden(self.fill_color, full.fill_color),
            r.outline_color == overridden(self.outline_color, full.outline_color),
            r.word_spacing == overridden(self.word_spacing, full.word_spacing),
            r.max_width == overridden(self.max_width, full.max_width),
            r.character_spacing == full.character_spacing,
            r.text_rise == full.text_rise,
            r.line_spacing == full.line_spacing,
            r.min_width == full.min_width,
    {
        let mut new = full;
        if let Some(font_size) = self.font_size {
            new.font_size = font_size;
        }
        if let Some(font_ref) = self.font_ref {
            new.font_ref = font_ref;
        }
        if let Some(color) = self.fill_color {
            new.fill_color = Some(color);
        }
        if let Some(outline_color) = self.outline_color {
            new.outline_color = Some(outline_color);
        }
        if let Some(word_spacing) = self.word_spacing {
            new.word_spacing = Some(word_spacing);
        }
        if let Some(max_width) = self.max_width {
            new.max_width = Some(max_width);
        }
        new
    }
}

} // verus!
