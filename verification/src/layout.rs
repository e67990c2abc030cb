//! Items that take a place on a page: their position, and blank space.
use vstd::prelude::*;
use crate::geometry::{Line, OutlineRect, PaintMode, PaintedRect, PdfPosition, Size, StraightLine};

verus! {

/// Something placed at a position on a page.
pub trait HasPosition<U>: Sized {
    /// The position the item was placed at, if one was set.
    spec fn placed_at(&self) -> Option<PdfPosition<U>>;

    /// Whether the item is `before` with, at most, its position changed.
    spec fn same_but_position(&self, before: &Self) -> bool;

    /// The position of the item.
    fn position(&self) -> (r: PdfPosition<U>)
        ensures
            self.placed_at() matches Some(p) ==> r == p,
    ;

    /// Moves the item.
    fn set_position(&mut self, position: PdfPosition<U>)
        ensures
            final(self).placed_at() == Some(position),
            final(self).same_but_position(old(self)),
    ;

    /// The item, moved.
    fn with_position(self, position: PdfPosition<U>) -> (r: Self)
        ensures
            r.placed_at() == Some(position),
            r.same_but_position(&self),
    {
        let mut s = self;
        s.set_position(position);
        s
    }
}

/// Space left blank, to write in later: a size it must have, or a minimum and maximum.
#[derive(Debug, Clone, PartialEq, Default)]
pub struct BlankSpace<U> {
    pub min_size: Option<Size<U>>,
    pub max_size: Option<Size<U>>,
    pub set_size: Option<Size<U>>,
    pub position: Option<PdfPosition<U>>,
}

impl<U: Copy + Default> BlankSpace<U> {
    /// The size the space takes: its set size, else its minimum size, else the default size.
    pub fn calculate_size(&self) -> (r: Size<U>)
        ensures
            self.set_size matches Some(s) ==> r == s,
            (self.set_size is None && self.min_size is Some) ==> r == self.min_size.unwrap(),
            (self.set_size is None && self.min_size is None) ==> call_ensures(U::default, (), r.width)
                && call_ensures(U::default, (), r.height),
    {
        match self.set_size {
            Some(size) => size,
            None => match self.min_size {
                Some(size) => size,
                None => Size { width: U::default(), height: U::default() },
            },
        }
    }
}

impl<U: Copy + Default> HasPosition<U> for BlankSpace<U> {
    open spec fn placed_at(&self) -> Option<PdfPosition<U>> {
        self.position
    }

    open spec fn same_but_position(&self, before: &Self) -> bool {
        &&& self.min_size == before.min_size
        &&& self.max_size == before.max_size
        &&& self.set_size == before.set_size
    }

    /// The position that was set, or the default position.
    fn position(&self) -> (r: PdfPosition<U>)
        ensures
            self.position is None ==> call_ensures(U::default, (), r.x) && call_ensures(U::default, (), r.y),
    {
        match self.position {
            Some(p) => p,
            None => PdfPosition { x: U::default(), y: U::default() },
        }
    }

    fn set_position(&mut self, position: PdfPosition<U>) {
        self.position = Some(position);
    }
}

/// How a rectangle with or without a fill colour and an outline colour is painted:
/// both give fill and stroke, one of them gives fill or stroke, neither gives nothing.
pub open spec fn rectangle_paint_mode(has_fill: bool, has_outline: bool) -> Option<PaintMode> {
    if has_fill && has_outline {
        Some(PaintMode::FillStroke)
    } else if has_fill {
        Some(PaintMode::Fill)
    } else if has_outline {
        Some(PaintMode::Stroke)
    } else {
        None
    }
}

/// The paint mode of a rectangle from whether it has a fill colour and an outline colour.
pub fn paint_mode_for(has_fill: bool, has_outline: bool) -> (r: Option<PaintMode>)
    ensures
        r == rectangle_paint_mode(has_fill, has_outline),
{
    if has_fill && has_outline {
        Some(PaintMode::FillStroke)
    } else if has_fill {
        Some(PaintMode::Fill)
    } else if has_outline {
        Some(PaintMode::Stroke)
    } else {
        None
    }
}

/// The style of a rectangle, implemented by the users of the library: whether it has a fill
/// colour and an outline colour decide how it is painted.
pub trait RectangleStyleType {
    /// Whether the style has a fill colour (as `has_fill_color` reports it).
    spec fn fill_spec(&self) -> bool;

    /// Whether the style has an outline colour (as `has_outline_color` reports it).
    spec fn outline_spec(&self) -> bool;

    fn has_fill_color(&self) -> (r: bool)
        ensures
            r == self.fill_spec(),
    ;

    fn has_outline_color(&self) -> (r: bool)
        ensures
            r == self.outline_spec(),
    ;

    /// How the rectangle is painted.
    fn paint_mode(&self) -> (r: Option<PaintMode>)
        ensures
            r == rectangle_paint_mode(self.fill_spec(), self.outline_spec()),
    {
        paint_mode_for(self.has_fill_color(), self.has_outline_color())
    }
}

} // verus!

verus! {

/// How shapes are drawn: line width, fill colour and outline colour.
#[derive(Debug, Clone, PartialEq, Default)]
pub struct GraphicStyles<W, C> {
    pub line_width: Option<W>,
    pub fill_color: Option<C>,
    pub outline_color: Option<C>,
}

impl<W, C> RectangleStyleType for GraphicStyles<W, C> {
    open spec fn fill_spec(&self) -> bool {
        self.fill_color is Some
    }

    open spec fn outline_spec(&self) -> bool {
        self.outline_color is Some
    }

    /// Whether a fill colour is set.
    fn has_fill_color(&self) -> (r: bool) {
        self.fill_color.is_some()
    }

    /// Whether an outline colour is set.
    fn has_outline_color(&self) -> (r: bool) {
        self.outline_color.is_some()
    }
}

/// How a line is drawn: its width, outline colour and outline thickness.
#[derive(Debug, Clone, PartialEq, Default)]
pub struct LineStyles<W, C> {
    pub width: Option<W>,
    pub outline_color: Option<C>,
    pub outline_thickness: Option<W>,
}

/// Overrides of some graphic styles.
#[derive(Debug, Clone, PartialEq, Default)]
pub struct PartialGraphicStyles<W, C> {
    pub line_width: Option<W>,
    pub fill_color: Option<C>,
    pub outline_color: Option<C>,
}

/// A value overridden when the override is set.
pub open spec fn overridden<T>(over: Option<T>, base: Option<T>) -> Option<T> {
    match over {
        Some(v) => Some(v),
        None => base,
    }
}

impl<W, C> PartialGraphicStyles<W, C> {
    /// Whether no style is overridden.
    pub fn is_empty(&self) -> (r: bool)
        ensures
            r == (self.line_width is None && self.fill_color is None && self.outline_color is None),
    {
        self.line_width.is_none() && self.fill_color.is_none() && self.outline_color.is_none()
    }

    /// The full styles with these overrides applied: each style that is set here replaces
    /// the full one.
    pub fn merge_with_full(self, full: GraphicStyles<W, C>) -> (r: GraphicStyles<W, C>)
        ensures
            r.line_width == overridden(self.line_width, full.line_width),
            r.fill_color == overridden(self.fill_color, full.fill_color),
            r.outline_color == overridden(self.outline_color, full.outline_color),
    {
        let mut new = full;
        if let Some(line_width) = self.line_width {
            new.line_width = Some(line_width);
        }
        if let Some(fill_color) = self.fill_color {
            new.fill_color = Some(fill_color);
        }
        if let Some(outline_color) = self.outline_color {
            new.outline_color = Some(outline_color);
        }
        new
    }
}

/// Law of overriding styles: applying no overrides keeps the full styles, and applying the
/// same overrides twice is the same as applying them once.
pub proof fn law_overrides_idempotent<T>(over: Option<T>, base: Option<T>)
    ensures
        overridden(None::<T>, base) == base,
        overridden(over, overridden(over, base)) == overridden(over, base),
{
}

/// A graphic item: a line, a rectangle, or a group of items.
#[derive(Debug, PartialEq)]
pub enum GraphicItems<U, W, C> {
    StraightLine(StraightLine<U>),
    Line(Line<U>),
    Rectangle(PaintedRect<U>),
    OutlineRectangle(OutlineRect<U>),
    Group(GraphicsGroup<U, W, C>),
}

/// Graphic items drawn in one graphics state, so that it is restored once after all of them,
/// with the styles they share.
#[derive(Debug, PartialEq)]
pub struct GraphicsGroup<U, W, C> {
    pub styles: Option<GraphicStyles<W, C>>,
    pub items: Vec<GraphicItems<U, W, C>>,
}

impl<U, W, C> GraphicsGroup<U, W, C> {
    /// An empty group without styles.
    pub fn new() -> (r: Self)
        ensures
            r.styles is None,
            r.items@.len() == 0,
    {
        GraphicsGroup { styles: None, items: Vec::new() }
    }

    /// An empty group with the given styles.
    pub fn with_styles(styles: GraphicStyles<W, C>) -> (r: Self)
        ensures
            r.styles == Some(styles),
            r.items@.len() == 0,
    {
        GraphicsGroup { styles: Some(styles), items: Vec::new() }
    }

    /// Appends an item.
    pub fn add_item(&mut self, item: GraphicItems<U, W, C>)
        ensures
            final(self).items@ == old(self).items@.push(item),
            final(self).styles == old(self).styles,
    {
        self.items.push(item);
    }

    /// Appends items, in order.
    pub fn add_from_iter(&mut self, items: Vec<GraphicItems<U, W, C>>)
        ensures
            final(self).items@ == old(self).items@ + items@,
            final(self).styles == old(self).styles,
    {
        let mut items = items;
        self.items.append(&mut items);
    }
}

} // verus!
