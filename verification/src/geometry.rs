//! Positions, sizes, rectangles and paths on a page.
//!
//! The types are generic over the unit `U` of their coordinates. Arithmetic on a unit
//! goes through `std::ops`; its result is stated through vstd's specification of those
//! operators (`add_spec`, `sub_spec`), which holds for every type that obeys it,
//! the integer types among them.
use vstd::prelude::*;
use crate::ops::OperationKeyType;
use crate::pdf_object::{objs_view, push_item, ObjView, PdfObject};
use vstd::std_specs::ops::AddSpec;
use vstd::std_specs::ops::SubSpec;
use core::ops::Add;
use core::ops::Sub;
use core::ops::Div;
use core::convert::From;
use vstd::std_specs::ops::DivSpec;
use vstd::std_specs::convert::FromSpec;

verus! {

/// A size: a width and a height.
#[derive(Debug, Default, Copy, Clone, PartialEq)]
pub struct Size<U> {
    pub width: U,
    pub height: U,
}

/// A position on a page, from its bottom left corner.
#[derive(Debug, Default, Copy, Clone, PartialEq, PartialOrd)]
pub struct PdfPosition<U> {
    /// x position from the bottom left corner
    pub x: U,
    /// y position from the bottom left corner
    pub y: U,
}

impl<U> Size<U> {
    /// A size of the given width and height.
    pub fn new(width: U, height: U) -> (r: Self)
        ensures
            r.width == width,
            r.height == height,
    {
        Size { width, height }
    }

    /// The same size turned a quarter: width and height swapped.
    pub fn landscape(&self) -> (r: Self)
        where U: Copy,
        ensures
            r.width == self.height,
            r.height == self.width,
    {
        Size { width: self.height, height: self.width }
    }

    /// The top left corner of a page of this size: x is the unit's default, y is the height.
    pub fn top_left_point(&self) -> (r: PdfPosition<U>)
        where U: Default + Copy,
        ensures
            call_ensures(U::default, (), r.x),
            r.y == self.height,
    {
        PdfPosition { x: U::default(), y: self.height }
    }
}

impl<U> PdfPosition<U> {
    /// A position at (x, y), from the bottom left corner of the page.
    pub fn new(x: U, y: U) -> (r: Self)
        ensures
            r.x == x,
            r.y == y,
    {
        PdfPosition { x, y }
    }

    /// Because PDF 0,0 is at the bottom left, this function inverts the y-axis:
    /// x stays, y becomes the page height minus y.
    pub fn invert_from_page_size(&self, page_size: Size<U>) -> (r: PdfPosition<U>)
        where U: Copy + Sub<U, Output = U>,
        requires
            page_size.height.sub_req(self.y),
        ensures
            r.x == self.x,
            U::obeys_sub_spec() ==> r.y == page_size.height.sub_spec(self.y),
            U::obeys_sub_spec() ==> r == inverted(*self, page_size),
    {
        PdfPosition { x: self.x, y: page_size.height - self.y }
    }
}

/// A position measured from the other edge of a page of size `page_size`: x stays, y becomes
/// the page height minus y.
pub open spec fn inverted<U: Sub<Output = U>>(p: PdfPosition<U>, page_size: Size<U>) -> PdfPosition<U> {
    PdfPosition { x: p.x, y: page_size.height.sub_spec(p.y) }
}

/// Law of inverting positions: in whole units, inverting a position on a page twice gives it
/// back.
pub proof fn law_invert_twice(p: PdfPosition<i64>, page_size: Size<i64>)
    requires
        i64::MIN <= page_size.height - p.y <= i64::MAX,
    ensures
        inverted(inverted(p, page_size), page_size) == p,
{
}

/// A rectangle without fill, just an outline, given by its corner position and its size.
#[derive(Debug, Default, PartialEq, Clone, Copy)]
pub struct OutlineRect<U> {
    pub position: PdfPosition<U>,
    pub size: Size<U>,
}

impl<U> OutlineRect<U> {
    /// The rectangle itself, as the media box of a page.
    pub fn media_box(&self) -> (r: OutlineRect<U>)
        where U: Copy,
        ensures
            r == *self,
    {
        *self
    }

    /// The lower left corner of the rectangle.
    pub fn lower_left(&self) -> (r: PdfPosition<U>)
        where U: Copy,
        ensures
            r == self.position,
    {
        self.position
    }

    /// The corner opposite the position: position plus size.
    pub fn upper_right(&self) -> (r: PdfPosition<U>)
        where U: Copy + Add<Output = U>,
        requires
            self.position.x.add_req(self.size.width),
            self.position.y.add_req(self.size.height),
        ensures
            U::obeys_add_spec() ==> r.x == self.position.x.add_spec(self.size.width),
            U::obeys_add_spec() ==> r.y == self.position.y.add_spec(self.size.height),
    {
        PdfPosition { x: self.position.x + self.size.width, y: self.position.y + self.size.height }
    }

    /// A rectangle of the given size at the unit's default position.
    pub fn from_wh(width: U, height: U) -> (r: Self)
        where U: Default,
        ensures
            call_ensures(U::default, (), r.position.x),
            call_ensures(U::default, (), r.position.y),
            r.size.width == width,
            r.size.height == height,
    {
        OutlineRect { position: PdfPosition { x: U::default(), y: U::default() }, size: Size { width, height } }
    }

    /// The outline's starting corner and the rest of its corners, in drawing order.
    pub fn gen_points_and_start(&self) -> (r: (PdfPosition<U>, Vec<PdfPosition<U>>))
        where U: Copy + Sub<Output = U> + Add<Output = U> + Default,
        requires
            self.position.y.sub_req(self.size.height),
            self.position.x.add_req(self.size.width),
        ensures
            (U::obeys_add_spec() && U::obeys_sub_spec()) ==> (r.0, r.1@) == rect_start_and_points(
                self.position,
                self.size,
            ),
    {
        gen_start_and_points_from_position_and_size(self.position, self.size)
    }
}

/// The corners of a rectangle hanging down from its position (the top left corner):
/// top left first, then top right, bottom right and bottom left.
pub open spec fn rect_corners<U: Add<Output = U> + Sub<Output = U>>(
    position: PdfPosition<U>,
    size: Size<U>,
) -> Seq<PdfPosition<U>> {
    let top = position.y;
    let bottom = position.y.sub_spec(size.height);
    let left = position.x;
    let right = position.x.add_spec(size.width);
    seq![
        PdfPosition { x: left, y: top },
        PdfPosition { x: right, y: top },
        PdfPosition { x: right, y: bottom },
        PdfPosition { x: left, y: bottom },
    ]
}

/// The first corner and the other three of `rect_corners`.
pub open spec fn rect_start_and_points<U: Add<Output = U> + Sub<Output = U>>(
    position: PdfPosition<U>,
    size: Size<U>,
) -> (PdfPosition<U>, Seq<PdfPosition<U>>) {
    (rect_corners(position, size)[0], rect_corners(position, size).drop_first())
}

/// The corners of a rectangle hanging down from `position`, the first one apart.
pub fn gen_start_and_points_from_position_and_size<U>(position: PdfPosition<U>, size: Size<U>) -> (r: (
    PdfPosition<U>,
    Vec<PdfPosition<U>>,
))
    where U: Copy + Sub<Output = U> + Add<Output = U> + Default,
    requires
        position.y.sub_req(size.height),
        position.x.add_req(size.width),
    ensures
        (U::obeys_add_spec() && U::obeys_sub_spec()) ==> (r.0, r.1@) == rect_start_and_points(
            position,
            size,
        ),
{
    let top = position.y;
    let bottom = position.y - size.height;
    let left = position.x;
    let right = position.x + size.width;
    let tl = PdfPosition { x: left, y: top };
    let tr = PdfPosition { x: right, y: top };
    let br = PdfPosition { x: right, y: bottom };
    let bl = PdfPosition { x: left, y: bottom };
    let mut points = Vec::new();
    points.push(tr);
    points.push(br);
    points.push(bl);
    proof {
        if U::obeys_add_spec() && U::obeys_sub_spec() {
            assert(points@ == rect_corners(position, size).drop_first());
        }
    }
    (tl, points)
}

/// The four corners of a rectangle hanging down from `position`, in drawing order.
pub fn gen_points_from_position_and_size<U>(position: PdfPosition<U>, size: Size<U>) -> (r: Vec<
    PdfPosition<U>,
>)
    where U: Copy + Sub<Output = U> + Add<Output = U> + Default,
    requires
        position.y.sub_req(size.height),
        position.x.add_req(size.width),
    ensures
        (U::obeys_add_spec() && U::obeys_sub_spec()) ==> r@ == rect_corners(position, size),
{
    let top = position.y;
    let bottom = position.y - size.height;
    let left = position.x;
    let right = position.x + size.width;
    let mut points = Vec::new();
    points.push(PdfPosition { x: left, y: top });
    points.push(PdfPosition { x: right, y: top });
    points.push(PdfPosition { x: right, y: bottom });
    points.push(PdfPosition { x: left, y: bottom });
    proof {
        if U::obeys_add_spec() && U::obeys_sub_spec() {
            assert(points@ == rect_corners(position, size));
        }
    }
    points
}

} // verus!

verus! {

/// Painting a path: clip to it, fill it, stroke it, or fill then stroke it.
#[derive(Debug, Default, Copy, Clone, PartialEq, Eq, Hash, Structural)]
pub enum PaintMode {
    /// Clip the current path
    Clip,
    /// Fill the current path
    #[default]
    Fill,
    /// Stroke the current path
    Stroke,
    /// Fill and then stroke the current path
    FillStroke,
}

/// The rule that decides which points lie inside a path.
#[derive(Debug, Default, Clone, Copy, PartialEq, Eq, Hash, Structural)]
pub enum WindingOrder {
    EvenOdd,
    #[default]
    NonZero,
}

/// The path painting operators of a content stream.
#[derive(Debug, Clone, Copy, PartialEq, Eq, Structural)]
pub enum PathPaintOperationKeys {
    /// Stroke Close
    StrokeClose,
    /// Path Paint Stroke
    Stroke,
    /// Fills the path using the non-zero winding rule
    FillNonZero,
    /// Fills the path using the even-odd rule
    FillEvenOdd,
    /// Fill and then strokes the path. Using the non zero winding number rule
    FillStrokeNonZero,
    /// Fill and then strokes the path. Using the even odd winding number rule
    FillStrokeEvenOdd,
    /// Fill, stroke, and then close the path. Using the non zero winding number rule
    FillStrokeCloseNonZero,
    /// Fill, stroke, and then close the path. Using the even odd winding number rule
    FillStrokeCloseEvenOdd,
    /// Intersect the clipping path with the current path, non zero winding number rule
    ClipNonZero,
    /// Intersect the clipping path with the current path, even odd winding number rule
    ClipEvenOdd,
    /// End the path oject without filling or stroking it
    PathPaintEnd,
}

/// The operator text of each path painting key.
pub open spec fn path_paint_key_spec(k: PathPaintOperationKeys) -> Seq<char> {
    match k {
        PathPaintOperationKeys::StrokeClose => "s"@,
        PathPaintOperationKeys::Stroke => "S"@,
        PathPaintOperationKeys::FillNonZero => "f"@,
        PathPaintOperationKeys::FillEvenOdd => "f*"@,
        PathPaintOperationKeys::FillStrokeNonZero => "B"@,
        PathPaintOperationKeys::FillStrokeEvenOdd => "B*"@,
        PathPaintOperationKeys::FillStrokeCloseNonZero => "b"@,
        PathPaintOperationKeys::FillStrokeCloseEvenOdd => "b*"@,
        PathPaintOperationKeys::ClipNonZero => "W"@,
        PathPaintOperationKeys::ClipEvenOdd => "W*"@,
        PathPaintOperationKeys::PathPaintEnd => "n"@,
    }
}

impl OperationKeyType for PathPaintOperationKeys {
    open spec fn key_spec(&self) -> Seq<char> {
        path_paint_key_spec(*self)
    }

    /// The operator text of this key in a content stream.
    fn key(&self) -> (r: &'static str) {
        match self {
            PathPaintOperationKeys::StrokeClose => "s",
            PathPaintOperationKeys::Stroke => "S",
            PathPaintOperationKeys::FillNonZero => "f",
            PathPaintOperationKeys::FillEvenOdd => "f*",
            PathPaintOperationKeys::FillStrokeNonZero => "B",
            PathPaintOperationKeys::FillStrokeEvenOdd => "B*",
            PathPaintOperationKeys::FillStrokeCloseNonZero => "b",
            PathPaintOperationKeys::FillStrokeCloseEvenOdd => "b*",
            PathPaintOperationKeys::ClipNonZero => "W",
            PathPaintOperationKeys::ClipEvenOdd => "W*",
            PathPaintOperationKeys::PathPaintEnd => "n",
        }
    }
}

/// The path construction operators of a content stream.
#[derive(Debug, Clone, Copy, PartialEq, Eq, Structural)]
pub enum PathConstructionOperators {
    /// Path move to
    PathMoveTo,
    /// Path Line To
    PathLineTo,
    /// Cubic Bezier with two points, curving closer to the second point
    BezierCurveTwoV1,
    /// Cubic Bezier with two points, curving closer to the first point
    BezierCurveTwoV2,
    /// Cubic Bezier with 3 points
    BezierCurveFour,
    /// Append a rectangle to the current path as a complete subpath
    PathRectangle,
}

/// The operator text of each path construction key.
pub open spec fn path_construction_key_spec(k: PathConstructionOperators) -> Seq<char> {
    match k {
        PathConstructionOperators::PathMoveTo => "m"@,
        PathConstructionOperators::PathLineTo => "l"@,
        PathConstructionOperators::BezierCurveTwoV1 => "v"@,
        PathConstructionOperators::BezierCurveTwoV2 => "y"@,
        PathConstructionOperators::BezierCurveFour => "c"@,
        PathConstructionOperators::PathRectangle => "re"@,
    }
}

impl OperationKeyType for PathConstructionOperators {
    open spec fn key_spec(&self) -> Seq<char> {
        path_construction_key_spec(*self)
    }

    /// The operator text of this key in a content stream.
    fn key(&self) -> (r: &'static str) {
        match self {
            PathConstructionOperators::PathMoveTo => "m",
            PathConstructionOperators::PathLineTo => "l",
            PathConstructionOperators::BezierCurveTwoV1 => "v",
            PathConstructionOperators::BezierCurveTwoV2 => "y",
            PathConstructionOperators::BezierCurveFour => "c",
            PathConstructionOperators::PathRectangle => "re",
        }
    }
}

/// The painting operator for a paint mode under a winding order.
pub open spec fn paint_operation_spec(mode: PaintMode, order: WindingOrder) -> PathPaintOperationKeys {
    match (mode, order) {
        (PaintMode::Clip, WindingOrder::EvenOdd) => PathPaintOperationKeys::ClipEvenOdd,
        (PaintMode::Clip, WindingOrder::NonZero) => PathPaintOperationKeys::ClipNonZero,
        (PaintMode::Fill, WindingOrder::EvenOdd) => PathPaintOperationKeys::FillEvenOdd,
        (PaintMode::Fill, WindingOrder::NonZero) => PathPaintOperationKeys::FillNonZero,
        (PaintMode::Stroke, _) => PathPaintOperationKeys::Stroke,
        (PaintMode::FillStroke, WindingOrder::EvenOdd) => PathPaintOperationKeys::FillStrokeEvenOdd,
        (PaintMode::FillStroke, WindingOrder::NonZero) => PathPaintOperationKeys::FillStrokeNonZero,
    }
}

impl PaintMode {
    /// The painting operator for this mode under the given winding order.
    pub fn operation_key(&self, winding_order: WindingOrder) -> (r: PathPaintOperationKeys)
        ensures
            r == paint_operation_spec(*self, winding_order),
    {
        match (self, winding_order) {
            (PaintMode::Clip, WindingOrder::EvenOdd) => PathPaintOperationKeys::ClipEvenOdd,
            (PaintMode::Clip, WindingOrder::NonZero) => PathPaintOperationKeys::ClipNonZero,
            (PaintMode::Fill, WindingOrder::EvenOdd) => PathPaintOperationKeys::FillEvenOdd,
            (PaintMode::Fill, WindingOrder::NonZero) => PathPaintOperationKeys::FillNonZero,
            (PaintMode::Stroke, _) => PathPaintOperationKeys::Stroke,
            (PaintMode::FillStroke, WindingOrder::EvenOdd) => PathPaintOperationKeys::FillStrokeEvenOdd,
            (PaintMode::FillStroke, WindingOrder::NonZero) => PathPaintOperationKeys::FillStrokeNonZero,
        }
    }
}

/// Law of the painting operators: the winding order decides the operator of every mode
/// but stroking, and distinct (mode, order) pairs that are not both strokes get distinct
/// operators.
pub proof fn law_paint_operation_injective(m1: PaintMode, o1: WindingOrder, m2: PaintMode, o2: WindingOrder)
    ensures
        paint_operation_spec(m1, o1) == paint_operation_spec(m2, o2) ==> m1 == m2 && (m1
            == PaintMode::Stroke || o1 == o2),
{
}

/// A rectangle to be painted, given by its lower left corner and its size.
#[derive(Debug, Default, PartialEq, Clone)]
pub struct PaintedRect<U> {
    /// Lower left corner of the rectangle
    pub position: PdfPosition<U>,
    pub size: Size<U>,
    pub winding_order: WindingOrder,
    pub paint_mode: PaintMode,
}

impl<U> PaintedRect<U> {
    /// A rectangle at (x, y) of the given size, filled with the non-zero rule.
    pub fn new(x: U, y: U, width: U, height: U) -> (r: Self)
        ensures
            r.position == (PdfPosition { x, y }),
            r.size == (Size { width, height }),
            r.winding_order == WindingOrder::NonZero,
            r.paint_mode == PaintMode::Fill,
    {
        PaintedRect {
            position: PdfPosition { x, y },
            size: Size { width, height },
            winding_order: WindingOrder::NonZero,
            paint_mode: PaintMode::Fill,
        }
    }

    /// The rectangle, painted with the given mode.
    pub fn with_mode(self, mode: PaintMode) -> (r: Self)
        ensures
            r == (PaintedRect { paint_mode: mode, ..self }),
    {
        let mut s = self;
        s.paint_mode = mode;
        s
    }

    /// The rectangle, filled with the given winding rule.
    pub fn with_winding_order(self, order: WindingOrder) -> (r: Self)
        ensures
            r == (PaintedRect { winding_order: order, ..self }),
    {
        let mut s = self;
        s.winding_order = order;
        s
    }
}

/// Half of a unit value: the value divided by the unit's 2.
pub open spec fn half<U: Div<Output = U> + From<u8>>(v: U) -> U {
    v.div_spec(U::from_spec(2u8))
}

/// The lower left corner of a box of the given size centred on `center`.
pub open spec fn centered_corner<U: Div<Output = U> + Sub<Output = U> + From<u8>>(
    center: PdfPosition<U>,
    width: U,
    height: U,
) -> PdfPosition<U> {
    PdfPosition { x: center.x.sub_spec(half(width)), y: center.y.sub_spec(half(height)) }
}

/// Whether halving the size and subtracting the halves from the centre are defined: for a unit
/// whose `from` and `/` follow their specifications, for the values they give; for any other
/// unit, for every divisor and every half.
pub open spec fn centering_defined<U: Div<Output = U> + Sub<Output = U> + From<u8>>(
    center: PdfPosition<U>,
    width: U,
    height: U,
) -> bool {
    &&& if U::obeys_from_spec() {
        width.div_req(U::from_spec(2u8)) && height.div_req(U::from_spec(2u8))
    } else {
        forall|d: U| #![trigger width.div_req(d)] #![trigger height.div_req(d)] width.div_req(d) && height.div_req(d)
    }
    &&& if U::obeys_from_spec() && U::obeys_div_spec() {
        center.x.sub_req(half(width)) && center.y.sub_req(half(height))
    } else {
        forall|h: U| #![trigger center.x.sub_req(h)] #![trigger center.y.sub_req(h)] center.x.sub_req(h)
            && center.y.sub_req(h)
    }
}

/// Whether the unit's `from`, `/` and `-` follow their specifications.
pub open spec fn centering_specified<U: Div<Output = U> + Sub<Output = U> + From<u8>>() -> bool {
    U::obeys_from_spec() && U::obeys_div_spec() && U::obeys_sub_spec()
}

/// The lower left corner of a box of the given size centred on `center`.
fn corner_from_center<U>(center: PdfPosition<U>, width: U, height: U) -> (r: PdfPosition<U>)
    where U: Copy + Div<Output = U> + Sub<Output = U> + From<u8>,
    requires
        centering_defined(center, width, height),
    ensures
        centering_specified::<U>() ==> r == centered_corner(center, width, height),
{
    let two_w = U::from(2u8);
    let two_h = U::from(2u8);
    let half_w = width / two_w;
    let half_h = height / two_h;
    PdfPosition { x: center.x - half_w, y: center.y - half_h }
}

impl<U> PaintedRect<U> {
    /// Creates a new rectangle with the center point being the center of the rectangle.
    ///
    /// Then it calculates the rest of the points based on the center point and the width and height.
    pub fn new_rectangle(width: U, height: U, center_point: PdfPosition<U>) -> (r: Self)
        where U: Copy + Div<Output = U> + Sub<Output = U> + From<u8>,
        requires
            centering_defined(center_point, width, height),
        ensures
            centering_specified::<U>() ==> r.position == centered_corner(center_point, width, height),
            r.size == (Size { width, height }),
            r.winding_order == WindingOrder::NonZero,
            r.paint_mode == PaintMode::Fill,
    {
        let position = corner_from_center(center_point, width, height);
        PaintedRect {
            position,
            size: Size { width, height },
            winding_order: WindingOrder::NonZero,
            paint_mode: PaintMode::Fill,
        }
    }

    /// A square of side `size` centred on `center_point`: the rectangle of that width and
    /// height.
    pub fn new_square(size: U, center_point: PdfPosition<U>) -> (r: Self)
        where U: Copy + Div<Output = U> + Sub<Output = U> + From<u8>,
        requires
            centering_defined(center_point, size, size),
        ensures
            centering_specified::<U>() ==> r.position == centered_corner(center_point, size, size),
            r.size == (Size { width: size, height: size }),
            r.winding_order == WindingOrder::NonZero,
            r.paint_mode == PaintMode::Fill,
    {
        Self::new_rectangle(size, size, center_point)
    }
}

impl<U> OutlineRect<U> {
    /// Creates a rectangle where the squares center is the center_point
    pub fn new_square(size: U, center_point: PdfPosition<U>) -> (r: Self)
        where U: Copy + Div<Output = U> + Sub<Output = U> + From<u8>,
        requires
            centering_defined(center_point, size, size),
        ensures
            centering_specified::<U>() ==> r.position == centered_corner(center_point, size, size),
            r.size == (Size { width: size, height: size }),
    {
        let position = corner_from_center(center_point, size, size);
        OutlineRect { position, size: Size { width: size, height: size } }
    }
}

} // verus!

verus! {

/// A path operation of a content stream, with its operands.
#[derive(Debug, Clone, Copy, PartialEq)]
pub enum PathOperation<U> {
    /// `m`: begin a subpath at a point
    MoveTo(PdfPosition<U>),
    /// `l`: a straight segment to a point
    LineTo(PdfPosition<U>),
    /// `v`: a Bezier curve with two points
    CurveTwoV1(PdfPosition<U>, PdfPosition<U>),
    /// `y`: a Bezier curve with two points
    CurveTwoV2(PdfPosition<U>, PdfPosition<U>),
    /// `c`: a Bezier curve with three points
    CurveFour(PdfPosition<U>, PdfPosition<U>, PdfPosition<U>),
    /// `re`: a rectangle given by x, y, width and height
    Rectangle(U, U, U, U),
    /// A painting operator without operands
    Paint(PathPaintOperationKeys),
}

/// A path of straight segments: a start and the points that follow.
#[derive(Debug, Clone, PartialEq, Default)]
pub struct StraightLine<U> {
    pub start: PdfPosition<U>,
    /// The points the line goes through after the start
    pub points: Vec<PdfPosition<U>>,
    /// Whether the line should automatically be closed
    pub is_closed: bool,
}

/// The stroke that ends a path: closing it or not.
pub open spec fn stroke_end(is_closed: bool) -> PathPaintOperationKeys {
    if is_closed {
        PathPaintOperationKeys::StrokeClose
    } else {
        PathPaintOperationKeys::Stroke
    }
}

/// The operations that draw a straight line: nothing when it has no points after the start,
/// else a move to the start, a segment to each point and the stroke.
pub open spec fn straight_line_ops<U>(start: PdfPosition<U>, points: Seq<PdfPosition<U>>, is_closed: bool) -> Seq<
    PathOperation<U>,
> {
    if points.len() == 0 {
        Seq::empty()
    } else {
        seq![PathOperation::MoveTo(start)] + points.map_values(|p: PdfPosition<U>| PathOperation::LineTo(p))
            + seq![PathOperation::Paint(stroke_end(is_closed))]
    }
}

impl<U: Copy> StraightLine<U> {
    /// A line through the given points: the first is the start. The points must not be empty.
    pub fn from_points(points: Vec<PdfPosition<U>>, is_closed: bool) -> (r: Self)
        requires
            points.len() > 0,
        ensures
            r.start == points@[0],
            r.points@ == points@.drop_first(),
            r.is_closed == is_closed,
    {
        let mut points = points;
        let start = points.remove(0);
        StraightLine { start, points, is_closed }
    }

    /// The content stream operations that draw this line.
    pub fn operations(&self) -> (r: Vec<PathOperation<U>>)
        ensures
            r@ == straight_line_ops(self.start, self.points@, self.is_closed),
    {
        let mut ops = Vec::new();
        if self.points.len() == 0 {
            return ops;
        }
        ops.push(PathOperation::MoveTo(self.start));
        let mut i: usize = 0;
        while i < self.points.len()
            invariant
                i <= self.points.len(),
                ops@ == seq![PathOperation::MoveTo(self.start)] + self.points@.take(i as int).map_values(
                    |p: PdfPosition<U>| PathOperation::LineTo(p),
                ),
            decreases self.points.len() - i,
        {
            ops.push(PathOperation::LineTo(self.points[i]));
            proof {
                assert(self.points@.take(i + 1) == self.points@.take(i as int).push(self.points@[i as int]));
            }
            i = i + 1;
        }
        if self.is_closed {
            ops.push(PathOperation::Paint(PathPaintOperationKeys::StrokeClose));
        } else {
            ops.push(PathOperation::Paint(PathPaintOperationKeys::Stroke));
        }
        proof {
            assert(self.points@.take(self.points@.len() as int) == self.points@);
        }
        ops
    }
}

impl<U: Copy + Sub<Output = U> + Add<Output = U> + Default> OutlineRect<U> {
    /// The closed line along the rectangle's outline, from its top left corner.
    pub fn into_line(&self) -> (r: StraightLine<U>)
        requires
            self.position.y.sub_req(self.size.height),
            self.position.x.add_req(self.size.width),
        ensures
            r.is_closed,
            (U::obeys_add_spec() && U::obeys_sub_spec()) ==> (r.start, r.points@) == rect_start_and_points(
                self.position,
                self.size,
            ),
    {
        let (start, points) = self.gen_points_and_start();
        StraightLine { start, points, is_closed: true }
    }

    /// The filled polygon of the rectangle's outline.
    pub fn into_polygon(&self) -> (r: Polygon<U>)
        requires
            self.position.y.sub_req(self.size.height),
            self.position.x.add_req(self.size.width),
        ensures
            r.rings.len() == 1,
            (U::obeys_add_spec() && U::obeys_sub_spec()) ==> r.rings[0]@ == rect_corners(
                self.position,
                self.size,
            ).map_values(|p: PdfPosition<U>| (p, false)),
            r.mode == PaintMode::Fill,
            r.winding_order == WindingOrder::NonZero,
    {
        let points = gen_points_from_position_and_size(self.position, self.size);
        let mut ring = Vec::new();
        let mut i: usize = 0;
        while i < points.len()
            invariant
                i <= points.len(),
                ring@ == points@.take(i as int).map_values(|p: PdfPosition<U>| (p, false)),
            decreases points.len() - i,
        {
            ring.push((points[i], false));
            proof {
                assert(points@.take(i + 1) == points@.take(i as int).push(points@[i as int]));
            }
            i = i + 1;
        }
        proof {
            assert(points@.take(points@.len() as int) == points@);
        }
        let mut rings = Vec::new();
        rings.push(ring);
        Polygon { rings, mode: PaintMode::Fill, winding_order: WindingOrder::NonZero }
    }
}

/// A polygon: rings of points, each with whether the next point is a Bezier control point.
#[derive(Debug, Clone, PartialEq, Default)]
pub struct Polygon<U> {
    pub rings: Vec<Vec<(PdfPosition<U>, bool)>>,
    /// What type of polygon is this?
    pub mode: PaintMode,
    /// Winding order to use for constructing this polygon
    pub winding_order: WindingOrder,
}

/// The rectangle operator followed by the paint operator and the end of the path.
pub open spec fn painted_rect_ops<U>(rect: PaintedRect<U>) -> Seq<PathOperation<U>> {
    seq![
        PathOperation::Rectangle(rect.position.x, rect.position.y, rect.size.width, rect.size.height),
        PathOperation::Paint(paint_operation_spec(rect.paint_mode, rect.winding_order)),
        PathOperation::Paint(PathPaintOperationKeys::PathPaintEnd),
    ]
}

impl<U: Copy> PaintedRect<U> {
    /// The content stream operations that paint this rectangle.
    pub fn operations(&self) -> (r: Vec<PathOperation<U>>)
        ensures
            r@ == painted_rect_ops(*self),
    {
        let mut ops = Vec::new();
        ops.push(
            PathOperation::Rectangle(self.position.x, self.position.y, self.size.width, self.size.height),
        );
        ops.push(PathOperation::Paint(self.paint_mode.operation_key(self.winding_order)));
        ops.push(PathOperation::Paint(PathPaintOperationKeys::PathPaintEnd));
        ops
    }
}

/// A point of a line: a straight segment's end or a Bezier curve.
#[derive(Debug, Clone, Copy, PartialEq)]
pub enum LinePoint<U> {
    Point(PdfPosition<U>),
    V1Bezier { start: PdfPosition<U>, end: PdfPosition<U> },
    V2Bezier { start: PdfPosition<U>, end: PdfPosition<U> },
    /// The first point is the start, the second point is the control point, and the third point is the end.
    ThreePointBezier { start: PdfPosition<U>, end: PdfPosition<U>, new_control: PdfPosition<U> },
}

/// The operation that draws one line point; the three point curve takes start, control, end.
pub open spec fn line_point_op<U>(p: LinePoint<U>) -> PathOperation<U> {
    match p {
        LinePoint::Point(q) => PathOperation::LineTo(q),
        LinePoint::V1Bezier { start, end } => PathOperation::CurveTwoV1(start, end),
        LinePoint::V2Bezier { start, end } => PathOperation::CurveTwoV2(start, end),
        LinePoint::ThreePointBezier { start, end, new_control } => PathOperation::CurveFour(
            start,
            new_control,
            end,
        ),
    }
}

/// The current point after a path construction operation: the last point it names (a
/// `v` or `y` curve names a control point and then its end, a `c` curve two control points and
/// then its end).
pub open spec fn current_point_after<U>(op: PathOperation<U>) -> Option<PdfPosition<U>> {
    match op {
        PathOperation::MoveTo(p) => Some(p),
        PathOperation::LineTo(p) => Some(p),
        PathOperation::CurveTwoV1(_, p) => Some(p),
        PathOperation::CurveTwoV2(_, p) => Some(p),
        PathOperation::CurveFour(_, _, p) => Some(p),
        _ => None,
    }
}

/// Where a line point takes the line: the point itself, or the end of its curve.
pub open spec fn line_point_target<U>(p: LinePoint<U>) -> PdfPosition<U> {
    match p {
        LinePoint::Point(q) => q,
        LinePoint::V1Bezier { end, .. } => end,
        LinePoint::V2Bezier { end, .. } => end,
        LinePoint::ThreePointBezier { end, .. } => end,
    }
}

/// Law of drawing line points: the operation of a point takes the path to the point's target,
/// the end of a curve; a three point curve is drawn with `start` and then `new_control` as
/// its control points.
pub proof fn law_line_point_reaches_its_target<U>(p: LinePoint<U>)
    ensures
        current_point_after(line_point_op(p)) == Some(line_point_target(p)),
        p matches LinePoint::ThreePointBezier { start, end, new_control } ==> (line_point_op(p) matches PathOperation::CurveFour(
            c1,
            c2,
            _,
        ) && c1 == start && c2 == new_control),
{
}

impl<U: Copy> LinePoint<U> {
    /// The content stream operation that draws this point.
    pub fn operation(&self) -> (r: PathOperation<U>)
        ensures
            r == line_point_op(*self),
    {
        match *self {
            LinePoint::Point(q) => PathOperation::LineTo(q),
            LinePoint::V1Bezier { start, end } => PathOperation::CurveTwoV1(start, end),
            LinePoint::V2Bezier { start, end } => PathOperation::CurveTwoV2(start, end),
            LinePoint::ThreePointBezier { start, end, new_control } => PathOperation::CurveFour(
                start,
                new_control,
                end,
            ),
        }
    }
}

/// A path of straight segments and curves.
#[derive(Debug, Clone, PartialEq, Default)]
pub struct Line<U> {
    pub start: PdfPosition<U>,
    pub points: Vec<LinePoint<U>>,
    /// Whether the line should automatically be closed
    pub is_closed: bool,
}

/// The operations that draw a line: nothing when it has no points after the start,
/// else a move to the start, an operation per point and the stroke.
pub open spec fn line_ops<U>(start: PdfPosition<U>, points: Seq<LinePoint<U>>, is_closed: bool) -> Seq<PathOperation<U>> {
    if points.len() == 0 {
        Seq::empty()
    } else {
        seq![PathOperation::MoveTo(start)] + points.map_values(|p: LinePoint<U>| line_point_op(p))
            + seq![PathOperation::Paint(stroke_end(is_closed))]
    }
}

impl<U: Copy> Line<U> {
    /// The content stream operations that draw this line.
    pub fn operations(&self) -> (r: Vec<PathOperation<U>>)
        ensures
            r@ == line_ops(self.start, self.points@, self.is_closed),
    {
        let mut ops = Vec::new();
        if self.points.len() == 0 {
            return ops;
        }
        ops.push(PathOperation::MoveTo(self.start));
        let mut i: usize = 0;
        while i < self.points.len()
            invariant
                i <= self.points.len(),
                ops@ == seq![PathOperation::MoveTo(self.start)] + self.points@.take(i as int).map_values(
                    |p: LinePoint<U>| line_point_op(p),
                ),
            decreases self.points.len() - i,
        {
            ops.push(self.points[i].operation());
            proof {
                assert(self.points@.take(i + 1) == self.points@.take(i as int).push(self.points@[i as int]));
            }
            i = i + 1;
        }
        if self.is_closed {
            ops.push(PathOperation::Paint(PathPaintOperationKeys::StrokeClose));
        } else {
            ops.push(PathOperation::Paint(PathPaintOperationKeys::Stroke));
        }
        proof {
            assert(self.points@.take(self.points@.len() as int) == self.points@);
        }
        ops
    }

    /// A straight line as a line whose points are all straight segments.
    pub fn from_straight(value: StraightLine<U>) -> (r: Self)
        ensures
            r.start == value.start,
            r.points@ == value.points@.map_values(|p: PdfPosition<U>| LinePoint::Point(p)),
            r.is_closed == value.is_closed,
    {
        let mut points = Vec::new();
        let mut i: usize = 0;
        while i < value.points.len()
            invariant
                i <= value.points.len(),
                points@ == value.points@.take(i as int).map_values(|p: PdfPosition<U>| LinePoint::Point(p)),
            decreases value.points.len() - i,
        {
            points.push(LinePoint::Point(value.points[i]));
            proof {
                assert(value.points@.take(i + 1) == value.points@.take(i as int).push(value.points@[i as int]));
            }
            i = i + 1;
        }
        proof {
            assert(value.points@.take(value.points@.len() as int) == value.points@);
        }
        Line { start: value.start, points, is_closed: value.is_closed }
    }
}

/// Law: a straight line drawn as a `Line` gives the same operations as drawn directly.
pub proof fn law_straight_line_as_line<U>(start: PdfPosition<U>, points: Seq<PdfPosition<U>>, is_closed: bool)
    ensures
        line_ops(start, points.map_values(|p: PdfPosition<U>| LinePoint::Point(p)), is_closed)
            == straight_line_ops(start, points, is_closed),
{
    let lp = points.map_values(|p: PdfPosition<U>| LinePoint::Point(p));
    assert(lp.map_values(|p: LinePoint<U>| line_point_op(p)) == points.map_values(
        |p: PdfPosition<U>| PathOperation::LineTo(p),
    ));
}

/// The rotation of a page, in degrees.
#[derive(Debug, Clone, PartialEq, Default)]
pub struct Rotation(pub i64);

/// The numbers of the points, in order, each point's x then its y.
pub open spec fn points_flat(points: Seq<PdfPosition<i64>>) -> Seq<ObjView>
    decreases points.len(),
{
    if points.len() == 0 {
        Seq::empty()
    } else {
        points_flat(points.drop_last()).push(ObjView::Integer(points.last().x as int)).push(
            ObjView::Integer(points.last().y as int),
        )
    }
}

/// The points as the items of an array object: `[x1, y1, x2, y2, ...]`.
pub fn points_to_object_array(points: &[PdfPosition<i64>]) -> (r: Vec<PdfObject>)
    ensures
        objs_view(r@) == points_flat(points@),
        r@.len() == 2 * points@.len(),
{
    let mut arr: Vec<PdfObject> = Vec::new();
    let mut i: usize = 0;
    while i < points.len()
        invariant
            i <= points@.len(),
            objs_view(arr@) == points_flat(points@.take(i as int)),
            arr@.len() == 2 * i,
        decreases points.len() - i,
    {
        let p = points[i];
        push_item(&mut arr, PdfObject::Integer(p.x));
        push_item(&mut arr, PdfObject::Integer(p.y));
        assert(points@.take(i + 1).drop_last() =~= points@.take(i as int));
        i = i + 1;
    }
    assert(points@.take(i as int) =~= points@);
    arr
}

} // verus!
