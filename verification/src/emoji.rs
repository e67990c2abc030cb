//! Writing text in a colour emoji font whose glyphs were rasterised to images: each glyph
//! with a cached image is drawn as that image, outside the text object, and the text object
//! is begun again after it at the cursor; a glyph without one is shown as text.
//!
//! Positions and sizes are of any unit; what is stated of them holds for units whose
//! arithmetic and comparison follow vstd's specifications of `std::ops` and `std::cmp`.
use vstd::prelude::*;
use vstd::std_specs::ops::AddSpec;
use vstd::std_specs::ops::SubSpec;
use vstd::std_specs::cmp::PartialOrdSpec;
use core::ops::Add;
use core::ops::Sub;
use core::cmp::Ordering;
use crate::font_map::glyph_bytes;
use crate::geometry::Size;
use crate::pages::ordered_by_spec;
use crate::pdf_object::{name, obj_view, ObjView, PdfObject};
use crate::resources::EmojiGlyphCache;

verus! {

/// Whether `a` is less than `b`.
pub open spec fn less<U: PartialOrd>(a: U, b: U) -> bool {
    a.partial_cmp_spec(&b) == Some(Ordering::Less)
}

} // verus!

verus! {

/// Where text is being written: the cursor, and where its line began.
#[derive(Debug, Clone, Copy, PartialEq)]
pub struct TextCursor<U> {
    pub x: U,
    pub y: U,
    pub origin_x: U,
    pub origin_y: U,
}

/// An operand of an operation placed on a page: a number of the unit, which the writer
/// writes as a real number, or an object.
#[derive(Debug)]
pub enum Operand<U> {
    Number(U),
    Object(PdfObject),
}

/// An operation placed on a page, with its operator and its operands.
#[derive(Debug)]
pub struct PlacedOperation<U> {
    pub operator: String,
    pub operands: Vec<Operand<U>>,
}

/// What an operand is.
pub enum OperandView<U> {
    Number(U),
    Object(ObjView),
}

/// The view of an operand.
pub open spec fn operand_view<U>(o: Operand<U>) -> OperandView<U> {
    match o {
        Operand::Number(u) => OperandView::Number(u),
        Operand::Object(p) => OperandView::Object(obj_view(p)),
    }
}

/// The views of operands.
pub open spec fn operands_view<U>(s: Seq<Operand<U>>) -> Seq<OperandView<U>> {
    s.map_values(|o: Operand<U>| operand_view(o))
}

/// What a placed operation is: its operator and its operands' views.
pub open spec fn placed_view<U>(op: PlacedOperation<U>) -> (Seq<char>, Seq<OperandView<U>>) {
    (op.operator@, operands_view(op.operands@))
}

/// The views of placed operations.
pub open spec fn placed_views<U>(s: Seq<PlacedOperation<U>>) -> Seq<(Seq<char>, Seq<OperandView<U>>)> {
    s.map_values(|op: PlacedOperation<U>| placed_view(op))
}

/// A glyph of the text, with its advance width and its height.
#[derive(Debug, Clone, Copy, PartialEq)]
pub struct EmojiGlyph<U> {
    pub glyph_id: u16,
    pub width: U,
    pub height: U,
}

/// An integer operand.
pub open spec fn int_operand<U>(i: int) -> OperandView<U> {
    OperandView::Object(ObjView::Integer(i))
}

/// The operations that draw a glyph's image `id` of height `image_height` and of the font size
/// as width, at `x` and `y_pos`, and then begin the text object again: its line at
/// `origin_x` and `line_y`, moved by `dx` to the cursor, with the font `font_id` of size
/// `font_size`.
pub open spec fn image_ops<U>(
    id: Seq<char>,
    font_id: Seq<char>,
    font_size: U,
    image_height: U,
    x: U,
    y_pos: U,
    origin_x: U,
    line_y: U,
    dx: U,
) -> Seq<(Seq<char>, Seq<OperandView<U>>)> {
    seq![
        ("ET"@, Seq::empty()),
        ("q"@, Seq::empty()),
        ("cm"@, seq![
            OperandView::Number(font_size),
            int_operand(0),
            int_operand(0),
            OperandView::Number(image_height),
            OperandView::Number(x),
            OperandView::Number(y_pos),
        ]),
        ("Do"@, seq![OperandView::Object(ObjView::Name(id))]),
        ("Q"@, Seq::empty()),
        ("BT"@, Seq::empty()),
        ("Tm"@, seq![
            int_operand(1),
            int_operand(0),
            int_operand(0),
            int_operand(1),
            OperandView::Number(origin_x),
            OperandView::Number(line_y),
        ]),
        ("Td"@, seq![OperandView::Number(dx), int_operand(0)]),
        ("Tf"@, seq![OperandView::Object(ObjView::Name(font_id)), OperandView::Number(font_size)]),
    ]
}

/// The operation that shows a glyph as text: its two bytes as a hexadecimal string.
pub open spec fn text_glyph_ops<U>(g: u16) -> Seq<(Seq<char>, Seq<OperandView<U>>)> {
    seq![("Tj"@, seq![OperandView::Object(ObjView::HexString(glyph_bytes(g)))])]
}

/// `x` advanced by the glyphs' widths.
pub open spec fn advance<U: Add<Output = U>>(x: U, gs: Seq<EmojiGlyph<U>>) -> U
    decreases gs.len(),
{
    if gs.len() == 0 {
        x
    } else {
        advance(x, gs.drop_last()).add_spec(gs.last().width)
    }
}

/// The greatest of `base` and the glyphs' heights, as taken one glyph after the other.
pub open spec fn tallest<U: PartialOrd>(base: U, gs: Seq<EmojiGlyph<U>>) -> U
    decreases gs.len(),
{
    if gs.len() == 0 {
        base
    } else {
        let m = tallest(base, gs.drop_last());
        if less(m, gs.last().height) {
            gs.last().height
        } else {
            m
        }
    }
}

/// The operations that write the glyphs from `cursor` on: a glyph whose image is cached under
/// `font_name` is drawn as that image at the cursor (`y_pos` being its bottom), and the text
/// object is begun again at the cursor after it; any other glyph is shown as text.
pub open spec fn emoji_expected<U: Add<Output = U> + Sub<Output = U>>(
    gs: Seq<EmojiGlyph<U>>,
    cache: EmojiGlyphCache,
    font_name: Seq<char>,
    font_id: Seq<char>,
    font_size: U,
    image_height: U,
    y_pos: U,
    cursor: TextCursor<U>,
) -> Seq<(Seq<char>, Seq<OperandView<U>>)>
    decreases gs.len(),
{
    if gs.len() == 0 {
        Seq::empty()
    } else {
        let prev = gs.drop_last();
        let g = gs.last();
        let x = advance(cursor.x, prev);
        emoji_expected(prev, cache, font_name, font_id, font_size, image_height, y_pos, cursor) + match cache.lookup(
            font_name,
            g.glyph_id,
        ) {
            Some(id) => image_ops(
                id,
                font_id,
                font_size,
                image_height,
                x,
                y_pos,
                cursor.origin_x,
                cursor.y,
                x.add_spec(g.width).sub_spec(cursor.origin_x),
            ),
            None => text_glyph_ops(g.glyph_id),
        }
    }
}

/// The hexadecimal string of a glyph's two bytes, high byte first.
fn glyph_hex(g: u16) -> (r: PdfObject)
    ensures
        obj_view(r) == ObjView::HexString(glyph_bytes(g)),
{
    let mut bytes: Vec<u8> = Vec::new();
    bytes.push((g / 256) as u8);
    bytes.push((g % 256) as u8);
    assert(bytes@ =~= glyph_bytes(g));
    PdfObject::HexString(bytes)
}

/// Appends an operation.
fn push_op<U>(ops: &mut Vec<PlacedOperation<U>>, operator: &str, operands: Vec<Operand<U>>)
    ensures
        placed_views(final(ops)@) == placed_views(old(ops)@).push((operator@, operands_view(operands@))),
{
    let ghost v = operands_view(operands@);
    ops.push(PlacedOperation { operator: operator.to_owned(), operands });
    assert(placed_views(ops@) =~= placed_views(old(ops)@).push((operator@, v)));
}

/// An integer operand.
fn int_op<U>(i: i64) -> (r: Operand<U>)
    ensures
        operand_view(r) == int_operand::<U>(i as int),
{
    Operand::Object(PdfObject::Integer(i))
}

/// Appends the operations that draw a glyph's image and begin the text object again.
fn push_image_ops<U: Copy>(
    ops: &mut Vec<PlacedOperation<U>>,
    id: &str,
    font_id: &str,
    font_size: U,
    image_height: U,
    x: U,
    y_pos: U,
    origin_x: U,
    line_y: U,
    dx: U,
)
    ensures
        placed_views(final(ops)@) == placed_views(old(ops)@) + image_ops(
            id@,
            font_id@,
            font_size,
            image_height,
            x,
            y_pos,
            origin_x,
            line_y,
            dx,
        ),
{
    let ghost before = placed_views(ops@);
    push_op(ops, "ET", Vec::new());
    push_op(ops, "q", Vec::new());
    let cm = vec![Operand::Number(font_size), int_op(0), int_op(0), Operand::Number(image_height), Operand::Number(x), Operand::Number(y_pos)];
    let ghost cm_v = operands_view(cm@);
    push_op(ops, "cm", cm);
    let paint = vec![Operand::Object(name(id))];
    let ghost paint_v = operands_view(paint@);
    push_op(ops, "Do", paint);
    push_op(ops, "Q", Vec::new());
    push_op(ops, "BT", Vec::new());
    let tm = vec![int_op(1), int_op(0), int_op(0), int_op(1), Operand::Number(origin_x), Operand::Number(line_y)];
    let ghost tm_v = operands_view(tm@);
    push_op(ops, "Tm", tm);
    let td = vec![Operand::Number(dx), int_op(0)];
    let ghost td_v = operands_view(td@);
    push_op(ops, "Td", td);
    let tf = vec![Operand::Object(name(font_id)), Operand::Number(font_size)];
    let ghost tf_v = operands_view(tf@);
    push_op(ops, "Tf", tf);
    proof {
        reveal_strlit("ET");
        reveal_strlit("q");
        reveal_strlit("cm");
        reveal_strlit("Do");
        reveal_strlit("Q");
        reveal_strlit("BT");
        reveal_strlit("Tm");
        reveal_strlit("Td");
        reveal_strlit("Tf");
        assert(operands_view(Seq::<Operand<U>>::empty()) =~= Seq::<OperandView<U>>::empty());
        assert(cm_v =~= seq![
            OperandView::Number(font_size),
            int_operand(0),
            int_operand(0),
            OperandView::Number(image_height),
            OperandView::Number(x),
            OperandView::Number(y_pos),
        ]);
        assert(paint_v =~= seq![OperandView::Object(ObjView::Name(id@))]);
        assert(tm_v =~= seq![
            int_operand(1),
            int_operand(0),
            int_operand(0),
            int_operand(1),
            OperandView::Number(origin_x),
            OperandView::Number(line_y),
        ]);
        assert(td_v =~= seq![OperandView::Number(dx), int_operand(0)]);
        assert(tf_v =~= seq![OperandView::Object(ObjView::Name(font_id@)), OperandView::Number(font_size)]);
        assert(placed_views(ops@) =~= before + image_ops(
            id@,
            font_id@,
            font_size,
            image_height,
            x,
            y_pos,
            origin_x,
            line_y,
            dx,
        ));
    }
}

/// Whether `s` is the total width and the greatest height of the glyphs, from `zero` (where
/// the unit's arithmetic and comparison follow vstd's specifications).
pub open spec fn size_from<U: Add<Output = U> + PartialOrd>(zero: U, s: Size<U>, gs: Seq<EmojiGlyph<U>>) -> bool {
    &&& U::obeys_add_spec() ==> s.width == advance(zero, gs)
    &&& ordered_by_spec::<U>() ==> s.height == tallest(zero, gs)
}

/// Whether `s` is the total width and the greatest height of the glyphs, from the unit's
/// default.
pub open spec fn sized_from_default<U: Add<Output = U> + PartialOrd + Default>(s: Size<U>, gs: Seq<EmojiGlyph<U>>) -> bool {
    exists|zero: U| call_ensures(U::default, (), zero) && #[trigger] size_from(zero, s, gs)
}

/// Writes the glyphs of a text in a colour emoji font from `cursor` on (the text object being
/// open): a glyph whose image is cached under `font_name` ends the text object, draws the image
/// (`font_size` wide, `image_height` high, its bottom `baseline_offset` from the cursor's line),
/// and begins the text object again at the cursor with the font `font_id`; any other glyph is
/// shown as text. The cursor advances by each glyph's width; the size is the glyphs' total
/// width and their greatest height (from the unit's default, zero for numbers).
pub fn emoji_ops<U: Copy + Add<Output = U> + Sub<Output = U> + PartialOrd + Default>(
    glyphs: &Vec<EmojiGlyph<U>>,
    cache: &EmojiGlyphCache,
    font_name: &str,
    font_id: &str,
    font_size: U,
    image_height: U,
    baseline_offset: U,
    cursor: TextCursor<U>,
) -> (r: (Vec<PlacedOperation<U>>, TextCursor<U>, Size<U>))
    requires
        forall|a: U, b: U| #[trigger] a.add_req(b),
        forall|a: U, b: U| #[trigger] a.sub_req(b),
    ensures
        r.1.y == cursor.y && r.1.origin_x == cursor.origin_x && r.1.origin_y == cursor.origin_y,
        U::obeys_add_spec() ==> r.1.x == advance(cursor.x, glyphs@),
        U::obeys_add_spec() && U::obeys_sub_spec() ==> placed_views(r.0@) == emoji_expected(
            glyphs@,
            *cache,
            font_name@,
            font_id@,
            font_size,
            image_height,
            cursor.y.add_spec(baseline_offset),
            cursor,
        ),
        sized_from_default(r.2, glyphs@),
{
    let zero = U::default();
    let y_pos = cursor.y + baseline_offset;
    let mut x = cursor.x;
    let mut total = zero;
    let mut height = zero;
    let mut ops: Vec<PlacedOperation<U>> = Vec::new();
    let ghost gs = glyphs@;
    let ghost y_spec = cursor.y.add_spec(baseline_offset);
    let mut i: usize = 0;
    while i < glyphs.len()
        invariant
            forall|a: U, b: U| #[trigger] a.add_req(b),
            forall|a: U, b: U| #[trigger] a.sub_req(b),
            gs == glyphs@,
            i <= gs.len(),
            call_ensures(U::default, (), zero),
            U::obeys_add_spec() ==> y_pos == y_spec,
            U::obeys_add_spec() ==> x == advance(cursor.x, gs.take(i as int)),
            U::obeys_add_spec() ==> total == advance(zero, gs.take(i as int)),
            ordered_by_spec::<U>() ==> height == tallest(zero, gs.take(i as int)),
            U::obeys_add_spec() && U::obeys_sub_spec() ==> placed_views(ops@) == emoji_expected(
                gs.take(i as int),
                *cache,
                font_name@,
                font_id@,
                font_size,
                image_height,
                y_spec,
                cursor,
            ),
        decreases gs.len() - i,
    {
        let g = glyphs[i];
        let ghost before = placed_views(ops@);
        let next_x = x + g.width;
        match cache.get(font_name, g.glyph_id) {
            Some(id) => {
                let dx = next_x - cursor.origin_x;
                push_image_ops(
                    &mut ops,
                    id.0.as_str(),
                    font_id,
                    font_size,
                    image_height,
                    x,
                    y_pos,
                    cursor.origin_x,
                    cursor.y,
                    dx,
                );
            },
            None => {
                let mut operands: Vec<Operand<U>> = Vec::new();
                operands.push(Operand::Object(glyph_hex(g.glyph_id)));
                let ghost ov = operands_view(operands@);
                push_op(&mut ops, "Tj", operands);
                proof {
                    reveal_strlit("Tj");
                    assert(ov =~= seq![OperandView::Object(ObjView::HexString(glyph_bytes(g.glyph_id)))]);
                }
            },
        }
        x = next_x;
        total = total + g.width;
        if height < g.height {
            height = g.height;
        }
        proof {
            let t = gs.take(i + 1);
            assert(t.drop_last() =~= gs.take(i as int));
            assert(t.last() == g);
        }
        i = i + 1;
    }
    proof {
        assert(gs.take(i as int) =~= gs);
        assert(U::obeys_add_spec() ==> total == advance(zero, glyphs@));
        assert(ordered_by_spec::<U>() ==> height == tallest(zero, glyphs@));
        assert(call_ensures(U::default, (), zero));
    }
    let size = Size { width: total, height };
    assert(sized_from_default(size, glyphs@)) by {
        assert(call_ensures(U::default, (), zero) && size_from(zero, size, glyphs@));
    }
    (ops, TextCursor { x, y: cursor.y, origin_x: cursor.origin_x, origin_y: cursor.origin_y }, size)
}

} // verus!
