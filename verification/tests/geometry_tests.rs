use tux_pdf::ops::OperationKeyType;
use tux_pdf::geometry::{
    gen_points_from_position_and_size, gen_start_and_points_from_position_and_size, Line, LinePoint,
    OutlineRect, PaintMode, PaintedRect, PathConstructionOperators, PathOperation, PathPaintOperationKeys,
    PdfPosition, Size, StraightLine, WindingOrder,
};

fn p(x: i64, y: i64) -> PdfPosition<i64> {
    PdfPosition::new(x, y)
}

#[test]
fn size_landscape_swaps() {
    let s = Size::new(210i64, 297);
    assert_eq!(s.landscape(), Size::new(297, 210));
    assert_eq!(s.top_left_point(), p(0, 297));
}

#[test]
fn invert_position_from_page_height() {
    let page = Size::new(200i64, 800);
    assert_eq!(p(10, 700).invert_from_page_size(page), p(10, 100));
}

#[test]
fn rect_corners() {
    let r = OutlineRect::from_wh(20i64, 10);
    assert_eq!(r.lower_left(), p(0, 0));
    assert_eq!(r.upper_right(), p(20, 10));
    assert_eq!(r.media_box(), r);
}

#[test]
fn rect_points_go_round_from_top_left() {
    let (start, points) = gen_start_and_points_from_position_and_size(p(10, 100), Size::new(50i64, 20));
    assert_eq!(start, p(10, 100));
    assert_eq!(points, vec![p(60, 100), p(60, 80), p(10, 80)]);
    let all = gen_points_from_position_and_size(p(10, 100), Size::new(50i64, 20));
    assert_eq!(all, vec![p(10, 100), p(60, 100), p(60, 80), p(10, 80)]);
}

#[test]
fn outline_rect_into_closed_line() {
    let rect = OutlineRect { position: p(0, 10), size: Size::new(4i64, 10) };
    let line = rect.into_line();
    assert!(line.is_closed);
    assert_eq!(line.start, p(0, 10));
    assert_eq!(line.points, vec![p(4, 10), p(4, 0), p(0, 0)]);
    let polygon = rect.into_polygon();
    assert_eq!(polygon.rings, vec![vec![(p(0, 10), false), (p(4, 10), false), (p(4, 0), false), (p(0, 0), false)]]);
    assert_eq!(polygon.mode, PaintMode::Fill);
}

#[test]
fn paint_operation_keys() {
    assert_eq!(PaintMode::Fill.operation_key(WindingOrder::NonZero), PathPaintOperationKeys::FillNonZero);
    assert_eq!(PaintMode::Fill.operation_key(WindingOrder::EvenOdd), PathPaintOperationKeys::FillEvenOdd);
    assert_eq!(PaintMode::Clip.operation_key(WindingOrder::EvenOdd), PathPaintOperationKeys::ClipEvenOdd);
    assert_eq!(PaintMode::Stroke.operation_key(WindingOrder::EvenOdd), PathPaintOperationKeys::Stroke);
    assert_eq!(
        PaintMode::FillStroke.operation_key(WindingOrder::NonZero),
        PathPaintOperationKeys::FillStrokeNonZero
    );
    assert_eq!(PathPaintOperationKeys::FillStrokeCloseEvenOdd.key(), "b*");
    assert_eq!(PathPaintOperationKeys::PathPaintEnd.key(), "n");
    assert_eq!(PathConstructionOperators::PathRectangle.key(), "re");
    assert_eq!(PathConstructionOperators::PathMoveTo.key(), "m");
}

#[test]
fn painted_rect_builders() {
    let r = PaintedRect::new(1i64, 2, 3, 4).with_mode(PaintMode::Stroke).with_winding_order(WindingOrder::EvenOdd);
    assert_eq!(r.position, p(1, 2));
    assert_eq!(r.size, Size::new(3, 4));
    assert_eq!(r.paint_mode, PaintMode::Stroke);
    assert_eq!(r.winding_order, WindingOrder::EvenOdd);
}

#[test]
fn centred_rectangles() {
    let r = PaintedRect::new_rectangle(10i64, 4, p(50, 50));
    assert_eq!(r.position, p(45, 48));
    assert_eq!(r.paint_mode, PaintMode::Fill);
    let s = PaintedRect::new_square(6i64, p(10, 10));
    assert_eq!(s.position, p(7, 7));
    let o = OutlineRect::new_square(6i64, p(10, 10));
    assert_eq!(o.position, p(7, 7));
    assert_eq!(o.size, Size::new(6, 6));
}

#[test]
fn straight_line_operations() {
    let line = StraightLine::from_points(vec![p(0, 0), p(5, 5), p(10, 0)], false);
    assert_eq!(
        line.operations(),
        vec![
            PathOperation::MoveTo(p(0, 0)),
            PathOperation::LineTo(p(5, 5)),
            PathOperation::LineTo(p(10, 0)),
            PathOperation::Paint(PathPaintOperationKeys::Stroke),
        ]
    );
    let closed = StraightLine::from_points(vec![p(0, 0), p(1, 1)], true);
    assert_eq!(closed.operations().last(), Some(&PathOperation::Paint(PathPaintOperationKeys::StrokeClose)));
    let single = StraightLine::from_points(vec![p(3, 3)], true);
    assert!(single.operations().is_empty());
}

#[test]
fn line_from_straight_draws_the_same() {
    let straight = StraightLine::from_points(vec![p(0, 0), p(5, 5), p(10, 0)], true);
    let line = Line::from_straight(straight.clone());
    assert_eq!(line.operations(), straight.operations());
    assert_eq!(LinePoint::Point(p(1, 2)).operation(), PathOperation::LineTo(p(1, 2)));
}

#[test]
fn painted_rect_operations() {
    let r = PaintedRect::new(1i64, 2, 3, 4).with_mode(PaintMode::FillStroke);
    assert_eq!(
        r.operations(),
        vec![
            PathOperation::Rectangle(1, 2, 3, 4),
            PathOperation::Paint(PathPaintOperationKeys::FillStrokeNonZero),
            PathOperation::Paint(PathPaintOperationKeys::PathPaintEnd),
        ]
    );
}
