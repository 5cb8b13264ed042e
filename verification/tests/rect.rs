use rect2d::point::{Point2, Vector2};
use rect2d::range::{Align, Range};
use rect2d::rect::{Corner, Padding, Rect, NUM_CORNERS, NUM_SUBDIVISIONS, NUM_TRIANGLES};

fn pt(x: i64, y: i64) -> Point2 {
    Point2 { x, y }
}

#[test]
fn from_x_y_w_h_centers_the_bounds() {
    let r = Rect::from_x_y_w_h(0, 0, 10, 10);
    assert_eq!(r.left(), -5);
    assert_eq!(r.right(), 5);
    assert_eq!(r.bottom(), -5);
    assert_eq!(r.top(), 5);
    let bottom_left = r.subdivisions()[0];
    assert_eq!(bottom_left, Rect { x: Range::new(-5, 0), y: Range::new(-5, 0) });
}

#[test]
fn corners_are_ordered_counterclockwise_from_bottom_left() {
    let r = Rect::from_corners(pt(0, 0), pt(4, 2));
    let q = r.corners();
    assert_eq!(q.0[0], pt(0, 0));
    assert_eq!(q.0[1], pt(0, 2));
    assert_eq!(q.0[2], pt(4, 2));
    assert_eq!(q.0[3], pt(4, 0));
}

#[test]
fn disjoint_rects_do_not_overlap() {
    let a = Rect::from_x_y_w_h(0, 0, 4, 4);
    let b = Rect::from_x_y_w_h(10, 0, 4, 4);
    assert_eq!(a.overlap(b), None);
}

#[test]
fn self_overlap_is_the_normalized_self() {
    let r = Rect { x: Range::new(5, -5), y: Range::new(3, -3) };
    assert_eq!(r.overlap(r), Some(r.absolute()));
    let a = Rect::from_x_y_w_h(0, 0, 4, 4);
    assert_eq!(a.overlap(a), Some(a.absolute()));
}

#[test]
fn overlap_of_touching_rects_is_degenerate() {
    let a = Rect::from_corners(pt(0, 0), pt(4, 4));
    let b = Rect::from_corners(pt(4, 0), pt(8, 4));
    let ov = a.overlap(b).unwrap();
    assert_eq!(ov, Rect { x: Range::new(4, 4), y: Range::new(0, 4) });
    assert_eq!(ov.w(), 0);
}

#[test]
fn overlap_intersects_both_axes() {
    let a = Rect::from_corners(pt(0, 0), pt(4, 4));
    let b = Rect::from_corners(pt(2, 2), pt(6, 6));
    assert_eq!(a.overlap(b), Some(Rect::from_corners(pt(2, 2), pt(4, 4))));
}

#[test]
fn from_corners_orders_each_axis() {
    let a = Rect::from_corners(pt(4, 1), pt(-2, 7));
    let b = Rect::from_corners(pt(-2, 7), pt(4, 1));
    assert_eq!(a, b);
    assert_eq!(a, Rect { x: Range::new(-2, 4), y: Range::new(1, 7) });
    assert!(a.left() <= a.right());
    assert!(a.bottom() <= a.top());
}

#[test]
fn absolute_preserves_derived_queries() {
    let r = Rect { x: Range::new(5, -5), y: Range::new(3, -3) };
    let abs = r.absolute();
    assert_eq!(abs.left(), r.left());
    assert_eq!(abs.right(), r.right());
    assert_eq!(abs.bottom(), r.bottom());
    assert_eq!(abs.top(), r.top());
    assert_eq!(abs, Rect { x: Range::new(-5, 5), y: Range::new(-3, 3) });
}

#[test]
fn pad_round_trip_restores_the_rect() {
    let r = Rect::from_corners(pt(0, 0), pt(10, 8));
    assert_eq!(r.pad(3).pad(-3), r);
}

#[test]
fn subdivisions_tile_the_rect() {
    let r = Rect::from_x_y_w_h(0, 0, 4, 4);
    let subs = r.subdivisions();
    assert_eq!(subs[0], Rect { x: Range::new(-2, 0), y: Range::new(-2, 0) });
    assert_eq!(subs[1], Rect { x: Range::new(0, 2), y: Range::new(-2, 0) });
    assert_eq!(subs[2], Rect { x: Range::new(-2, 0), y: Range::new(0, 2) });
    assert_eq!(subs[3], Rect { x: Range::new(0, 2), y: Range::new(0, 2) });
    let mut area: i64 = 0;
    for sub in subs.iter() {
        assert_eq!(sub.w(), 2);
        assert_eq!(sub.h(), 2);
        area += sub.w() * sub.h();
    }
    assert_eq!(area, r.w() * r.h());
}

#[test]
fn corners_iter_runs_both_ways_as_mirror_images() {
    let r = Rect::from_corners(pt(0, 0), pt(4, 2));
    let mut forward = Vec::new();
    let mut it = r.corners_iter();
    while let Some(p) = it.next() {
        forward.push(p);
    }
    let mut backward = Vec::new();
    let mut it = r.corners_iter();
    while let Some(p) = it.next_back() {
        backward.push(p);
    }
    backward.reverse();
    assert_eq!(forward, backward);
    assert_eq!(forward, vec![pt(0, 0), pt(4, 0), pt(0, 2), pt(4, 2)]);
}

#[test]
fn corners_iter_reports_its_length() {
    let r = Rect::from_corners(pt(0, 0), pt(4, 2));
    let mut it = r.corners_iter();
    assert_eq!(it.len(), 4);
    assert_eq!(it.size_hint(), (4, Some(4)));
    it.next();
    assert_eq!(it.len(), 3);
    it.next();
    it.next();
    it.next();
    assert_eq!(it.len(), 0);
    assert_eq!(it.next(), None);
    assert_eq!(it.size_hint(), (0, Some(0)));
}

#[test]
fn corner_at_index_maps_the_four_corners() {
    let r = Rect::from_corners(pt(0, 0), pt(4, 2));
    assert_eq!(r.corner_at_index(0), Some(pt(0, 0)));
    assert_eq!(r.corner_at_index(1), Some(pt(4, 0)));
    assert_eq!(r.corner_at_index(2), Some(pt(0, 2)));
    assert_eq!(r.corner_at_index(3), Some(pt(4, 2)));
    assert_eq!(r.corner_at_index(4), None);
    assert_eq!(r.corner_at_index(255), None);
}

#[test]
fn subdivisions_iter_runs_both_ways() {
    let r = Rect::from_x_y_w_h(0, 0, 4, 4);
    let subs = r.subdivisions();
    let mut it = r.subdivisions_iter();
    assert_eq!(it.len(), 4);
    for sub in subs.iter() {
        assert_eq!(it.next(), Some(*sub));
    }
    assert_eq!(it.next(), None);
    let mut it = r.subdivisions_iter();
    assert_eq!(it.next_back(), Some(subs[3]));
    assert_eq!(it.next_back(), Some(subs[2]));
    assert_eq!(it.next_back(), Some(subs[1]));
    assert_eq!(it.next_back(), Some(subs[0]));
    assert_eq!(it.next_back(), None);
    assert_eq!(it.size_hint(), (0, Some(0)));
}

#[test]
fn subdivision_ranges_split_each_axis_at_its_middle() {
    let r = Rect::from_corners(pt(0, 0), pt(4, 2));
    let sr = r.subdivision_ranges();
    assert_eq!(sr.x_a, Range::new(0, 2));
    assert_eq!(sr.x_b, Range::new(2, 4));
    assert_eq!(sr.y_a, Range::new(0, 1));
    assert_eq!(sr.y_b, Range::new(1, 2));
    let rects = sr.rects();
    assert_eq!(rects[0], Rect { x: sr.x_a, y: sr.y_a });
    assert_eq!(rects[1], Rect { x: sr.x_b, y: sr.y_a });
    assert_eq!(rects[2], Rect { x: sr.x_a, y: sr.y_b });
    assert_eq!(rects[3], Rect { x: sr.x_b, y: sr.y_b });
}

#[test]
fn triangles_cover_the_corner_quad() {
    let r = Rect::from_corners(pt(0, 0), pt(4, 2));
    let (t1, t2) = r.triangles();
    assert_eq!(t1.0, [pt(0, 0), pt(0, 2), pt(4, 2)]);
    assert_eq!(t2.0, [pt(0, 0), pt(4, 2), pt(4, 0)]);
    let mut it = r.triangles_iter();
    assert_eq!(it.len(), 2);
    assert_eq!(it.next(), Some(t1));
    assert_eq!(it.next(), Some(t2));
    assert_eq!(it.next(), None);
}

#[test]
fn alignment_moves_one_axis_only() {
    let a = Rect::from_x_y_w_h(0, 0, 4, 4);
    let o = Rect::from_x_y_w_h(10, 10, 6, 6);
    assert_eq!(a.left_of(o), Rect { x: Range::new(3, 7), y: a.y });
    assert_eq!(a.right_of(o), Rect { x: Range::new(13, 17), y: a.y });
    assert_eq!(a.below(o), Rect { x: a.x, y: Range::new(3, 7) });
    assert_eq!(a.above(o), Rect { x: a.x, y: Range::new(13, 17) });
    assert_eq!(a.align_left_of(o), Rect { x: Range::new(7, 11), y: a.y });
    assert_eq!(a.align_right_of(o), Rect { x: Range::new(9, 13), y: a.y });
    assert_eq!(a.align_bottom_of(o), Rect { x: a.x, y: Range::new(7, 11) });
    assert_eq!(a.align_top_of(o), Rect { x: a.x, y: Range::new(9, 13) });
    assert_eq!(a.align_middle_x_of(o), Rect { x: Range::new(8, 12), y: a.y });
    assert_eq!(a.align_middle_y_of(o), Rect { x: a.x, y: Range::new(8, 12) });
}

#[test]
fn align_x_y_of_match_the_variants() {
    let a = Rect::from_x_y_w_h(0, 0, 4, 4);
    let o = Rect::from_x_y_w_h(10, 10, 6, 6);
    assert_eq!(a.align_x_of(Align::Start, o), a.align_left_of(o));
    assert_eq!(a.align_x_of(Align::Middle, o), a.align_middle_x_of(o));
    assert_eq!(a.align_x_of(Align::End, o), a.align_right_of(o));
    assert_eq!(a.align_y_of(Align::Start, o), a.align_bottom_of(o));
    assert_eq!(a.align_y_of(Align::Middle, o), a.align_middle_y_of(o));
    assert_eq!(a.align_y_of(Align::End, o), a.align_top_of(o));
}

#[test]
fn compound_placements_compose_two_alignments() {
    let a = Rect::from_x_y_w_h(0, 0, 4, 4);
    let o = Rect::from_x_y_w_h(10, 10, 6, 6);
    assert_eq!(a.top_left_of(o), Rect { x: Range::new(7, 11), y: Range::new(9, 13) });
    assert_eq!(a.top_right_of(o), Rect { x: Range::new(9, 13), y: Range::new(9, 13) });
    assert_eq!(a.bottom_left_of(o), Rect { x: Range::new(7, 11), y: Range::new(7, 11) });
    assert_eq!(a.bottom_right_of(o), Rect { x: Range::new(9, 13), y: Range::new(7, 11) });
    assert_eq!(a.mid_top_of(o), Rect { x: Range::new(8, 12), y: Range::new(9, 13) });
    assert_eq!(a.mid_bottom_of(o), Rect { x: Range::new(8, 12), y: Range::new(7, 11) });
    assert_eq!(a.mid_left_of(o), Rect { x: Range::new(7, 11), y: Range::new(8, 12) });
    assert_eq!(a.mid_right_of(o), Rect { x: Range::new(9, 13), y: Range::new(8, 12) });
    assert_eq!(a.middle_of(o), Rect { x: Range::new(8, 12), y: Range::new(8, 12) });
}

#[test]
fn shifting_translates_the_axes() {
    let r = Rect::from_corners(pt(0, 0), pt(4, 2));
    assert_eq!(r.shift_x(3), Rect { x: Range::new(3, 7), y: r.y });
    assert_eq!(r.shift_y(-2), Rect { x: r.x, y: Range::new(-2, 0) });
    assert_eq!(
        r.shift(Vector2 { x: 2, y: -3 }),
        Rect { x: Range::new(2, 6), y: Range::new(-3, -1) },
    );
}

#[test]
fn relative_to_rebases_the_origin() {
    let r = Rect::from_corners(pt(1, 2), pt(5, 9));
    assert_eq!(r.relative_to_x(1), Rect { x: Range::new(0, 4), y: r.y });
    assert_eq!(r.relative_to_y(2), Rect { x: r.x, y: Range::new(0, 7) });
    assert_eq!(r.relative_to(pt(1, 2)), Rect { x: Range::new(0, 4), y: Range::new(0, 7) });
}

#[test]
fn contains_includes_the_edges() {
    let r = Rect::from_corners(pt(0, 0), pt(4, 2));
    assert!(r.contains(pt(0, 0)));
    assert!(r.contains(pt(4, 2)));
    assert!(r.contains(pt(2, 1)));
    assert!(!r.contains(pt(5, 1)));
    assert!(!r.contains(pt(2, 3)));
}

#[test]
fn stretch_to_point_covers_the_point() {
    let r = Rect::from_corners(pt(0, 0), pt(4, 2));
    assert_eq!(r.stretch_to_point(pt(2, 1)), r);
    assert_eq!(
        r.stretch_to_point(pt(6, -1)),
        Rect { x: Range::new(0, 6), y: Range::new(-1, 2) },
    );
}

#[test]
fn padding_trims_each_edge() {
    let r = Rect::from_corners(pt(0, 0), pt(10, 10));
    assert_eq!(r.pad_left(2), Rect { x: Range::new(2, 10), y: r.y });
    assert_eq!(r.pad_right(2), Rect { x: Range::new(0, 8), y: r.y });
    assert_eq!(r.pad_bottom(2), Rect { x: r.x, y: Range::new(2, 10) });
    assert_eq!(r.pad_top(2), Rect { x: r.x, y: Range::new(0, 8) });
    assert_eq!(r.pad(2), Rect { x: Range::new(2, 8), y: Range::new(2, 8) });
    let padding = Padding { x: Range::new(1, 2), y: Range::new(3, 4) };
    assert_eq!(r.padding(padding), Rect { x: Range::new(1, 8), y: Range::new(3, 6) });
}

#[test]
fn padding_none_is_zero_on_both_axes() {
    let padding = Padding::none();
    assert_eq!(padding.x, Range::new(0, 0));
    assert_eq!(padding.y, Range::new(0, 0));
    let r = Rect::from_corners(pt(0, 0), pt(10, 10));
    assert_eq!(r.padding(padding), r);
}

#[test]
fn closest_corner_picks_the_nearest_quadrant() {
    let r = Rect::from_x_y_w_h(0, 0, 10, 10);
    assert_eq!(r.closest_corner(pt(-3, -4)), Corner::BottomLeft);
    assert_eq!(r.closest_corner(pt(3, -4)), Corner::BottomRight);
    assert_eq!(r.closest_corner(pt(-3, 4)), Corner::TopLeft);
    assert_eq!(r.closest_corner(pt(3, 4)), Corner::TopRight);
    assert_eq!(r.closest_corner(pt(0, 0)), Corner::BottomLeft);
}

#[test]
fn dimension_queries_use_the_normalized_axes() {
    let r = Rect::from_corners(pt(1, 2), pt(5, 9));
    assert_eq!(r.w(), 4);
    assert_eq!(r.h(), 7);
    assert_eq!(r.wh(), Vector2 { x: 4, y: 7 });
    assert_eq!(r.w_h(), (4, 7));
    assert_eq!(r.x(), 3);
    assert_eq!(r.y(), 5);
    assert_eq!(r.xy(), pt(3, 5));
    assert_eq!(r.x_y(), (3, 5));
    assert_eq!(r.xy_wh(), (pt(3, 5), Vector2 { x: 4, y: 7 }));
    assert_eq!(r.x_y_w_h(), (3, 5, 4, 7));
    assert_eq!(r.l_r_b_t(), (1, 5, 2, 9));
    assert_eq!(r.l_t_w_h(), (1, 9, 4, 7));
    assert_eq!(r.l_b_w_h(), (1, 2, 4, 7));
    assert_eq!(r.len(), 7);
    assert_eq!(r.top_left(), pt(1, 9));
    assert_eq!(r.top_right(), pt(5, 9));
    assert_eq!(r.bottom_left(), pt(1, 2));
    assert_eq!(r.bottom_right(), pt(5, 2));
}

#[test]
fn max_encompasses_both_rects() {
    let a = Rect::from_x_y_w_h(0, 0, 4, 4);
    let b = Rect::from_x_y_w_h(10, 0, 4, 4);
    assert_eq!(a.max(b), Rect { x: Range::new(-2, 12), y: Range::new(-2, 2) });
}

#[test]
fn origin_constructors_center_at_zero() {
    let a = Rect::from_wh(Vector2 { x: 6, y: 8 });
    let b = Rect::from_w_h(6, 8);
    assert_eq!(a, b);
    assert_eq!(a, Rect { x: Range::new(-3, 3), y: Range::new(-4, 4) });
    let c = Rect::from_xy_wh(pt(1, 1), Vector2 { x: 6, y: 8 });
    assert_eq!(c, Rect { x: Range::new(-2, 4), y: Range::new(-3, 5) });
}

#[test]
fn odd_dimensions_still_tile_without_equal_halves() {
    let r = Rect::from_corners(pt(0, 0), pt(5, 3));
    let subs = r.subdivisions();
    assert_eq!(subs[0].w() + subs[1].w(), r.w());
    assert_eq!(subs[0].h() + subs[2].h(), r.h());
    let mut area: i64 = 0;
    for sub in subs.iter() {
        area += sub.w() * sub.h();
    }
    assert_eq!(area, r.w() * r.h());
}

#[test]
fn subdivisions_preserve_stored_orientation() {
    let r = Rect { x: Range::new(4, 0), y: Range::new(2, 0) };
    let sr = r.subdivision_ranges();
    assert_eq!(sr.x_a, Range::new(4, 2));
    assert_eq!(sr.x_b, Range::new(2, 0));
    assert_eq!(sr.y_a, Range::new(2, 1));
    assert_eq!(sr.y_b, Range::new(1, 0));
}

#[test]
fn counts_match_the_geometry() {
    assert_eq!(NUM_CORNERS, 4);
    assert_eq!(NUM_SUBDIVISIONS, 4);
    assert_eq!(NUM_TRIANGLES, 2);
}
