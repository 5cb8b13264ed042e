use rect2d::range::{Align, Edge, Range};

#[test]
fn new_keeps_endpoints() {
    let r = Range::new(3, -7);
    assert_eq!(r.start, 3);
    assert_eq!(r.end, -7);
}

#[test]
fn from_pos_and_len_centers() {
    let r = Range::from_pos_and_len(0, 10);
    assert_eq!(r, Range::new(-5, 5));
    let r = Range::from_pos_and_len(-3, 4);
    assert_eq!(r, Range::new(-5, -1));
}

#[test]
fn middle_rounds_toward_negative_infinity() {
    assert_eq!(Range::new(0, 10).middle(), 5);
    assert_eq!(Range::new(0, 5).middle(), 2);
    assert_eq!(Range::new(-3, 0).middle(), -2);
    assert_eq!(Range::new(5, 0).middle(), 2);
}

#[test]
fn len_is_direction_free() {
    assert_eq!(Range::new(2, 9).len(), 7);
    assert_eq!(Range::new(9, 2).len(), 7);
    assert_eq!(Range::new(4, 4).len(), 0);
}

#[test]
fn absolute_orders_endpoints() {
    assert_eq!(Range::new(9, 2).absolute(), Range::new(2, 9));
    assert_eq!(Range::new(2, 9).absolute(), Range::new(2, 9));
}

#[test]
fn contains_uses_normalized_edges() {
    let r = Range::new(8, -2);
    assert!(r.contains(-2));
    assert!(r.contains(0));
    assert!(r.contains(8));
    assert!(!r.contains(9));
    assert!(!r.contains(-3));
}

#[test]
fn overlap_intersects_normalized_ranges() {
    let a = Range::new(0, 5);
    let b = Range::new(3, 10);
    assert_eq!(a.overlap(b), Some(Range::new(3, 5)));
    assert_eq!(b.overlap(a), Some(Range::new(3, 5)));
}

#[test]
fn overlap_accepts_touching_endpoints() {
    let a = Range::new(0, 5);
    let b = Range::new(5, 9);
    assert_eq!(a.overlap(b), Some(Range::new(5, 5)));
}

#[test]
fn overlap_disjoint_is_none() {
    let a = Range::new(0, 4);
    let b = Range::new(5, 9);
    assert_eq!(a.overlap(b), None);
}

#[test]
fn max_spans_the_union() {
    let a = Range::new(4, 0);
    let b = Range::new(3, 10);
    assert_eq!(a.max(b), Range::new(0, 10));
}

#[test]
fn shift_translates_both_endpoints() {
    assert_eq!(Range::new(1, 4).shift(3), Range::new(4, 7));
    assert_eq!(Range::new(1, 4).shift(-3), Range::new(-2, 1));
}

#[test]
fn stretch_to_value_extends_the_violated_edge() {
    let r = Range::new(2, 6);
    assert_eq!(r.stretch_to_value(4), r);
    assert_eq!(r.stretch_to_value(0), Range::new(0, 6));
    assert_eq!(r.stretch_to_value(9), Range::new(2, 9));
    let inv = Range::new(6, 2);
    assert_eq!(inv.stretch_to_value(9), Range::new(9, 2));
    assert_eq!(inv.stretch_to_value(0), Range::new(6, 0));
}

#[test]
fn pad_moves_edges_inward() {
    let r = Range::new(0, 10);
    assert_eq!(r.pad_start(2), Range::new(2, 10));
    assert_eq!(r.pad_end(2), Range::new(0, 8));
    assert_eq!(r.pad(2), Range::new(2, 8));
    assert_eq!(r.pad_ends(1, 3), Range::new(1, 7));
}

#[test]
fn pad_respects_direction() {
    let inv = Range::new(10, 0);
    assert_eq!(inv.pad_start(2), Range::new(8, 0));
    assert_eq!(inv.pad_end(2), Range::new(10, 2));
    assert_eq!(inv.pad(2), Range::new(8, 2));
}

#[test]
fn pad_round_trip_restores_the_range() {
    let r = Range::new(0, 10);
    assert_eq!(r.pad(3).pad(-3), r);
    let inv = Range::new(10, 0);
    assert_eq!(inv.pad(3).pad(-3), inv);
}

#[test]
fn align_before_and_after() {
    let r = Range::new(0, 4);
    let other = Range::new(10, 20);
    assert_eq!(r.align_before(other), Range::new(6, 10));
    assert_eq!(r.align_after(other), Range::new(20, 24));
}

#[test]
fn align_edges_and_middle() {
    let r = Range::new(0, 4);
    let other = Range::new(10, 20);
    assert_eq!(r.align_start_of(other), Range::new(10, 14));
    assert_eq!(r.align_end_of(other), Range::new(16, 20));
    assert_eq!(r.align_middle_of(other), Range::new(13, 17));
}

#[test]
fn align_to_matches_each_variant() {
    let r = Range::new(0, 4);
    let other = Range::new(10, 20);
    assert_eq!(r.align_to(Align::Start, other), r.align_start_of(other));
    assert_eq!(r.align_to(Align::Middle, other), r.align_middle_of(other));
    assert_eq!(r.align_to(Align::End, other), r.align_end_of(other));
}

#[test]
fn closest_edge_prefers_start_on_ties() {
    let r = Range::new(0, 10);
    assert_eq!(r.closest_edge(2), Edge::Start);
    assert_eq!(r.closest_edge(8), Edge::End);
    assert_eq!(r.closest_edge(5), Edge::Start);
}
