//! A directed one-dimensional interval and its edge, padding and alignment
//! operations.
//!
//! A `Range` is a `start` and an `end` position over `i64` scalars. It is
//! *not* required to satisfy `start <= end`: the normalized view with ordered
//! endpoints is derived by [`Range::absolute`], and every geometric query
//! (length, containment, overlap) goes through that view. Midpoints and
//! half-lengths round toward negative infinity.

use vstd::prelude::*;

verus! {

/// The smaller of two scalars.
pub open spec fn min64(a: i64, b: i64) -> i64 {
    if a <= b {
        a
    } else {
        b
    }
}

/// The larger of two scalars.
pub open spec fn max64(a: i64, b: i64) -> i64 {
    if a <= b {
        b
    } else {
        a
    }
}

/// The distance between two mathematical integers.
pub open spec fn dist(a: int, b: int) -> int {
    if a <= b {
        b - a
    } else {
        a - b
    }
}

/// Either of the two endpoints of a `Range`.
#[derive(Copy, Clone, Debug, PartialEq, Eq, Structural)]
pub enum Edge {
    /// The `start` endpoint.
    Start,
    /// The `end` endpoint.
    End,
}

/// How to align one range to another along the same axis.
#[derive(Copy, Clone, Debug, PartialEq, Eq, Structural)]
pub enum Align {
    /// Align the starts of the normalized ranges.
    Start,
    /// Align the midpoints of the ranges.
    Middle,
    /// Align the ends of the normalized ranges.
    End,
}

/// A directed interval over the `i64` scalars: `start` need not be below
/// `end`.
#[derive(Copy, Clone, Debug, PartialEq, Eq, Structural)]
pub struct Range {
    /// The first endpoint of the interval.
    pub start: i64,
    /// The second endpoint of the interval.
    pub end: i64,
}

impl Range {
    /// The lower of the two endpoints.
    pub open spec fn low(self) -> i64 {
        min64(self.start, self.end)
    }

    /// The higher of the two endpoints.
    pub open spec fn high(self) -> i64 {
        max64(self.start, self.end)
    }

    /// Whether the endpoints are already ordered.
    pub open spec fn is_absolute(self) -> bool {
        self.start <= self.end
    }

    /// The normalized range, with ordered endpoints.
    pub open spec fn spec_absolute(self) -> Range {
        Range { start: self.low(), end: self.high() }
    }

    /// The magnitude of the interval: the distance between its endpoints.
    pub open spec fn spec_len(self) -> int {
        self.high() - self.low()
    }

    /// The midpoint of the interval, rounded toward negative infinity.
    pub open spec fn spec_middle(self) -> int {
        (self.start + self.end) / 2
    }

    /// The midpoint as a scalar; it always lies between the endpoints.
    pub open spec fn mid64(self) -> i64 {
        self.spec_middle() as i64
    }

    /// Whether the value lies between the normalized endpoints, inclusive.
    pub open spec fn spec_contains(self, v: int) -> bool {
        self.low() <= v <= self.high()
    }

    /// Whether the normalized ranges intersect, touching endpoints included.
    pub open spec fn spec_overlaps(self, other: Range) -> bool {
        max64(self.low(), other.low()) <= min64(self.high(), other.high())
    }

    /// The intersection of the normalized ranges; meaningful only when they
    /// overlap.
    pub open spec fn spec_overlap(self, other: Range) -> Range {
        Range {
            start: max64(self.low(), other.low()),
            end: min64(self.high(), other.high()),
        }
    }

    /// The smallest ordered range spanning both normalized ranges.
    pub open spec fn spec_union(self, other: Range) -> Range {
        Range {
            start: min64(self.low(), other.low()),
            end: max64(self.high(), other.high()),
        }
    }

    /// Both endpoints translated by `d`; meaningful only when the results fit
    /// the scalar type.
    pub open spec fn spec_shift(self, d: int) -> Range {
        Range { start: (self.start + d) as i64, end: (self.end + d) as i64 }
    }

    /// Whether translating by `d` keeps both endpoints within the scalar type.
    pub open spec fn can_shift(self, d: int) -> bool {
        &&& i64::MIN <= d <= i64::MAX
        &&& i64::MIN <= self.start + d <= i64::MAX
        &&& i64::MIN <= self.end + d <= i64::MAX
    }

    /// Where `start` lands when padded by `amount`: it moves toward the `end`
    /// endpoint, whichever direction that is.
    pub open spec fn padded_start_val(self, amount: int) -> int {
        if self.start <= self.end {
            self.start + amount
        } else {
            self.start - amount
        }
    }

    /// Where `end` lands when padded by `amount`: it moves toward the `start`
    /// endpoint, whichever direction that is.
    pub open spec fn padded_end_val(self, amount: int) -> int {
        if self.start <= self.end {
            self.end - amount
        } else {
            self.end + amount
        }
    }

    /// The range with its start padded by `amount`.
    pub open spec fn spec_pad_start(self, amount: int) -> Range {
        Range { start: self.padded_start_val(amount) as i64, end: self.end }
    }

    /// The range with its end padded by `amount`.
    pub open spec fn spec_pad_end(self, amount: int) -> Range {
        Range { start: self.start, end: self.padded_end_val(amount) as i64 }
    }

    /// The range with both edges padded by `amount`, start first.
    pub open spec fn spec_pad(self, amount: int) -> Range {
        self.spec_pad_start(amount).spec_pad_end(amount)
    }

    /// The range extended just far enough to cover `v`, preserving the
    /// range's direction.
    pub open spec fn spec_stretch(self, v: i64) -> Range {
        if self.is_absolute() {
            Range { start: min64(self.start, v), end: max64(self.end, v) }
        } else {
            Range { start: max64(self.start, v), end: min64(self.end, v) }
        }
    }

    /// The translation that puts this range directly before `other`.
    pub open spec fn align_before_delta(self, other: Range) -> int {
        other.low() - self.high()
    }

    /// The translation that puts this range directly after `other`.
    pub open spec fn align_after_delta(self, other: Range) -> int {
        other.high() - self.low()
    }

    /// The translation that aligns the normalized starts.
    pub open spec fn align_start_delta(self, other: Range) -> int {
        other.low() - self.low()
    }

    /// The translation that aligns the normalized ends.
    pub open spec fn align_end_delta(self, other: Range) -> int {
        other.high() - self.high()
    }

    /// The translation that aligns the midpoints.
    pub open spec fn align_middle_delta(self, other: Range) -> int {
        other.spec_middle() - self.spec_middle()
    }

    /// The endpoint nearer to `to`, the start winning ties.
    pub open spec fn spec_closest_edge(self, to: int) -> Edge {
        if dist(self.start as int, to) <= dist(self.end as int, to) {
            Edge::Start
        } else {
            Edge::End
        }
    }

    /// Build a range from its two endpoints, in the order given.
    pub fn new(start: i64, end: i64) -> (r: Range)
        ensures
            r.start == start,
            r.end == end,
    {
        Range { start, end }
    }

    /// Build the range centered at `pos` whose endpoints sit half of `len`
    /// to either side, the half rounded toward negative infinity. A negative
    /// `len` yields an inverted range.
    pub fn from_pos_and_len(pos: i64, len: i64) -> (r: Range)
        requires
            i64::MIN <= pos - len as int / 2 <= i64::MAX,
            i64::MIN <= pos + len as int / 2 <= i64::MAX,
        ensures
            r.start == pos - len as int / 2,
            r.end == pos + len as int / 2,
    {
        let half = half_i64(len);
        Range { start: pos - half, end: pos + half }
    }

    /// The midpoint of the range, rounded toward negative infinity.
    pub fn middle(&self) -> (r: i64)
        requires
            i64::MIN <= self.start + self.end <= i64::MAX,
        ensures
            r == self.spec_middle(),
            r == self.mid64(),
    {
        half_i64(self.start + self.end)
    }

    /// The magnitude of the range: the absolute distance between its
    /// endpoints.
    pub fn len(&self) -> (r: i64)
        requires
            self.spec_len() <= i64::MAX,
        ensures
            r == self.spec_len(),
    {
        if self.start <= self.end {
            self.end - self.start
        } else {
            self.start - self.end
        }
    }

    /// The normalized range, whose endpoints are ordered.
    pub fn absolute(self) -> (r: Range)
        ensures
            r == self.spec_absolute(),
            r.is_absolute(),
            r.start == self.low(),
            r.end == self.high(),
    {
        if self.start <= self.end {
            self
        } else {
            Range { start: self.end, end: self.start }
        }
    }

    /// Whether `pos` lies between the normalized endpoints, inclusive.
    pub fn contains(&self, pos: i64) -> (r: bool)
        ensures
            r == self.spec_contains(pos as int),
    {
        let a = self.absolute();
        a.start <= pos && pos <= a.end
    }

    /// The intersection of the normalized ranges, or `None` when they are
    /// disjoint. Ranges that merely touch intersect in a zero-length range.
    pub fn overlap(self, other: Range) -> (r: Option<Range>)
        ensures
            r is Some <==> self.spec_overlaps(other),
            self.spec_overlaps(other) ==> r == Some(self.spec_overlap(other)),
    {
        let a = self.absolute();
        let b = other.absolute();
        let start = if a.start >= b.start {
            a.start
        } else {
            b.start
        };
        let end = if a.end <= b.end {
            a.end
        } else {
            b.end
        };
        if start <= end {
            Some(Range { start, end })
        } else {
            None
        }
    }

    /// The smallest ordered range spanning both normalized ranges.
    pub fn max(self, other: Range) -> (r: Range)
        ensures
            r == self.spec_union(other),
    {
        let a = self.absolute();
        let b = other.absolute();
        let start = if a.start <= b.start {
            a.start
        } else {
            b.start
        };
        let end = if a.end >= b.end {
            a.end
        } else {
            b.end
        };
        Range { start, end }
    }

    /// Both endpoints translated by `amount`.
    pub fn shift(self, amount: i64) -> (r: Range)
        requires
            self.can_shift(amount as int),
        ensures
            r == self.spec_shift(amount as int),
            r.start == self.start + amount,
            r.end == self.end + amount,
    {
        Range { start: self.start + amount, end: self.end + amount }
    }

    /// Extend the violated endpoint so that the range covers `value`,
    /// preserving the range's direction.
    pub fn stretch_to_value(self, value: i64) -> (r: Range)
        ensures
            r == self.spec_stretch(value),
            r.low() == min64(self.low(), value),
            r.high() == max64(self.high(), value),
    {
        let Range { start, end } = self;
        if start <= end {
            Range {
                start: if value < start {
                    value
                } else {
                    start
                },
                end: if value > end {
                    value
                } else {
                    end
                },
            }
        } else {
            Range {
                start: if value > start {
                    value
                } else {
                    start
                },
                end: if value < end {
                    value
                } else {
                    end
                },
            }
        }
    }

    /// Move the `start` edge inward (toward `end`) by `amount`.
    pub fn pad_start(self, amount: i64) -> (r: Range)
        requires
            i64::MIN <= self.padded_start_val(amount as int) <= i64::MAX,
        ensures
            r == self.spec_pad_start(amount as int),
            r.start == self.padded_start_val(amount as int),
            r.end == self.end,
    {
        let start = if self.start <= self.end {
            self.start + amount
        } else {
            self.start - amount
        };
        Range { start, end: self.end }
    }

    /// Move the `end` edge inward (toward `start`) by `amount`.
    pub fn pad_end(self, amount: i64) -> (r: Range)
        requires
            i64::MIN <= self.padded_end_val(amount as int) <= i64::MAX,
        ensures
            r == self.spec_pad_end(amount as int),
            r.start == self.start,
            r.end == self.padded_end_val(amount as int),
    {
        let end = if self.start <= self.end {
            self.end - amount
        } else {
            self.end + amount
        };
        Range { start: self.start, end }
    }

    /// Pad both edges by the same `amount`, the start edge first.
    pub fn pad(self, amount: i64) -> (r: Range)
        requires
            i64::MIN <= self.padded_start_val(amount as int) <= i64::MAX,
            i64::MIN <= self.spec_pad_start(amount as int).padded_end_val(amount as int)
                <= i64::MAX,
        ensures
            r == self.spec_pad(amount as int),
    {
        self.pad_start(amount).pad_end(amount)
    }

    /// Pad the two edges by separate amounts, the start edge first.
    pub fn pad_ends(self, start: i64, end: i64) -> (r: Range)
        requires
            i64::MIN <= self.padded_start_val(start as int) <= i64::MAX,
            i64::MIN <= self.spec_pad_start(start as int).padded_end_val(end as int) <= i64::MAX,
        ensures
            r == self.spec_pad_start(start as int).spec_pad_end(end as int),
    {
        self.pad_start(start).pad_end(end)
    }

    /// Translate the range so that its normalized end meets the normalized
    /// start of `other`.
    pub fn align_before(self, other: Range) -> (r: Range)
        requires
            self.can_shift(self.align_before_delta(other)),
        ensures
            r == self.spec_shift(self.align_before_delta(other)),
            r.high() == other.low(),
            r.spec_len() == self.spec_len(),
    {
        let d = other.absolute().start - self.absolute().end;
        self.shift(d)
    }

    /// Translate the range so that its normalized start meets the normalized
    /// end of `other`.
    pub fn align_after(self, other: Range) -> (r: Range)
        requires
            self.can_shift(self.align_after_delta(other)),
        ensures
            r == self.spec_shift(self.align_after_delta(other)),
            r.low() == other.high(),
            r.spec_len() == self.spec_len(),
    {
        let d = other.absolute().end - self.absolute().start;
        self.shift(d)
    }

    /// Translate the range so that the normalized starts coincide.
    pub fn align_start_of(self, other: Range) -> (r: Range)
        requires
            self.can_shift(self.align_start_delta(other)),
        ensures
            r == self.spec_shift(self.align_start_delta(other)),
            r.low() == other.low(),
            r.spec_len() == self.spec_len(),
    {
        let d = other.absolute().start - self.absolute().start;
        self.shift(d)
    }

    /// Translate the range so that the normalized ends coincide.
    pub fn align_end_of(self, other: Range) -> (r: Range)
        requires
            self.can_shift(self.align_end_delta(other)),
        ensures
            r == self.spec_shift(self.align_end_delta(other)),
            r.high() == other.high(),
            r.spec_len() == self.spec_len(),
    {
        let d = other.absolute().end - self.absolute().end;
        self.shift(d)
    }

    /// Translate the range so that the midpoints coincide.
    pub fn align_middle_of(self, other: Range) -> (r: Range)
        requires
            i64::MIN <= self.start + self.end <= i64::MAX,
            i64::MIN <= other.start + other.end <= i64::MAX,
            self.can_shift(self.align_middle_delta(other)),
        ensures
            r == self.spec_shift(self.align_middle_delta(other)),
            r.spec_middle() == other.spec_middle(),
            r.spec_len() == self.spec_len(),
    {
        let d = other.middle() - self.middle();
        let r = self.shift(d);
        proof {
            lemma_middle_shift(self, d as int);
        }
        r
    }

    /// Translate the range to `other` as the `align` variant directs.
    pub fn align_to(self, align: Align, other: Range) -> (r: Range)
        requires
            align is Start ==> self.can_shift(self.align_start_delta(other)),
            align is End ==> self.can_shift(self.align_end_delta(other)),
            align is Middle ==> i64::MIN <= self.start + self.end <= i64::MAX && i64::MIN
                <= other.start + other.end <= i64::MAX && self.can_shift(
                self.align_middle_delta(other),
            ),
        ensures
            align is Start ==> r == self.spec_shift(self.align_start_delta(other)),
            align is Middle ==> r == self.spec_shift(self.align_middle_delta(other)),
            align is End ==> r == self.spec_shift(self.align_end_delta(other)),
    {
        match align {
            Align::Start => self.align_start_of(other),
            Align::Middle => self.align_middle_of(other),
            Align::End => self.align_end_of(other),
        }
    }

    /// The endpoint nearer to `to`, the start winning ties.
    pub fn closest_edge(&self, to: i64) -> (r: Edge)
        requires
            dist(self.start as int, to as int) <= i64::MAX,
            dist(self.end as int, to as int) <= i64::MAX,
        ensures
            r == self.spec_closest_edge(to as int),
    {
        let start_diff = if to < self.start {
            self.start - to
        } else {
            to - self.start
        };
        let end_diff = if to < self.end {
            self.end - to
        } else {
            to - self.end
        };
        if start_diff <= end_diff {
            Edge::Start
        } else {
            Edge::End
        }
    }
}

/// Half of `v`, rounded toward negative infinity.
fn half_i64(v: i64) -> (r: i64)
    ensures
        r == v as int / 2,
{
    let q = v / 2;
    if v < 0 && v % 2 != 0 {
        q - 1
    } else {
        q
    }
}

/// Translating a range moves its midpoint by exactly the same amount.
pub proof fn lemma_middle_shift(rg: Range, d: int)
    requires
        rg.can_shift(d),
    ensures
        rg.spec_shift(d).spec_middle() == rg.spec_middle() + d,
{
    let s = rg.start + rg.end;
    vstd::arithmetic::div_mod::lemma_fundamental_div_mod(s, 2);
    vstd::arithmetic::div_mod::lemma_mod_bound(s, 2);
    vstd::arithmetic::div_mod::lemma_fundamental_div_mod_converse(s + 2 * d, 2, s / 2 + d, s % 2);
}

/// A range's midpoint always lies between its normalized endpoints.
pub proof fn lemma_middle_between(rg: Range)
    ensures
        rg.low() <= rg.spec_middle() <= rg.high(),
{
    let s = rg.start + rg.end;
    vstd::arithmetic::div_mod::lemma_fundamental_div_mod(s, 2);
    vstd::arithmetic::div_mod::lemma_mod_bound(s, 2);
}

/// Padding a range by a positive amount below half its length, then by the
/// opposite amount, restores the range exactly.
pub proof fn lemma_pad_round_trip(rg: Range, p: int)
    requires
        0 < p,
        2 * p < rg.spec_len(),
    ensures
        rg.spec_pad(p).spec_pad(-p) == rg,
{
}

} // verus!
