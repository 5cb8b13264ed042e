//! Quadrilaterals, triangles, and the decomposition of a quadrilateral into
//! two triangles.

use crate::point::Point2;
use vstd::prelude::*;

verus! {

/// Four points in order around a quadrilateral.
#[derive(Copy, Clone, Debug, PartialEq)]
pub struct Quad(pub [Point2; 4]);

/// Three points of a triangle.
#[derive(Copy, Clone, Debug, PartialEq)]
pub struct Tri(pub [Point2; 3]);

/// A cursor over the two triangles that cover a quadrilateral.
#[derive(Copy, Clone, Debug)]
pub struct Triangles {
    tris: [Tri; 2],
    index: u8,
}

impl Quad {
    /// The first of the two covering triangles: the quadrilateral's first
    /// three points.
    pub open spec fn spec_tri_a(self) -> Tri {
        Tri([self.0[0], self.0[1], self.0[2]])
    }

    /// The second of the two covering triangles: the first, third and fourth
    /// points.
    pub open spec fn spec_tri_b(self) -> Tri {
        Tri([self.0[0], self.0[2], self.0[3]])
    }

    /// Build a quadrilateral from its four points in order.
    pub fn from(points: [Point2; 4]) -> (r: Quad)
        ensures
            r.0 == points,
    {
        Quad(points)
    }

    /// The two triangles that cover the quadrilateral, split along the
    /// diagonal from the first to the third point.
    pub fn triangles(&self) -> (r: (Tri, Tri))
        ensures
            r.0 == self.spec_tri_a(),
            r.1 == self.spec_tri_b(),
    {
        let a = self.0[0];
        let b = self.0[1];
        let c = self.0[2];
        let d = self.0[3];
        (Tri([a, b, c]), Tri([a, c, d]))
    }

    /// A cursor yielding the two covering triangles in order.
    pub fn triangles_iter(&self) -> (r: Triangles)
        ensures
            r.wf(),
            r.spec_remaining() == 2,
            r.spec_tris()[0] == self.spec_tri_a(),
            r.spec_tris()[1] == self.spec_tri_b(),
    {
        let (a, b) = self.triangles();
        Triangles { tris: [a, b], index: 0 }
    }
}

impl Triangles {
    /// The cursor has not run past its two triangles.
    pub closed spec fn wf(self) -> bool {
        self.index <= 2
    }

    /// The triangles the cursor walks over.
    pub closed spec fn spec_tris(self) -> [Tri; 2] {
        self.tris
    }

    /// How many triangles are still to come.
    pub closed spec fn spec_remaining(self) -> int {
        2 - self.index
    }

    /// The next triangle, front to back, or `None` once both have been
    /// yielded.
    pub fn next(&mut self) -> (r: Option<Tri>)
        requires
            old(self).wf(),
        ensures
            final(self).wf(),
            final(self).spec_tris() == old(self).spec_tris(),
            old(self).spec_remaining() > 0 ==> r == Some(
                old(self).spec_tris()[2 - old(self).spec_remaining()],
            ) && final(self).spec_remaining() == old(self).spec_remaining() - 1,
            old(self).spec_remaining() == 0 ==> r is None && *final(self) == *old(self),
    {
        if self.index < 2 {
            let tri = self.tris[self.index as usize];
            self.index = self.index + 1;
            Some(tri)
        } else {
            None
        }
    }

    /// How many triangles are still to come.
    pub fn len(&self) -> (r: usize)
        requires
            self.wf(),
        ensures
            r == self.spec_remaining(),
    {
        (2 - self.index) as usize
    }
}

} // verus!
