//! Triangle meshes: a vertex buffer and a buffer of triangle indices.

use vstd::prelude::*;
use crate::geometry::{extend_spec, nothing_spec, Color32, Pos2, Rect};

verus! {

/// One corner of a triangle: where it is and what color it has.
#[derive(Clone, Copy, Debug, PartialEq, Eq, Structural)]
pub struct Vertex {
    pub pos: Pos2,
    pub color: Color32,
}

/// Vertices and triangles. Every three entries of `indices` make one
/// triangle; triangles later in the buffer are drawn on top of earlier ones.
#[derive(Clone, Debug)]
pub struct Mesh {
    pub indices: Vec<u32>,
    pub vertices: Vec<Vertex>,
}

/// The bounding rectangle of the positions of `vs`.
pub open spec fn bounds_of(vs: Seq<Vertex>) -> Rect
    decreases vs.len(),
{
    if vs.len() == 0 {
        nothing_spec()
    } else {
        extend_spec(bounds_of(vs.drop_last()), vs.last().pos)
    }
}

/// The four corners of `rect` in the order left-top, right-top,
/// left-bottom, right-bottom.
pub open spec fn rect_vertices(rect: Rect, color: Color32) -> Seq<Vertex> {
    seq![
        Vertex { pos: rect.min, color },
        Vertex { pos: Pos2 { x: rect.max.x, y: rect.min.y }, color },
        Vertex { pos: Pos2 { x: rect.min.x, y: rect.max.y }, color },
        Vertex { pos: rect.max, color },
    ]
}

/// The two triangles of a rectangle whose corners start at vertex `n`.
pub open spec fn rect_indices(n: int) -> Seq<u32> {
    seq![n as u32, (n + 1) as u32, (n + 2) as u32, (n + 2) as u32, (n + 1) as u32, (n + 3) as u32]
}

impl Mesh {
    /// Every index names an existing vertex.
    pub open spec fn is_valid(&self) -> bool {
        forall|i: int| 0 <= i < self.indices@.len() ==> (self.indices@[i] as int) < self.vertices@.len()
    }

    pub fn new() -> (m: Mesh)
        ensures
            m.indices@ == Seq::<u32>::empty(),
            m.vertices@ == Seq::<Vertex>::empty(),
    {
        Mesh { indices: Vec::new(), vertices: Vec::new() }
    }

    pub fn add_triangle(&mut self, a: u32, b: u32, c: u32)
        ensures
            final(self).indices@ == old(self).indices@ + seq![a, b, c],
            final(self).vertices@ == old(self).vertices@,
    {
        self.indices.push(a);
        self.indices.push(b);
        self.indices.push(c);
    }

    pub fn colored_vertex(&mut self, pos: Pos2, color: Color32)
        ensures
            final(self).vertices@ == old(self).vertices@.push(Vertex { pos, color }),
            final(self).indices@ == old(self).indices@,
    {
        self.vertices.push(Vertex { pos, color });
    }

    /// Appends `rect` in a single color as two triangles.
    pub fn add_colored_rect(&mut self, rect: Rect, color: Color32)
        requires
            old(self).vertices@.len() + 3 <= u32::MAX,
        ensures
            final(self).vertices@ == old(self).vertices@ + rect_vertices(rect, color),
            final(self).indices@ == old(self).indices@ + rect_indices(old(self).vertices@.len() as int),
    {
        let idx = self.vertices.len() as u32;
        self.add_triangle(idx, idx + 1, idx + 2);
        self.add_triangle(idx + 2, idx + 1, idx + 3);
        self.colored_vertex(rect.left_top(), color);
        self.colored_vertex(rect.right_top(), color);
        self.colored_vertex(rect.left_bottom(), color);
        self.colored_vertex(rect.right_bottom(), color);
        assert(self.indices@ =~= old(self).indices@ + rect_indices(old(self).vertices@.len() as int));
        assert(self.vertices@ =~= old(self).vertices@ + rect_vertices(rect, color));
    }

    /// The bounding rectangle of all vertices.
    pub fn calc_bounds(&self) -> (r: Rect)
        ensures
            r == bounds_of(self.vertices@),
    {
        let mut bounds = Rect::nothing();
        let mut i: usize = 0;
        while i < self.vertices.len()
            invariant
                i <= self.vertices@.len(),
                bounds == bounds_of(self.vertices@.subrange(0, i as int)),
            decreases self.vertices@.len() - i,
        {
            let v = self.vertices[i];
            bounds.extend_with(v.pos);
            proof {
                let next = self.vertices@.subrange(0, i + 1);
                assert(next.drop_last() =~= self.vertices@.subrange(0, i as int));
            }
            i = i + 1;
        }
        assert(self.vertices@.subrange(0, i as int) =~= self.vertices@);
        bounds
    }
}

} // verus!
