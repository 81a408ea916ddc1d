//! Points, rectangles and the two-triangle quad that every textured primitive uses.

use vstd::prelude::*;

verus! {

/// A mathematical point of the grid. A grid unit is a pixel or a fixed
/// fraction of one for positions, and a texel for texture coordinates.
pub struct Point {
    pub x: int,
    pub y: int,
}

/// One vertex of a vertex buffer, in whole grid units.
#[derive(Clone, Copy, Debug, PartialEq, Eq, Structural)]
pub struct Vertex {
    pub x: i64,
    pub y: i64,
}

impl View for Vertex {
    type V = Point;

    open spec fn view(&self) -> Point {
        Point { x: self.x as int, y: self.y as int }
    }
}

/// The points that a vertex buffer holds, in order.
pub open spec fn points_of(vertices: Seq<Vertex>) -> Seq<Point> {
    Seq::new(vertices.len(), |i: int| vertices[i]@)
}

/// A destination rectangle: origin at the top-left corner, Y pointing down.
#[derive(Clone, Copy, Debug, PartialEq, Eq, Structural)]
pub struct Rect {
    pub x: i32,
    pub y: i32,
    pub width: u32,
    pub height: u32,
}

impl Rect {
    pub open spec fn min_x(self) -> int {
        self.x as int
    }

    pub open spec fn min_y(self) -> int {
        self.y as int
    }

    pub open spec fn max_x(self) -> int {
        self.x + self.width
    }

    pub open spec fn max_y(self) -> int {
        self.y + self.height
    }

    /// Whether `p` lies in the rectangle, borders included.
    pub open spec fn contains(self, p: Point) -> bool {
        self.min_x() <= p.x <= self.max_x() && self.min_y() <= p.y <= self.max_y()
    }

    /// The six vertices that draw this rectangle.
    pub fn quad(&self) -> (out: Vec<Vertex>)
        ensures
            points_of(out@) == quad_points(self.min_x(), self.min_y(), self.max_x(), self.max_y()),
    {
        let x0: i64 = self.x as i64;
        let y0: i64 = self.y as i64;
        quad_vertices(x0, y0, x0 + self.width as i64, y0 + self.height as i64)
    }
}

/// The quad of the box `[x0, x1] x [y0, y1]` as two triangles: top-left,
/// top-right, bottom-right, then top-left, bottom-right, bottom-left.
pub open spec fn quad_points(x0: int, y0: int, x1: int, y1: int) -> Seq<Point> {
    seq![
        Point { x: x0, y: y0 },
        Point { x: x1, y: y0 },
        Point { x: x1, y: y1 },
        Point { x: x0, y: y0 },
        Point { x: x1, y: y1 },
        Point { x: x0, y: y1 },
    ]
}

/// Builds the vertex buffer of the quad of the box `[x0, x1] x [y0, y1]`.
pub fn quad_vertices(x0: i64, y0: i64, x1: i64, y1: i64) -> (out: Vec<Vertex>)
    ensures
        points_of(out@) == quad_points(x0 as int, y0 as int, x1 as int, y1 as int),
{
    let mut out: Vec<Vertex> = Vec::new();
    out.push(Vertex { x: x0, y: y0 });
    out.push(Vertex { x: x1, y: y0 });
    out.push(Vertex { x: x1, y: y1 });
    out.push(Vertex { x: x0, y: y0 });
    out.push(Vertex { x: x1, y: y1 });
    out.push(Vertex { x: x0, y: y1 });
    assert(points_of(out@) =~= quad_points(x0 as int, y0 as int, x1 as int, y1 as int));
    out
}

/// Twice the signed area of the triangle `a`, `b`, `c`; also the side of the
/// edge from `a` to `b` on which `c` lies.
pub open spec fn edge(a: Point, b: Point, c: Point) -> int {
    (b.x - a.x) * (c.y - a.y) - (b.y - a.y) * (c.x - a.x)
}

/// Whether `p` lies in the triangle `a`, `b`, `c` (borders included), for a
/// triangle whose signed area is not negative.
pub open spec fn in_triangle(a: Point, b: Point, c: Point, p: Point) -> bool {
    edge(a, b, p) >= 0 && edge(b, c, p) >= 0 && edge(c, a, p) >= 0
}

/// Both triangles of a quad wind the same way, and each has half the box's area.
pub proof fn quad_winding_is_consistent(x0: int, y0: int, x1: int, y1: int)
    requires
        x0 <= x1,
        y0 <= y1,
    ensures
        ({
            let q = quad_points(x0, y0, x1, y1);
            &&& q.len() == 6
            &&& edge(q[0], q[1], q[2]) == (x1 - x0) * (y1 - y0)
            &&& edge(q[3], q[4], q[5]) == (x1 - x0) * (y1 - y0)
            &&& edge(q[0], q[1], q[2]) >= 0
        }),
{
    assert((x1 - x0) * (y1 - y0) >= 0) by (nonlinear_arith)
        requires
            x0 <= x1,
            y0 <= y1,
    ;
    assert((x1 - x0) * (y1 - y0) - (y1 - y0) * (x0 - x0) == (x1 - x0) * (y1 - y0))
        by (nonlinear_arith);
    assert((x1 - x0) * (y0 - y0) - (y0 - y0) * (x1 - x0) == 0) by (nonlinear_arith);
    assert((x1 - x0) * (y1 - y0) - (y0 - y0) * (x1 - x0) == (x1 - x0) * (y1 - y0))
        by (nonlinear_arith);
    assert((x1 - x0) * (y1 - y0) - (y1 - y0) * (x0 - x0) == (x1 - x0) * (y1 - y0))
        by (nonlinear_arith);
}

/// The two triangles of a quad cover exactly the box: a point lies in the box
/// if and only if it lies in one of the triangles.
pub proof fn quad_covers_exactly(x0: int, y0: int, x1: int, y1: int, p: Point)
    requires
        x0 < x1,
        y0 < y1,
    ensures
        ({
            let q = quad_points(x0, y0, x1, y1);
            (x0 <= p.x <= x1 && y0 <= p.y <= y1) <==> (in_triangle(q[0], q[1], q[2], p)
                || in_triangle(q[3], q[4], q[5], p))
        }),
{
    let w = x1 - x0;
    let h = y1 - y0;
    let dx = p.x - x0;
    let dy = p.y - y0;
    let q = quad_points(x0, y0, x1, y1);
    assert(edge(q[0], q[1], p) == w * dy) by (nonlinear_arith)
        requires
            edge(q[0], q[1], p) == (x1 - x0) * (p.y - y0) - (y0 - y0) * (p.x - x0),
            w == x1 - x0,
            dy == p.y - y0,
    ;
    assert(edge(q[1], q[2], p) == h * (w - dx)) by (nonlinear_arith)
        requires
            edge(q[1], q[2], p) == (x1 - x1) * (p.y - y0) - (y1 - y0) * (p.x - x1),
            w == x1 - x0,
            h == y1 - y0,
            dx == p.x - x0,
    ;
    assert(edge(q[2], q[0], p) == h * dx - w * dy) by (nonlinear_arith)
        requires
            edge(q[2], q[0], p) == (x0 - x1) * (p.y - y1) - (y0 - y1) * (p.x - x1),
            w == x1 - x0,
            h == y1 - y0,
            dx == p.x - x0,
            dy == p.y - y0,
    ;
    assert(edge(q[3], q[4], p) == w * dy - h * dx) by (nonlinear_arith)
        requires
            edge(q[3], q[4], p) == (x1 - x0) * (p.y - y0) - (y1 - y0) * (p.x - x0),
            w == x1 - x0,
            h == y1 - y0,
            dx == p.x - x0,
            dy == p.y - y0,
    ;
    assert(edge(q[4], q[5], p) == w * (h - dy)) by (nonlinear_arith)
        requires
            edge(q[4], q[5], p) == (x0 - x1) * (p.y - y1) - (y1 - y1) * (p.x - x1),
            w == x1 - x0,
            h == y1 - y0,
            dy == p.y - y0,
    ;
    assert(edge(q[5], q[3], p) == h * dx) by (nonlinear_arith)
        requires
            edge(q[5], q[3], p) == (x0 - x0) * (p.y - y1) - (y0 - y1) * (p.x - x0),
            h == y1 - y0,
            dx == p.x - x0,
    ;
    assert((w * dy >= 0) <==> (dy >= 0)) by (nonlinear_arith)
        requires
            w > 0,
    ;
    assert((h * dx >= 0) <==> (dx >= 0)) by (nonlinear_arith)
        requires
            h > 0,
    ;
    assert((h * (w - dx) >= 0) <==> (w - dx >= 0)) by (nonlinear_arith)
        requires
            h > 0,
    ;
    assert((w * (h - dy) >= 0) <==> (h - dy >= 0)) by (nonlinear_arith)
        requires
            w > 0,
    ;
    assert(w * (h - dy) == w * h - w * dy) by (nonlinear_arith);
    assert(h * (w - dx) == w * h - h * dx) by (nonlinear_arith);
}

/// The quad of a rectangle that is not empty covers exactly the rectangle.
pub proof fn rect_quad_covers_exactly(rect: Rect, p: Point)
    requires
        rect.width > 0,
        rect.height > 0,
    ensures
        ({
            let q = quad_points(rect.min_x(), rect.min_y(), rect.max_x(), rect.max_y());
            rect.contains(p) <==> (in_triangle(q[0], q[1], q[2], p) || in_triangle(
                q[3],
                q[4],
                q[5],
                p,
            ))
        }),
{
    quad_covers_exactly(rect.min_x(), rect.min_y(), rect.max_x(), rect.max_y(), p);
}

} // verus!
