//! The full-screen quad that both shader passes draw: two triangles over the
//! whole viewport in normalized device coordinates.
use vstd::prelude::*;

verus! {

/// A corner of the quad: a position in normalized device coordinates, each
/// coordinate -1 or 1, and a texture coordinate, each 0 or 1.
#[derive(Clone, Copy, Debug, PartialEq, Eq, Structural)]
pub struct QuadVertex {
    pub x: i8,
    pub y: i8,
    pub u: u8,
    pub v: u8,
}

/// The number of vertices the quad is drawn with.
pub const QUAD_VERTEX_COUNT: usize = 6;

/// The corner at `(x, y)`, with its texture coordinate: `u` runs left to
/// right and `v` top to bottom.
pub open spec fn corner(x: int, y: int) -> QuadVertex {
    QuadVertex { x: x as i8, y: y as i8, u: if x == 1 { 1 } else { 0 }, v: if y == 1 { 0 } else { 1 } }
}

/// The six vertices: the lower-left triangle, then the upper-right one,
/// both counter-clockwise.
pub open spec fn quad_vertices() -> Seq<QuadVertex> {
    seq![
        corner(-1, -1),
        corner(1, -1),
        corner(-1, 1),
        corner(-1, 1),
        corner(1, -1),
        corner(1, 1),
    ]
}

/// The cross product of `b - a` with `p - a`, where `p` is the centre of
/// pixel `(i, j)` of a `w` by `h` viewport, scaled by `w * h` so that it is
/// an integer. The centre lies at `((2i + 1 - w) / w, (2j + 1 - h) / h)`.
pub open spec fn edge(a: QuadVertex, b: QuadVertex, w: int, h: int, i: int, j: int) -> int {
    (b.x - a.x) * ((2 * j + 1 - h) - a.y * h) * w - (b.y - a.y) * ((2 * i + 1 - w) - a.x * w) * h
}

/// Pixel `(i, j)`'s centre lies in the counter-clockwise triangle made of
/// vertices `k`, `k + 1` and `k + 2` of `q`, edges included.
pub open spec fn triangle_covers(q: Seq<QuadVertex>, k: int, w: int, h: int, i: int, j: int) -> bool {
    &&& edge(q[k], q[k + 1], w, h, i, j) >= 0
    &&& edge(q[k + 1], q[k + 2], w, h, i, j) >= 0
    &&& edge(q[k + 2], q[k], w, h, i, j) >= 0
}

/// Twice the signed area of the triangle made of vertices `k`, `k + 1` and
/// `k + 2` of `q`: positive when it winds counter-clockwise.
pub open spec fn winding(q: Seq<QuadVertex>, k: int) -> int {
    (q[k + 1].x - q[k].x) * (q[k + 2].y - q[k].y) - (q[k + 1].y - q[k].y) * (q[k + 2].x - q[k].x)
}

/// The quad's vertices, in draw order.
pub fn full_screen_quad() -> (r: Vec<QuadVertex>)
    ensures
        r@ == quad_vertices(),
{
    vec![
        QuadVertex { x: -1, y: -1, u: 0, v: 1 },
        QuadVertex { x: 1, y: -1, u: 1, v: 1 },
        QuadVertex { x: -1, y: 1, u: 0, v: 0 },
        QuadVertex { x: -1, y: 1, u: 0, v: 0 },
        QuadVertex { x: 1, y: -1, u: 1, v: 1 },
        QuadVertex { x: 1, y: 1, u: 1, v: 0 },
    ]
}

/// Every pixel centre of a `w` by `h` viewport lies in one of the quad's two
/// counter-clockwise triangles. Only a centre on the diagonal they share lies
/// in both, and there the rasterizer's fill rule gives it to one of them, so
/// each pixel is drawn exactly once.
pub proof fn lemma_full_coverage(w: int, h: int, i: int, j: int)
    requires
        w > 0,
        h > 0,
        0 <= i < w,
        0 <= j < h,
    ensures
        winding(quad_vertices(), 0) > 0,
        winding(quad_vertices(), 3) > 0,
        triangle_covers(quad_vertices(), 0, w, h, i, j) || triangle_covers(quad_vertices(), 3, w, h, i, j),
        triangle_covers(quad_vertices(), 0, w, h, i, j) && triangle_covers(quad_vertices(), 3, w, h, i, j)
            ==> edge(quad_vertices()[1], quad_vertices()[2], w, h, i, j) == 0,
{
    let q = quad_vertices();
    let x = 2 * i + 1 - w;
    let y = 2 * j + 1 - h;
    assert(q[0].x == -1 && q[0].y == -1 && q[1].x == 1 && q[1].y == -1 && q[2].x == -1 && q[2].y == 1);
    assert(q[3].x == -1 && q[3].y == 1 && q[4].x == 1 && q[4].y == -1 && q[5].x == 1 && q[5].y == 1);
    assert(winding(q, 0) == 4) by (nonlinear_arith)
        requires
            q[0].x == -1 && q[0].y == -1 && q[1].x == 1 && q[1].y == -1 && q[2].x == -1 && q[2].y == 1,
    ;
    assert(winding(q, 3) == 4) by (nonlinear_arith)
        requires
            q[3].x == -1 && q[3].y == 1 && q[4].x == 1 && q[4].y == -1 && q[5].x == 1 && q[5].y == 1,
    ;
    assert(edge(q[0], q[1], w, h, i, j) == 2 * w * (2 * j + 1)) by (nonlinear_arith)
        requires
            q[0].x == -1,
            q[0].y == -1,
            q[1].x == 1,
            q[1].y == -1,
    ;
    assert(edge(q[1], q[2], w, h, i, j) == -2 * (w * y + h * x)) by (nonlinear_arith)
        requires
            q[1].x == 1,
            q[1].y == -1,
            q[2].x == -1,
            q[2].y == 1,
            x == 2 * i + 1 - w,
            y == 2 * j + 1 - h,
    ;
    assert(edge(q[2], q[0], w, h, i, j) == 2 * h * (2 * i + 1)) by (nonlinear_arith)
        requires
            q[2].x == -1,
            q[2].y == 1,
            q[0].x == -1,
            q[0].y == -1,
    ;
    assert(edge(q[3], q[4], w, h, i, j) == 2 * (w * y + h * x)) by (nonlinear_arith)
        requires
            q[3].x == -1,
            q[3].y == 1,
            q[4].x == 1,
            q[4].y == -1,
            x == 2 * i + 1 - w,
            y == 2 * j + 1 - h,
    ;
    assert(edge(q[4], q[5], w, h, i, j) == 2 * h * (2 * w - 2 * i - 1)) by (nonlinear_arith)
        requires
            q[4].x == 1,
            q[4].y == -1,
            q[5].x == 1,
            q[5].y == 1,
    ;
    assert(edge(q[5], q[3], w, h, i, j) == 2 * w * (2 * h - 2 * j - 1)) by (nonlinear_arith)
        requires
            q[5].x == 1,
            q[5].y == 1,
            q[3].x == -1,
            q[3].y == 1,
    ;
    assert(2 * w * (2 * j + 1) > 0) by (nonlinear_arith)
        requires
            w > 0,
            j >= 0,
    ;
    assert(2 * h * (2 * i + 1) > 0) by (nonlinear_arith)
        requires
            h > 0,
            i >= 0,
    ;
    assert(2 * h * (2 * w - 2 * i - 1) > 0) by (nonlinear_arith)
        requires
            h > 0,
            i < w,
    ;
    assert(2 * w * (2 * h - 2 * j - 1) > 0) by (nonlinear_arith)
        requires
            w > 0,
            j < h,
    ;
}

} // verus!
