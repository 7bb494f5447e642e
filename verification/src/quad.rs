//! The quad that carries the texture: two triangles over the whole viewport.
//!
//! The viewport is the square from -1 to 1 in both directions, the texture
//! the square from 0 to 1. Every coordinate of the quad is one of these
//! bounds, so the vertices hold whole numbers.

use vstd::prelude::*;

verus! {

/// A corner of a triangle: where it lies in the viewport, and which point of
/// the texture is shown there.
#[derive(Clone, Copy, Debug, PartialEq, Eq)]
pub struct Vertex {
    /// The position in the viewport, across and up.
    pub a_position: (i8, i8),
    /// The point of the texture: how far across, and how far from its
    /// first row.
    pub a_texcoord: (i8, i8),
}

/// The vertex at the position `(x, y)`. It shows the point of the texture
/// that lies as far across, and as far from the first row as the position
/// lies below the top: the first row is drawn at the top.
pub open spec fn corner(x: int, y: int) -> Vertex {
    Vertex {
        a_position: (x as i8, y as i8),
        a_texcoord: (((x + 1) / 2) as i8, ((1 - y) / 2) as i8),
    }
}

/// The six vertices of the quad, three for each triangle. The triangles share
/// the diagonal from the bottom left to the top right.
pub open spec fn quad() -> Seq<Vertex> {
    seq![corner(-1, -1), corner(1, -1), corner(1, 1), corner(-1, -1), corner(-1, 1), corner(1, 1)]
}

/// Twice the area of the triangle `a`, `b`, `p`, positive where `p` lies to
/// the left of the way from `a` to `b`. `p` is the point `(x / d, y / d)`, and
/// the area is scaled by `d`.
pub open spec fn side(a: Vertex, b: Vertex, x: int, y: int, d: int) -> int {
    (b.a_position.0 - a.a_position.0) * (y - a.a_position.1 * d) - (b.a_position.1
        - a.a_position.1) * (x - a.a_position.0 * d)
}

/// Whether the point `(x / d, y / d)` lies in the triangle `a`, `b`, `c`, its
/// edges included.
pub open spec fn in_triangle(a: Vertex, b: Vertex, c: Vertex, x: int, y: int, d: int) -> bool {
    let ab = side(a, b, x, y, d);
    let bc = side(b, c, x, y, d);
    let ca = side(c, a, x, y, d);
    (ab >= 0 && bc >= 0 && ca >= 0) || (ab <= 0 && bc <= 0 && ca <= 0)
}

/// The two triangles of the quad leave no point of the viewport out: every
/// point `(x / d, y / d)` of the square from -1 to 1 lies in one of them.
pub proof fn lemma_quad_covers_the_viewport(x: int, y: int, d: int)
    requires
        d > 0,
        -d <= x <= d,
        -d <= y <= d,
    ensures
        in_triangle(quad()[0], quad()[1], quad()[2], x, y, d) || in_triangle(
            quad()[3],
            quad()[4],
            quad()[5],
            x,
            y,
            d,
        ),
{
    let q = quad();
    lemma_side(-1, -1, 1, -1, x, y, d);
    lemma_side(1, -1, 1, 1, x, y, d);
    lemma_side(1, 1, -1, -1, x, y, d);
    lemma_side(-1, -1, -1, 1, x, y, d);
    lemma_side(-1, 1, 1, 1, x, y, d);
    assert(side(q[0], q[1], x, y, d) == 2 * y + 2 * d);
    assert(side(q[1], q[2], x, y, d) == 2 * d - 2 * x);
    assert(side(q[2], q[0], x, y, d) == 2 * x - 2 * y);
    assert(side(q[3], q[4], x, y, d) == -2 * x - 2 * d);
    assert(side(q[4], q[5], x, y, d) == 2 * y - 2 * d);
    assert(side(q[5], q[3], x, y, d) == 2 * x - 2 * y);
}

/// `side` between two corners of the viewport, multiplied out.
proof fn lemma_side(ax: int, ay: int, bx: int, by: int, x: int, y: int, d: int)
    requires
        -1 <= ax <= 1 && -1 <= ay <= 1 && -1 <= bx <= 1 && -1 <= by <= 1,
    ensures
        side(corner(ax, ay), corner(bx, by), x, y, d) == (bx - ax) * y - (by - ay) * x + (by * ax
            - bx * ay) * d,
{
    assert((bx - ax) * (y - ay * d) - (by - ay) * (x - ax * d) == (bx - ax) * y - (bx - ax) * (ay
        * d) - ((by - ay) * x - (by - ay) * (ax * d))) by (nonlinear_arith);
    assert((bx - ax) * (ay * d) == (bx * ay - ax * ay) * d) by (nonlinear_arith);
    assert((by - ay) * (ax * d) == (by * ax - ay * ax) * d) by (nonlinear_arith);
    assert((by * ax - ay * ax) * d - (bx * ay - ax * ay) * d == (by * ax - bx * ay) * d)
        by (nonlinear_arith);
}

/// The vertices of the quad, in drawing order.
pub fn shape() -> (vertices: Vec<Vertex>)
    ensures
        vertices@ == quad(),
{
    let vertex1 = Vertex { a_position: (-1, -1), a_texcoord: (0, 1) };
    let vertex2 = Vertex { a_position: (1, -1), a_texcoord: (1, 1) };
    let vertex3 = Vertex { a_position: (1, 1), a_texcoord: (1, 0) };
    let vertex4 = Vertex { a_position: (-1, -1), a_texcoord: (0, 1) };
    let vertex5 = Vertex { a_position: (-1, 1), a_texcoord: (0, 0) };
    let vertex6 = Vertex { a_position: (1, 1), a_texcoord: (1, 0) };
    let mut vertices: Vec<Vertex> = Vec::new();
    vertices.push(vertex1);
    vertices.push(vertex2);
    vertices.push(vertex3);
    vertices.push(vertex4);
    vertices.push(vertex5);
    vertices.push(vertex6);
    vertices
}

} // verus!
