//! Plain geometric data: 2D vertex positions and RGBA colors.
//!
//! Positions are fixed-point integers in units chosen by the host program;
//! color channels are carried as the IEEE-754 bit patterns of the channel
//! values, so that the core never computes on them.

use vstd::prelude::*;

verus! {

/// A two-dimensional vertex position, in fixed-point units.
#[derive(Clone, Copy, Debug, PartialEq, Eq, Structural)]
pub struct Vertex {
    pub x: i64,
    pub y: i64,
}

/// An RGBA color. Each channel holds the IEEE-754 bit pattern of the channel
/// value; the core only stores and compares channels, never computes on them.
#[derive(Clone, Copy, Debug, PartialEq, Eq, Structural)]
pub struct Color {
    pub r: u32,
    pub g: u32,
    pub b: u32,
    pub a: u32,
}

/// The coordinates of a vertex as a mathematical pair.
pub open spec fn vertex_coords(v: Vertex) -> (int, int) {
    (v.x as int, v.y as int)
}

/// The coordinates of a whole vertex list.
pub open spec fn coords_of(vs: Seq<Vertex>) -> Seq<(int, int)> {
    vs.map_values(|v: Vertex| vertex_coords(v))
}

/// The six corners of an axis-aligned rectangle, listed as two triangles:
/// top-left / bottom-left / top-right, then bottom-left / bottom-right /
/// top-right, so that both triangles wind the same way.
pub open spec fn rect_corner_seq(x: int, y: int, width: int, height: int) -> Seq<(int, int)> {
    seq![
        (x, y),
        (x, y + height),
        (x + width, y),
        (x, y + height),
        (x + width, y + height),
        (x + width, y),
    ]
}

/// Twice the signed area of the triangle `a`, `b`, `c`; its sign gives the
/// winding direction.
pub open spec fn winding(a: (int, int), b: (int, int), c: (int, int)) -> int {
    (b.0 - a.0) * (c.1 - a.1) - (b.1 - a.1) * (c.0 - a.0)
}

/// A rectangle's six corners decompose into two triangles that share the
/// bottom-left and top-right corners, wind the same way, and together touch
/// exactly the four corners of the bounds `(x, y)`-`(x + width, y + height)`.
pub proof fn lemma_rectangle_decomposition(x: int, y: int, width: int, height: int)
    ensures
        rect_corner_seq(x, y, width, height).len() == 6,
        rect_corner_seq(x, y, width, height)[0] == (x, y),
        rect_corner_seq(x, y, width, height)[2] == (x + width, y),
        rect_corner_seq(x, y, width, height)[4] == (x + width, y + height),
        rect_corner_seq(x, y, width, height)[1] == rect_corner_seq(x, y, width, height)[3],
        rect_corner_seq(x, y, width, height)[1] == (x, y + height),
        rect_corner_seq(x, y, width, height)[5] == rect_corner_seq(x, y, width, height)[2],
        winding(
            rect_corner_seq(x, y, width, height)[0],
            rect_corner_seq(x, y, width, height)[1],
            rect_corner_seq(x, y, width, height)[2],
        ) == winding(
            rect_corner_seq(x, y, width, height)[3],
            rect_corner_seq(x, y, width, height)[4],
            rect_corner_seq(x, y, width, height)[5],
        ),
        rect_corner_seq(x, y, width, height).to_set() =~= set![
            (x, y),
            (x + width, y),
            (x, y + height),
            (x + width, y + height),
        ],
{
    let s = rect_corner_seq(x, y, width, height);
    let w1 = winding(s[0], s[1], s[2]);
    let w2 = winding(s[3], s[4], s[5]);
    assert(w1 == (x - x) * (y - y) - ((y + height) - y) * ((x + width) - x));
    assert(w2 == ((x + width) - x) * (y - (y + height))
        - ((y + height) - (y + height)) * ((x + width) - x));
    assert((x - x) * (y - y) - ((y + height) - y) * ((x + width) - x)
        == 0 - height * width) by (nonlinear_arith);
    assert(((x + width) - x) * (y - (y + height))
        - ((y + height) - (y + height)) * ((x + width) - x)
        == 0 - height * width) by (nonlinear_arith);
    assert forall|c: (int, int)| s.to_set().contains(c) implies set![
        (x, y),
        (x + width, y),
        (x, y + height),
        (x + width, y + height),
    ].contains(c) by {
        let i = choose|i: int| 0 <= i < s.len() && s[i] == c;
    }
    assert(s.to_set().contains(s[0]));
    assert(s.to_set().contains(s[2]));
    assert(s.to_set().contains(s[1]));
    assert(s.to_set().contains(s[4]));
}

} // verus!
