//! The closed set of drawable shapes.
//!
//! A shape owns its vertex list and color, plus two optional GPU resources:
//! a vertex buffer and a binding (descriptor) for its color uniform. Both are
//! opaque `u64` handles here; they start empty and are attached at most once,
//! lazily, by the command recorder. The host program maps each handle to the
//! real device object.

use vstd::prelude::*;

use crate::geometry::Color;
use crate::geometry::Vertex;
use crate::geometry::coords_of;
use crate::geometry::rect_corner_seq;

verus! {

/// A triangle: exactly three vertices.
pub struct Triangle {
    pub vertices: Vec<Vertex>,
    pub color: Color,
    pub descriptor_set: Option<u64>,
    pub vertex_buffer: Option<u64>,
}

impl Triangle {
    /// Builds a triangle from its three vertices, with both GPU resources
    /// left empty.
    pub fn new(vertices: Vec<Vertex>, color: Color) -> (t: Triangle)
        requires
            vertices@.len() == 3,
        ensures
            t.vertices@ == vertices@,
            t.color == color,
            t.descriptor_set is None,
            t.vertex_buffer is None,
    {
        Triangle { vertices, color, descriptor_set: None, vertex_buffer: None }
    }
}

/// An axis-aligned rectangle, stored as the six vertices of its two
/// triangles.
pub struct Rectangle {
    pub vertices: Vec<Vertex>,
    pub color: Color,
    pub descriptor_set: Option<u64>,
    pub vertex_buffer: Option<u64>,
}

impl Rectangle {
    /// Expands the bounds `(x, y)`-`(x + width, y + height)` into six
    /// vertices, two consistently wound triangles, with both GPU resources
    /// left empty.
    pub fn new(x: i64, y: i64, width: i64, height: i64, color: Color) -> (r: Rectangle)
        requires
            i64::MIN <= x + width <= i64::MAX,
            i64::MIN <= y + height <= i64::MAX,
        ensures
            coords_of(r.vertices@) == rect_corner_seq(x as int, y as int, width as int, height as int),
            r.color == color,
            r.descriptor_set is None,
            r.vertex_buffer is None,
    {
        let right: i64 = x + width;
        let bottom: i64 = y + height;
        let mut vertices: Vec<Vertex> = Vec::new();
        vertices.push(Vertex { x, y });
        vertices.push(Vertex { x, y: bottom });
        vertices.push(Vertex { x: right, y });
        vertices.push(Vertex { x, y: bottom });
        vertices.push(Vertex { x: right, y: bottom });
        vertices.push(Vertex { x: right, y });
        proof {
            assert(coords_of(vertices@) =~= rect_corner_seq(
                x as int, y as int, width as int, height as int,
            ));
        }
        Rectangle { vertices, color, descriptor_set: None, vertex_buffer: None }
    }
}

/// A drawable shape: one of the closed set of variants.
pub enum Shape {
    Triangle(Triangle),
    Rectangle(Rectangle),
}

impl Shape {
    /// The shape's vertex list.
    pub open spec fn spec_vertices(self) -> Seq<Vertex> {
        match self {
            Shape::Triangle(t) => t.vertices@,
            Shape::Rectangle(r) => r.vertices@,
        }
    }

    /// The shape's color.
    pub open spec fn spec_color(self) -> Color {
        match self {
            Shape::Triangle(t) => t.color,
            Shape::Rectangle(r) => r.color,
        }
    }

    /// The shape's binding handle, if one has been attached.
    pub open spec fn spec_descriptor_set(self) -> Option<u64> {
        match self {
            Shape::Triangle(t) => t.descriptor_set,
            Shape::Rectangle(r) => r.descriptor_set,
        }
    }

    /// The shape's vertex-buffer handle, if one has been attached.
    pub open spec fn spec_vertex_buffer(self) -> Option<u64> {
        match self {
            Shape::Triangle(t) => t.vertex_buffer,
            Shape::Rectangle(r) => r.vertex_buffer,
        }
    }

    /// Whether the vertex list matches the shape's kind: three vertices for a
    /// triangle, six for a rectangle.
    pub open spec fn wf(self) -> bool {
        match self {
            Shape::Triangle(t) => t.vertices@.len() == 3,
            Shape::Rectangle(r) => r.vertices@.len() == 6,
        }
    }

    /// Whether both GPU resources have been attached.
    pub open spec fn materialized(self) -> bool {
        self.spec_descriptor_set() is Some && self.spec_vertex_buffer() is Some
    }

    /// Whether two shapes are the same apart from their attached GPU
    /// resources.
    pub open spec fn same_shape(self, other: Shape) -> bool {
        &&& (self is Triangle <==> other is Triangle)
        &&& self.spec_vertices() == other.spec_vertices()
        &&& self.spec_color() == other.spec_color()
    }

    pub fn new_triangle(vertices: Vec<Vertex>, color: Color) -> (s: Shape)
        requires
            vertices@.len() == 3,
        ensures
            s is Triangle,
            s.wf(),
            s.spec_vertices() == vertices@,
            s.spec_color() == color,
            s.spec_descriptor_set() is None,
            s.spec_vertex_buffer() is None,
    {
        Shape::Triangle(Triangle::new(vertices, color))
    }

    pub fn new_rectangle(x: i64, y: i64, width: i64, height: i64, color: Color) -> (s: Shape)
        requires
            i64::MIN <= x + width <= i64::MAX,
            i64::MIN <= y + height <= i64::MAX,
        ensures
            s is Rectangle,
            s.wf(),
            coords_of(s.spec_vertices()) == rect_corner_seq(
                x as int, y as int, width as int, height as int,
            ),
            s.spec_color() == color,
            s.spec_descriptor_set() is None,
            s.spec_vertex_buffer() is None,
    {
        let r = Rectangle::new(x, y, width, height, color);
        proof {
            assert(r.vertices@.len() == 6) by {
                assert(coords_of(r.vertices@).len() == 6);
            }
        }
        Shape::Rectangle(r)
    }

    pub fn get_color(&self) -> (c: Color)
        ensures
            c == self.spec_color(),
    {
        match self {
            Shape::Triangle(t) => t.color,
            Shape::Rectangle(r) => r.color,
        }
    }

    /// Attaches a binding handle. Attaching over an existing binding is a
    /// caller error: the recorder checks for presence first.
    pub fn update_descriptor_set(&mut self, descriptor_set: u64)
        requires
            old(self).spec_descriptor_set() is None,
        ensures
            final(self).spec_descriptor_set() == Some(descriptor_set),
            final(self).spec_vertex_buffer() == old(self).spec_vertex_buffer(),
            final(self).same_shape(*old(self)),
    {
        match self {
            Shape::Triangle(t) => t.descriptor_set = Some(descriptor_set),
            Shape::Rectangle(r) => r.descriptor_set = Some(descriptor_set),
        }
    }

    pub fn get_descriptor_set(&self) -> (d: Option<u64>)
        ensures
            d == self.spec_descriptor_set(),
    {
        match self {
            Shape::Triangle(t) => t.descriptor_set,
            Shape::Rectangle(r) => r.descriptor_set,
        }
    }

    pub fn get_vertex_buffer(&self) -> (b: Option<u64>)
        ensures
            b == self.spec_vertex_buffer(),
    {
        match self {
            Shape::Triangle(t) => t.vertex_buffer,
            Shape::Rectangle(r) => r.vertex_buffer,
        }
    }

    /// Attaches a vertex-buffer handle. Attaching over an existing buffer is
    /// a caller error: the recorder checks for presence first.
    pub fn update_vertex_buffer(&mut self, vertex_buffer: u64)
        requires
            old(self).spec_vertex_buffer() is None,
        ensures
            final(self).spec_vertex_buffer() == Some(vertex_buffer),
            final(self).spec_descriptor_set() == old(self).spec_descriptor_set(),
            final(self).same_shape(*old(self)),
    {
        match self {
            Shape::Triangle(t) => t.vertex_buffer = Some(vertex_buffer),
            Shape::Rectangle(r) => r.vertex_buffer = Some(vertex_buffer),
        }
    }

    /// A copy of the vertex list.
    pub fn get_vertices(&self) -> (v: Vec<Vertex>)
        ensures
            v@ == self.spec_vertices(),
    {
        let source: &Vec<Vertex> = match self {
            Shape::Triangle(t) => &t.vertices,
            Shape::Rectangle(r) => &r.vertices,
        };
        let mut v: Vec<Vertex> = Vec::new();
        let mut i: usize = 0;
        while i < source.len()
            invariant
                i <= source@.len(),
                v@ == source@.take(i as int),
            decreases source@.len() - i,
        {
            v.push(source[i]);
            proof {
                assert(v@ =~= source@.take(i as int + 1));
            }
            i = i + 1;
        }
        proof {
            assert(v@ =~= source@);
            assert(source@ == self.spec_vertices());
        }
        v
    }

    /// The number of vertices the shape draws.
    pub fn vertex_count(&self) -> (n: usize)
        ensures
            n == self.spec_vertices().len(),
    {
        match self {
            Shape::Triangle(t) => t.vertices.len(),
            Shape::Rectangle(r) => r.vertices.len(),
        }
    }
}

/// A shape's vertex count is fixed by its kind: a triangle draws three
/// vertices and a rectangle six.
pub proof fn lemma_vertex_count_by_kind(s: Shape)
    requires
        s.wf(),
    ensures
        s is Triangle ==> s.spec_vertices().len() == 3,
        s is Rectangle ==> s.spec_vertices().len() == 6,
{
}

} // verus!
