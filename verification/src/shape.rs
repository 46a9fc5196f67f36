use vstd::prelude::*;

verus! {

/// The shapes a sketch is made of.
#[non_exhaustive]
#[derive(Clone, Copy, Debug, PartialEq, Eq, Structural)]
pub enum ShapePrimitive {
    Circle,
    Triangle,
}

/// How the backend links consecutive vertices into primitives.
#[derive(Clone, Copy, Debug, PartialEq, Eq, Structural)]
pub enum PrimitiveType {
    /// Each vertex forms a line with the next one, and the last with the first.
    LineLoop,
    /// Each chunk of three vertices is one triangle.
    TrianglesList,
}

impl ShapePrimitive {
    /// The linkage a shape is drawn with: a circle is an outline through its
    /// vertices, a triangle a list of triangles.
    pub open spec fn primitive_type(self) -> PrimitiveType {
        match self {
            ShapePrimitive::Circle => PrimitiveType::LineLoop,
            ShapePrimitive::Triangle => PrimitiveType::TrianglesList,
        }
    }
}

} // verus!
