use vstd::prelude::*;

use crate::color::Color;
use crate::shape::{PrimitiveType, ShapePrimitive};

verus! {

/// How the backend rasterises a polygon.
#[derive(Clone, Copy, Debug, PartialEq, Eq, Structural)]
pub enum PolygonMode {
    /// Only the boundary of each polygon is drawn, as lines.
    Line,
    /// The inside of each polygon is filled.
    Fill,
}

/// The settings of one draw call that a command decides. Every other setting
/// is left at the backend's default.
#[derive(Debug, PartialEq)]
pub struct DrawParameters<S> {
    /// Whether multisample antialiasing is used.
    pub multisampling: bool,
    pub polygon_mode: PolygonMode,
    /// Width of the lines in pixels; `None` leaves it to the backend.
    pub line_width: Option<S>,
}

/// Everything the backend needs for one draw call.
#[derive(Debug, PartialEq)]
pub struct SketchDrawCommand<V, S> {
    /// The vertices to upload, in drawing order.
    pub vertices: Vec<V>,
    /// The vertices are drawn in the order given, without an index buffer,
    /// linked as this says.
    pub indices: PrimitiveType,
    /// The `(r, g, b, a)` color handed to the fragment shader.
    pub uniforms: (S, S, S, S),
    pub draw_parameters: DrawParameters<S>,
}

impl<V, S> SketchDrawCommand<V, S> {
    /// Whether the command holds exactly the vertices of its shape: three
    /// where it draws a triangle. A line loop closes through any number.
    pub open spec fn is_exact(self) -> bool {
        self.indices is TrianglesList ==> self.vertices@.len() == 3
    }
}

/// The polygon mode of a pass: filled, or outlined.
pub open spec fn polygon_mode(add_fill: bool) -> PolygonMode {
    if add_fill {
        PolygonMode::Fill
    } else {
        PolygonMode::Line
    }
}

/// Builds the command that draws `primitive` through `vertices` in `color`.
///
/// `vertices` should hold exactly the vertices that make up the shape. They
/// are handed on untouched whatever their number, so the command is exact
/// just when they were. With `add_fill` the shape is filled, without it only
/// its outline is drawn, `stroke_width` pixels wide where one is given.
pub fn generate_draw_command<V, S>(
    vertices: Vec<V>,
    primitive: ShapePrimitive,
    color: Color<S>,
    add_fill: bool,
    stroke_width: Option<S>,
) -> (command: SketchDrawCommand<V, S>)
    ensures
        command.vertices@ == vertices@,
        command.indices == primitive.primitive_type(),
        command.uniforms == color@,
        command.draw_parameters.multisampling,
        command.draw_parameters.polygon_mode == polygon_mode(add_fill),
        command.draw_parameters.line_width == stroke_width,
        command.is_exact() <==> (primitive is Triangle ==> vertices@.len() == 3),
{
    let rgba_color = color.as_tuple();

    let indices = match primitive {
        ShapePrimitive::Circle => PrimitiveType::LineLoop,
        ShapePrimitive::Triangle => PrimitiveType::TrianglesList,
    };

    let draw_parameters = DrawParameters {
        multisampling: true,
        polygon_mode: match add_fill {
            true => PolygonMode::Fill,
            false => PolygonMode::Line,
        },
        line_width: stroke_width,
    };

    SketchDrawCommand { vertices, indices, uniforms: rgba_color, draw_parameters }
}

} // verus!
