//! Which native function draws which shape, on which surface, and which
//! shapes a surface cannot draw. The shapes stand here by their kind
//! alone: their coordinates play no part in the choice.

use vstd::prelude::*;
use crate::error::Error;

verus! {

/// The curves that run through a list of points.
#[derive(Debug, Clone, Copy, PartialEq, Eq, Structural)]
pub enum SplineType {
    Linear,
    Basis,
    CatmullRom,
    Quadratic,
    Cubic,
}

/// A flat shape, as far as the choice of a native function goes.
#[derive(Debug, Clone, Copy, PartialEq, Eq, Structural)]
pub enum Shape2DKind {
    Pixel,
    /// A line, with a thickness of its own or without.
    Line { thick: bool },
    LineStrip,
    Bezier,
    Circle,
    Pie,
    Ellipse,
    Ring,
    /// A rectangle, turned about its centre or not.
    Rectangle { rotated: bool },
    RoundedRectangle,
    Triangle,
    TriangleFan,
    TriangleStrip,
    Polygon,
    Spline(SplineType),
}

/// A solid shape, as far as the choice of a native function goes.
#[derive(Debug, Clone, Copy, PartialEq, Eq, Structural)]
pub enum Shape3DKind {
    Line,
    Circle,
    Triangle,
    TriangleStrip,
    Cube,
    Sphere,
    Cylinder,
    Capsule,
    Plane,
    Grid,
    Ray,
}

/// Where a flat shape is drawn.
#[derive(Debug, Clone, Copy, PartialEq, Eq, Structural)]
pub enum Surface {
    /// The screen, or whatever the open mode draws to.
    Screen,
    /// An image in memory.
    Image,
}

/// How a flat shape is drawn.
#[derive(Debug, Clone, Copy, PartialEq, Eq, Structural)]
pub enum Style {
    Fill,
    Lines,
    GradientH,
    GradientV,
}

/// How a texture is drawn.
#[derive(Debug, Clone, Copy, PartialEq, Eq, Structural)]
pub enum TextureDraw {
    Plain,
    Scaled,
    Clipped,
    Rotated,
    NPatched,
}

/// The native drawing functions.
#[derive(Debug, Clone, Copy, PartialEq, Eq, Structural)]
pub enum DrawCall {
    DrawPixel,
    DrawLineEx,
    DrawLineV,
    DrawLineStrip,
    DrawLineBezier,
    DrawCircleV,
    DrawCircleLinesV,
    DrawCircleSector,
    DrawCircleSectorLines,
    DrawCircleGradient,
    DrawEllipse,
    DrawEllipseLines,
    DrawRing,
    DrawRingLines,
    DrawRectanglePro,
    DrawRectangleRec,
    DrawRectangleLinesEx,
    DrawRectangleGradientH,
    DrawRectangleGradientV,
    DrawRectangleRounded,
    DrawRectangleRoundedLinesEx,
    DrawTriangle,
    DrawTriangleLines,
    DrawTriangleFan,
    DrawTriangleStrip,
    DrawPoly,
    DrawPolyLinesEx,
    DrawSplineLinear,
    DrawSplineBasis,
    DrawSplineCatmullRom,
    DrawSplineBezierQuadratic,
    DrawSplineBezierCubic,
    DrawTextureV,
    DrawTextureEx,
    DrawTextureRec,
    DrawTexturePro,
    DrawTextureNPatch,
    DrawTextPro,
    ImageDrawPixel,
    ImageDrawLineEx,
    ImageDrawLineV,
    /// An image has no function for a strip of lines: the strip is drawn
    /// as one `ImageDrawLineV` for each two neighbours, from the point
    /// `i` to the point `i + 1` for every `i` below `strip_segments` of
    /// the number of points.
    ImageDrawLineStrip,
    ImageDrawCircleV,
    ImageDrawCircleLinesV,
    ImageDrawRectangleRec,
    ImageDrawRectangleLines,
    ImageDrawTriangle,
    ImageDrawTriangleFan,
    ImageDrawTriangleStrip,
    DrawLine3D,
    DrawCircle3D,
    DrawTriangle3D,
    DrawTriangleStrip3D,
    DrawCubeV,
    DrawCubeWiresV,
    DrawSphere,
    DrawSphereWires,
    DrawCylinderEx,
    DrawCylinderWiresEx,
    DrawCapsule,
    DrawCapsuleWires,
    DrawPlane,
    DrawGrid,
    DrawRay,
}

/// How many lines join the neighbours of a strip of `points` points: one
/// less than there are points, and none where there is no point.
pub open spec fn spec_strip_segments(points: usize) -> usize {
    if points == 0 {
        0
    } else {
        (points - 1) as usize
    }
}

/// Whether a strip of `points` points has a line `i`: the line runs from
/// point `i` to point `i + 1`, and both are points of the strip.
pub open spec fn is_strip_line(points: usize, i: int) -> bool {
    0 <= i && i + 1 < points
}

/// The number of lines of a strip of `points` points: its lines are the
/// lines `0` up to, and without, that number.
pub fn strip_segments(points: usize) -> (r: usize)
    ensures
        r == spec_strip_segments(points),
        forall|i: int| #[trigger] is_strip_line(points, i) <==> 0 <= i < r,
{
    if points == 0 {
        0
    } else {
        points - 1
    }
}

impl SplineType {
    /// The native function that draws a spline of this type.
    pub open spec fn spec_draw(self) -> DrawCall {
        match self {
            SplineType::Linear => DrawCall::DrawSplineLinear,
            SplineType::Basis => DrawCall::DrawSplineBasis,
            SplineType::CatmullRom => DrawCall::DrawSplineCatmullRom,
            SplineType::Quadratic => DrawCall::DrawSplineBezierQuadratic,
            SplineType::Cubic => DrawCall::DrawSplineBezierCubic,
        }
    }

    pub fn draw(self) -> (r: DrawCall)
        ensures
            r == self.spec_draw(),
    {
        match self {
            SplineType::Linear => DrawCall::DrawSplineLinear,
            SplineType::Basis => DrawCall::DrawSplineBasis,
            SplineType::CatmullRom => DrawCall::DrawSplineCatmullRom,
            SplineType::Quadratic => DrawCall::DrawSplineBezierQuadratic,
            SplineType::Cubic => DrawCall::DrawSplineBezierCubic,
        }
    }
}

impl Style {
    /// What an error calls drawing in this style.
    pub open spec fn spec_verb(self) -> Seq<char> {
        match self {
            Style::Fill => "shape drawing"@,
            Style::Lines => "line drawing"@,
            Style::GradientH | Style::GradientV => "gradient drawing"@,
        }
    }

    pub fn verb(self) -> (r: &'static str)
        ensures
            r@ == self.spec_verb(),
    {
        match self {
            Style::Fill => "shape drawing",
            Style::Lines => "line drawing",
            Style::GradientH | Style::GradientV => "gradient drawing",
        }
    }
}

impl Shape2DKind {
    /// What an error calls shapes of this kind.
    pub open spec fn spec_noun(self) -> Seq<char> {
        match self {
            Shape2DKind::Pixel => "pixels"@,
            Shape2DKind::Line { .. } => "lines"@,
            Shape2DKind::LineStrip => "line strips"@,
            Shape2DKind::Bezier => "bezier curves"@,
            Shape2DKind::Circle => "circles"@,
            Shape2DKind::Pie => "pie slices"@,
            Shape2DKind::Ellipse => "ellipses"@,
            Shape2DKind::Ring => "rings"@,
            Shape2DKind::Rectangle { rotated } => if rotated {
                "rotated rectangles"@
            } else {
                "rectangles"@
            },
            Shape2DKind::RoundedRectangle => "rounded rectangles"@,
            Shape2DKind::Triangle => "triangles"@,
            Shape2DKind::TriangleFan => "triangle fans"@,
            Shape2DKind::TriangleStrip => "triangle strips"@,
            Shape2DKind::Polygon => "polygons"@,
            Shape2DKind::Spline(_) => "splines"@,
        }
    }

    pub fn noun(self) -> (r: &'static str)
        ensures
            r@ == self.spec_noun(),
    {
        match self {
            Shape2DKind::Pixel => "pixels",
            Shape2DKind::Line { .. } => "lines",
            Shape2DKind::LineStrip => "line strips",
            Shape2DKind::Bezier => "bezier curves",
            Shape2DKind::Circle => "circles",
            Shape2DKind::Pie => "pie slices",
            Shape2DKind::Ellipse => "ellipses",
            Shape2DKind::Ring => "rings",
            Shape2DKind::Rectangle { rotated } => if rotated {
                "rotated rectangles"
            } else {
                "rectangles"
            },
            Shape2DKind::RoundedRectangle => "rounded rectangles",
            Shape2DKind::Triangle => "triangles",
            Shape2DKind::TriangleFan => "triangle fans",
            Shape2DKind::TriangleStrip => "triangle strips",
            Shape2DKind::Polygon => "polygons",
            Shape2DKind::Spline(_) => "splines",
        }
    }

    /// Whether the shape is a rectangle that is not turned, or a circle:
    /// the shapes that can be filled with a gradient.
    pub open spec fn takes_gradient(self) -> bool {
        self == (Shape2DKind::Rectangle { rotated: false }) || self == Shape2DKind::Circle
    }

    /// Whether an image has a function that fills the shape.
    pub open spec fn image_fills(self) -> bool {
        match self {
            Shape2DKind::Pixel
            | Shape2DKind::Line { .. }
            | Shape2DKind::LineStrip
            | Shape2DKind::Circle
            | Shape2DKind::Triangle
            | Shape2DKind::TriangleFan
            | Shape2DKind::TriangleStrip => true,
            Shape2DKind::Rectangle { rotated } => !rotated,
            _ => false,
        }
    }

    /// Whether an image has a function that outlines the shape.
    pub open spec fn image_outlines(self) -> bool {
        match self {
            Shape2DKind::Pixel
            | Shape2DKind::Line { .. }
            | Shape2DKind::LineStrip
            | Shape2DKind::Circle
            | Shape2DKind::Triangle => true,
            Shape2DKind::Rectangle { rotated } => !rotated,
            _ => false,
        }
    }

    /// Whether the screen has a function that outlines the shape.
    pub open spec fn screen_outlines(self) -> bool {
        match self {
            Shape2DKind::TriangleFan | Shape2DKind::TriangleStrip => false,
            Shape2DKind::Rectangle { rotated } => !rotated,
            _ => true,
        }
    }
}

impl Surface {
    /// Whether the surface can draw `shape` in `style`.
    pub open spec fn supports(self, style: Style, shape: Shape2DKind) -> bool {
        match (self, style) {
            (Surface::Screen, Style::Fill) => true,
            (Surface::Screen, Style::Lines) => shape.screen_outlines(),
            (Surface::Screen, Style::GradientH) => shape.takes_gradient(),
            (Surface::Screen, Style::GradientV) => shape.takes_gradient(),
            (Surface::Image, Style::Fill) => shape.image_fills(),
            (Surface::Image, Style::Lines) => shape.image_outlines(),
            (Surface::Image, Style::GradientH) => false,
            (Surface::Image, Style::GradientV) => false,
        }
    }

    /// What the refusal names as the thing that cannot be drawn.
    pub open spec fn refused_noun(self, style: Style, shape: Shape2DKind) -> Seq<char> {
        match (self, style) {
            (Surface::Image, Style::GradientH) => "horizontal gradients"@,
            (Surface::Image, Style::GradientV) => "vertical gradients"@,
            (Surface::Screen, Style::GradientH) | (Surface::Screen, Style::GradientV) => if shape
                == (Shape2DKind::Rectangle { rotated: true }) {
                "rotated rectangles"@
            } else {
                "non-rectangle/non-circle shapes"@
            },
            _ => shape.spec_noun(),
        }
    }

    /// The native function that fills `shape` on the screen.
    pub open spec fn screen_fill(shape: Shape2DKind) -> DrawCall {
        match shape {
            Shape2DKind::Pixel => DrawCall::DrawPixel,
            Shape2DKind::Line { thick } => if thick {
                DrawCall::DrawLineEx
            } else {
                DrawCall::DrawLineV
            },
            Shape2DKind::LineStrip => DrawCall::DrawLineStrip,
            Shape2DKind::Bezier => DrawCall::DrawLineBezier,
            Shape2DKind::Circle => DrawCall::DrawCircleV,
            Shape2DKind::Pie => DrawCall::DrawCircleSector,
            Shape2DKind::Ellipse => DrawCall::DrawEllipse,
            Shape2DKind::Ring => DrawCall::DrawRing,
            Shape2DKind::Rectangle { rotated } => if rotated {
                DrawCall::DrawRectanglePro
            } else {
                DrawCall::DrawRectangleRec
            },
            Shape2DKind::RoundedRectangle => DrawCall::DrawRectangleRounded,
            Shape2DKind::Triangle => DrawCall::DrawTriangle,
            Shape2DKind::TriangleFan => DrawCall::DrawTriangleFan,
            Shape2DKind::TriangleStrip => DrawCall::DrawTriangleStrip,
            Shape2DKind::Polygon => DrawCall::DrawPoly,
            Shape2DKind::Spline(t) => t.spec_draw(),
        }
    }

    /// The native function that outlines `shape` on the screen, for the
    /// shapes that the screen outlines.
    pub open spec fn screen_lines(shape: Shape2DKind) -> DrawCall {
        match shape {
            Shape2DKind::Circle => DrawCall::DrawCircleLinesV,
            Shape2DKind::Pie => DrawCall::DrawCircleSectorLines,
            Shape2DKind::Ellipse => DrawCall::DrawEllipseLines,
            Shape2DKind::Ring => DrawCall::DrawRingLines,
            Shape2DKind::Rectangle { .. } => DrawCall::DrawRectangleLinesEx,
            Shape2DKind::RoundedRectangle => DrawCall::DrawRectangleRoundedLinesEx,
            Shape2DKind::Triangle => DrawCall::DrawTriangleLines,
            Shape2DKind::Polygon => DrawCall::DrawPolyLinesEx,
            _ => Self::screen_fill(shape),
        }
    }

    /// The native function that fills `shape` on an image, for the
    /// shapes that an image fills. A pixel goes through the screen's own
    /// function.
    pub open spec fn image_fill(shape: Shape2DKind) -> DrawCall {
        match shape {
            Shape2DKind::Line { thick } => if thick {
                DrawCall::ImageDrawLineEx
            } else {
                DrawCall::ImageDrawLineV
            },
            Shape2DKind::LineStrip => DrawCall::ImageDrawLineStrip,
            Shape2DKind::Circle => DrawCall::ImageDrawCircleV,
            Shape2DKind::Rectangle { .. } => DrawCall::ImageDrawRectangleRec,
            Shape2DKind::Triangle => DrawCall::ImageDrawTriangle,
            Shape2DKind::TriangleFan => DrawCall::ImageDrawTriangleFan,
            Shape2DKind::TriangleStrip => DrawCall::ImageDrawTriangleStrip,
            _ => DrawCall::DrawPixel,
        }
    }

    /// The native function that outlines `shape` on an image, for the
    /// shapes that an image outlines. A triangle goes through the
    /// screen's own function.
    pub open spec fn image_lines(shape: Shape2DKind) -> DrawCall {
        match shape {
            Shape2DKind::Line { thick } => if thick {
                DrawCall::ImageDrawLineEx
            } else {
                DrawCall::ImageDrawLineV
            },
            Shape2DKind::LineStrip => DrawCall::ImageDrawLineStrip,
            Shape2DKind::Circle => DrawCall::ImageDrawCircleLinesV,
            Shape2DKind::Rectangle { .. } => DrawCall::ImageDrawRectangleLines,
            Shape2DKind::Triangle => DrawCall::DrawTriangleLines,
            _ => DrawCall::ImageDrawPixel,
        }
    }

    /// The native function that draws `shape` in `style` on the surface,
    /// where the surface supports it.
    pub open spec fn call(self, style: Style, shape: Shape2DKind) -> DrawCall {
        match (self, style) {
            (Surface::Screen, Style::Fill) => Self::screen_fill(shape),
            (Surface::Screen, Style::Lines) => Self::screen_lines(shape),
            (Surface::Image, Style::Fill) => Self::image_fill(shape),
            (Surface::Image, Style::Lines) => Self::image_lines(shape),
            (_, Style::GradientH) => if shape == Shape2DKind::Circle {
                DrawCall::DrawCircleGradient
            } else {
                DrawCall::DrawRectangleGradientH
            },
            (_, Style::GradientV) => if shape == Shape2DKind::Circle {
                DrawCall::DrawCircleGradient
            } else {
                DrawCall::DrawRectangleGradientV
            },
        }
    }

    /// What drawing `shape` in `style` on the surface comes to: the
    /// native function to call, or the refusal.
    pub open spec fn drawn(self, style: Style, shape: Shape2DKind, r: Result<DrawCall, Error>) -> bool {
        if self.supports(style, shape) {
            r == Ok::<DrawCall, Error>(self.call(style, shape))
        } else {
            r is Err && r->Err_0.is_not_supported(
                style.spec_verb(),
                self.refused_noun(style, shape),
            )
        }
    }
}

impl Surface {
    /// Fills `shape` on the surface: the native function that does so,
    /// or the refusal where the surface has none.
    pub fn draw_shape(self, shape: Shape2DKind) -> (r: Result<DrawCall, Error>)
        ensures
            self.drawn(Style::Fill, shape, r),
    {
        match self {
            Surface::Screen => Ok(
                match shape {
                    Shape2DKind::Pixel => DrawCall::DrawPixel,
                    Shape2DKind::Line { thick: true } => DrawCall::DrawLineEx,
                    Shape2DKind::Line { thick: false } => DrawCall::DrawLineV,
                    Shape2DKind::LineStrip => DrawCall::DrawLineStrip,
                    Shape2DKind::Bezier => DrawCall::DrawLineBezier,
                    Shape2DKind::Circle => DrawCall::DrawCircleV,
                    Shape2DKind::Pie => DrawCall::DrawCircleSector,
                    Shape2DKind::Ellipse => DrawCall::DrawEllipse,
                    Shape2DKind::Ring => DrawCall::DrawRing,
                    Shape2DKind::Rectangle { rotated: true } => DrawCall::DrawRectanglePro,
                    Shape2DKind::Rectangle { rotated: false } => DrawCall::DrawRectangleRec,
                    Shape2DKind::RoundedRectangle => DrawCall::DrawRectangleRounded,
                    Shape2DKind::Triangle => DrawCall::DrawTriangle,
                    Shape2DKind::TriangleFan => DrawCall::DrawTriangleFan,
                    Shape2DKind::TriangleStrip => DrawCall::DrawTriangleStrip,
                    Shape2DKind::Polygon => DrawCall::DrawPoly,
                    Shape2DKind::Spline(spline) => spline.draw(),
                },
            ),
            Surface::Image => match shape {
                Shape2DKind::Pixel => Ok(DrawCall::DrawPixel),
                Shape2DKind::Line { thick: true } => Ok(DrawCall::ImageDrawLineEx),
                Shape2DKind::Line { thick: false } => Ok(DrawCall::ImageDrawLineV),
                Shape2DKind::LineStrip => Ok(DrawCall::ImageDrawLineStrip),
                Shape2DKind::Circle => Ok(DrawCall::ImageDrawCircleV),
                Shape2DKind::Rectangle { rotated: false } => Ok(DrawCall::ImageDrawRectangleRec),
                Shape2DKind::Triangle => Ok(DrawCall::ImageDrawTriangle),
                Shape2DKind::TriangleFan => Ok(DrawCall::ImageDrawTriangleFan),
                Shape2DKind::TriangleStrip => Ok(DrawCall::ImageDrawTriangleStrip),
                other => Err(
                    Error::OperationNotSupported { verb: Style::Fill.verb(), noun: other.noun() },
                ),
            },
        }
    }

    /// Outlines `shape` on the surface: the native function that does
    /// so, or the refusal where the surface has none.
    pub fn draw_lines(self, shape: Shape2DKind) -> (r: Result<DrawCall, Error>)
        ensures
            self.drawn(Style::Lines, shape, r),
    {
        match self {
            Surface::Screen => match shape {
                Shape2DKind::Pixel => Ok(DrawCall::DrawPixel),
                Shape2DKind::Line { thick: true } => Ok(DrawCall::DrawLineEx),
                Shape2DKind::Line { thick: false } => Ok(DrawCall::DrawLineV),
                Shape2DKind::LineStrip => Ok(DrawCall::DrawLineStrip),
                Shape2DKind::Bezier => Ok(DrawCall::DrawLineBezier),
                Shape2DKind::Circle => Ok(DrawCall::DrawCircleLinesV),
                Shape2DKind::Pie => Ok(DrawCall::DrawCircleSectorLines),
                Shape2DKind::Ellipse => Ok(DrawCall::DrawEllipseLines),
                Shape2DKind::Ring => Ok(DrawCall::DrawRingLines),
                Shape2DKind::Rectangle { rotated: false } => Ok(DrawCall::DrawRectangleLinesEx),
                Shape2DKind::RoundedRectangle => Ok(DrawCall::DrawRectangleRoundedLinesEx),
                Shape2DKind::Triangle => Ok(DrawCall::DrawTriangleLines),
                Shape2DKind::Polygon => Ok(DrawCall::DrawPolyLinesEx),
                Shape2DKind::Spline(spline) => Ok(spline.draw()),
                other => Err(
                    Error::OperationNotSupported { verb: Style::Lines.verb(), noun: other.noun() },
                ),
            },
            Surface::Image => match shape {
                Shape2DKind::Pixel => Ok(DrawCall::ImageDrawPixel),
                Shape2DKind::Line { thick: true } => Ok(DrawCall::ImageDrawLineEx),
                Shape2DKind::Line { thick: false } => Ok(DrawCall::ImageDrawLineV),
                Shape2DKind::LineStrip => Ok(DrawCall::ImageDrawLineStrip),
                Shape2DKind::Circle => Ok(DrawCall::ImageDrawCircleLinesV),
                Shape2DKind::Rectangle { rotated: false } => Ok(DrawCall::ImageDrawRectangleLines),
                Shape2DKind::Triangle => Ok(DrawCall::DrawTriangleLines),
                other => Err(
                    Error::OperationNotSupported { verb: Style::Lines.verb(), noun: other.noun() },
                ),
            },
        }
    }

    /// Fills `shape` with a gradient that runs from left to right. Only
    /// the screen does so, and only for a rectangle that is not turned
    /// and for a circle.
    pub fn draw_gradient_h(self, shape: Shape2DKind) -> (r: Result<DrawCall, Error>)
        ensures
            self.drawn(Style::GradientH, shape, r),
    {
        match self {
            Surface::Screen => match shape {
                Shape2DKind::Rectangle { rotated: true } => Err(
                    Error::OperationNotSupported {
                        verb: "gradient drawing",
                        noun: "rotated rectangles",
                    },
                ),
                Shape2DKind::Rectangle { rotated: false } => Ok(DrawCall::DrawRectangleGradientH),
                Shape2DKind::Circle => Ok(DrawCall::DrawCircleGradient),
                _ => Err(
                    Error::OperationNotSupported {
                        verb: "gradient drawing",
                        noun: "non-rectangle/non-circle shapes",
                    },
                ),
            },
            Surface::Image => Err(
                Error::OperationNotSupported {
                    verb: "gradient drawing",
                    noun: "horizontal gradients",
                },
            ),
        }
    }

    /// Fills `shape` with a gradient that runs from top to bottom. Only
    /// the screen does so, and only for a rectangle that is not turned
    /// and for a circle.
    pub fn draw_gradient_v(self, shape: Shape2DKind) -> (r: Result<DrawCall, Error>)
        ensures
            self.drawn(Style::GradientV, shape, r),
    {
        match self {
            Surface::Screen => match shape {
                Shape2DKind::Rectangle { rotated: true } => Err(
                    Error::OperationNotSupported {
                        verb: "gradient drawing",
                        noun: "rotated rectangles",
                    },
                ),
                Shape2DKind::Rectangle { rotated: false } => Ok(DrawCall::DrawRectangleGradientV),
                Shape2DKind::Circle => Ok(DrawCall::DrawCircleGradient),
                _ => Err(
                    Error::OperationNotSupported {
                        verb: "gradient drawing",
                        noun: "non-rectangle/non-circle shapes",
                    },
                ),
            },
            Surface::Image => Err(
                Error::OperationNotSupported { verb: "gradient drawing", noun: "vertical gradients" },
            ),
        }
    }
}

impl TextureDraw {
    /// The native function that draws a texture this way on the screen.
    pub open spec fn spec_call(self) -> DrawCall {
        match self {
            TextureDraw::Plain => DrawCall::DrawTextureV,
            TextureDraw::Scaled => DrawCall::DrawTextureEx,
            TextureDraw::Clipped => DrawCall::DrawTextureRec,
            TextureDraw::Rotated => DrawCall::DrawTexturePro,
            TextureDraw::NPatched => DrawCall::DrawTextureNPatch,
        }
    }

    /// What the refusal of an image names: textures for the plain way,
    /// the image itself for the others.
    pub open spec fn spec_refused_noun(self) -> Seq<char> {
        if self == TextureDraw::Plain {
            "textures"@
        } else {
            "images"@
        }
    }
}

impl Surface {
    /// Draws a texture: the screen's native function for the way asked
    /// for; an image draws no texture.
    pub fn draw_texture(self, how: TextureDraw) -> (r: Result<DrawCall, Error>)
        ensures
            self == Surface::Screen ==> r == Ok::<DrawCall, Error>(how.spec_call()),
            self == Surface::Image ==> r is Err && r->Err_0.is_not_supported(
                "texture drawing"@,
                how.spec_refused_noun(),
            ),
    {
        match self {
            Surface::Screen => Ok(
                match how {
                    TextureDraw::Plain => DrawCall::DrawTextureV,
                    TextureDraw::Scaled => DrawCall::DrawTextureEx,
                    TextureDraw::Clipped => DrawCall::DrawTextureRec,
                    TextureDraw::Rotated => DrawCall::DrawTexturePro,
                    TextureDraw::NPatched => DrawCall::DrawTextureNPatch,
                },
            ),
            Surface::Image => match how {
                TextureDraw::Plain => Err(
                    Error::OperationNotSupported { verb: "texture drawing", noun: "textures" },
                ),
                _ => Err(Error::OperationNotSupported { verb: "texture drawing", noun: "images" }),
            },
        }
    }

    /// Draws a turned text: the screen has a native function for it, an
    /// image has none.
    pub fn draw_text_rotated(self) -> (r: Result<DrawCall, Error>)
        ensures
            self == Surface::Screen ==> r == Ok::<DrawCall, Error>(DrawCall::DrawTextPro),
            self == Surface::Image ==> r is Err && r->Err_0.is_not_supported(
                "rotated text drawing"@,
                "images"@,
            ),
    {
        match self {
            Surface::Screen => Ok(DrawCall::DrawTextPro),
            Surface::Image => Err(
                Error::OperationNotSupported { verb: "rotated text drawing", noun: "images" },
            ),
        }
    }
}

impl Shape3DKind {
    /// The native function that draws the solid shape.
    pub open spec fn spec_solid(self) -> DrawCall {
        match self {
            Shape3DKind::Line => DrawCall::DrawLine3D,
            Shape3DKind::Circle => DrawCall::DrawCircle3D,
            Shape3DKind::Triangle => DrawCall::DrawTriangle3D,
            Shape3DKind::TriangleStrip => DrawCall::DrawTriangleStrip3D,
            Shape3DKind::Cube => DrawCall::DrawCubeV,
            Shape3DKind::Sphere => DrawCall::DrawSphere,
            Shape3DKind::Cylinder => DrawCall::DrawCylinderEx,
            Shape3DKind::Capsule => DrawCall::DrawCapsule,
            Shape3DKind::Plane => DrawCall::DrawPlane,
            Shape3DKind::Grid => DrawCall::DrawGrid,
            Shape3DKind::Ray => DrawCall::DrawRay,
        }
    }

    /// Whether the shape has a wireframe: the flat shapes have none.
    pub open spec fn has_wires(self) -> bool {
        !(self == Shape3DKind::Circle || self == Shape3DKind::Triangle || self
            == Shape3DKind::TriangleStrip || self == Shape3DKind::Plane)
    }

    /// The native function that draws the wireframe, for the shapes that
    /// have one. A line, a grid and a ray are drawn as they are.
    pub open spec fn spec_wires(self) -> DrawCall {
        match self {
            Shape3DKind::Cube => DrawCall::DrawCubeWiresV,
            Shape3DKind::Sphere => DrawCall::DrawSphereWires,
            Shape3DKind::Cylinder => DrawCall::DrawCylinderWiresEx,
            Shape3DKind::Capsule => DrawCall::DrawCapsuleWires,
            _ => self.spec_solid(),
        }
    }

    /// What an error calls shapes of this kind.
    pub open spec fn spec_noun(self) -> Seq<char> {
        match self {
            Shape3DKind::Line => "lines"@,
            Shape3DKind::Circle => "circles"@,
            Shape3DKind::Triangle => "triangles"@,
            Shape3DKind::TriangleStrip => "triangle strips"@,
            Shape3DKind::Cube => "cubes"@,
            Shape3DKind::Sphere => "spheres"@,
            Shape3DKind::Cylinder => "cylinders"@,
            Shape3DKind::Capsule => "capsules"@,
            Shape3DKind::Plane => "planes"@,
            Shape3DKind::Grid => "grids"@,
            Shape3DKind::Ray => "rays"@,
        }
    }

    /// Draws the solid shape: every kind has a native function.
    pub fn draw_shape(self) -> (r: Result<DrawCall, Error>)
        ensures
            r == Ok::<DrawCall, Error>(self.spec_solid()),
    {
        Ok(
            match self {
                Shape3DKind::Line => DrawCall::DrawLine3D,
                Shape3DKind::Circle => DrawCall::DrawCircle3D,
                Shape3DKind::Triangle => DrawCall::DrawTriangle3D,
                Shape3DKind::TriangleStrip => DrawCall::DrawTriangleStrip3D,
                Shape3DKind::Cube => DrawCall::DrawCubeV,
                Shape3DKind::Sphere => DrawCall::DrawSphere,
                Shape3DKind::Cylinder => DrawCall::DrawCylinderEx,
                Shape3DKind::Capsule => DrawCall::DrawCapsule,
                Shape3DKind::Plane => DrawCall::DrawPlane,
                Shape3DKind::Grid => DrawCall::DrawGrid,
                Shape3DKind::Ray => DrawCall::DrawRay,
            },
        )
    }

    /// Draws the wireframe of the shape, or refuses a shape that has
    /// none.
    pub fn draw_wires(self) -> (r: Result<DrawCall, Error>)
        ensures
            self.has_wires() ==> r == Ok::<DrawCall, Error>(self.spec_wires()),
            !self.has_wires() ==> r is Err && r->Err_0.is_not_supported(
                "wireframe drawing"@,
                self.spec_noun(),
            ),
    {
        match self {
            Shape3DKind::Line => Ok(DrawCall::DrawLine3D),
            Shape3DKind::Cube => Ok(DrawCall::DrawCubeWiresV),
            Shape3DKind::Sphere => Ok(DrawCall::DrawSphereWires),
            Shape3DKind::Cylinder => Ok(DrawCall::DrawCylinderWiresEx),
            Shape3DKind::Capsule => Ok(DrawCall::DrawCapsuleWires),
            Shape3DKind::Grid => Ok(DrawCall::DrawGrid),
            Shape3DKind::Ray => Ok(DrawCall::DrawRay),
            Shape3DKind::Circle => Err(
                Error::OperationNotSupported { verb: "wireframe drawing", noun: "circles" },
            ),
            Shape3DKind::Triangle => Err(
                Error::OperationNotSupported { verb: "wireframe drawing", noun: "triangles" },
            ),
            Shape3DKind::TriangleStrip => Err(
                Error::OperationNotSupported { verb: "wireframe drawing", noun: "triangle strips" },
            ),
            Shape3DKind::Plane => Err(
                Error::OperationNotSupported { verb: "wireframe drawing", noun: "planes" },
            ),
        }
    }
}

} // verus!
