use rraylib::error::Error;
use rraylib::physac::shape_of;
use rraylib::shapes::{
    strip_segments, DrawCall, Shape2DKind, Shape3DKind, SplineType, Surface, TextureDraw,
};

fn refused(r: Result<DrawCall, Error>) -> (&'static str, &'static str) {
    match r {
        Err(Error::OperationNotSupported { verb, noun }) => (verb, noun),
        other => panic!("expected a refusal, got {:?}", other),
    }
}

#[test]
fn screen_fills_every_shape() {
    let s = Surface::Screen;
    assert_eq!(s.draw_shape(Shape2DKind::Pixel).unwrap(), DrawCall::DrawPixel);
    assert_eq!(s.draw_shape(Shape2DKind::Line { thick: true }).unwrap(), DrawCall::DrawLineEx);
    assert_eq!(s.draw_shape(Shape2DKind::Line { thick: false }).unwrap(), DrawCall::DrawLineV);
    assert_eq!(s.draw_shape(Shape2DKind::LineStrip).unwrap(), DrawCall::DrawLineStrip);
    assert_eq!(s.draw_shape(Shape2DKind::Bezier).unwrap(), DrawCall::DrawLineBezier);
    assert_eq!(s.draw_shape(Shape2DKind::Circle).unwrap(), DrawCall::DrawCircleV);
    assert_eq!(s.draw_shape(Shape2DKind::Pie).unwrap(), DrawCall::DrawCircleSector);
    assert_eq!(s.draw_shape(Shape2DKind::Ellipse).unwrap(), DrawCall::DrawEllipse);
    assert_eq!(s.draw_shape(Shape2DKind::Ring).unwrap(), DrawCall::DrawRing);
    assert_eq!(
        s.draw_shape(Shape2DKind::Rectangle { rotated: true }).unwrap(),
        DrawCall::DrawRectanglePro
    );
    assert_eq!(
        s.draw_shape(Shape2DKind::Rectangle { rotated: false }).unwrap(),
        DrawCall::DrawRectangleRec
    );
    assert_eq!(s.draw_shape(Shape2DKind::RoundedRectangle).unwrap(), DrawCall::DrawRectangleRounded);
    assert_eq!(s.draw_shape(Shape2DKind::Triangle).unwrap(), DrawCall::DrawTriangle);
    assert_eq!(s.draw_shape(Shape2DKind::TriangleFan).unwrap(), DrawCall::DrawTriangleFan);
    assert_eq!(s.draw_shape(Shape2DKind::TriangleStrip).unwrap(), DrawCall::DrawTriangleStrip);
    assert_eq!(s.draw_shape(Shape2DKind::Polygon).unwrap(), DrawCall::DrawPoly);
    assert_eq!(
        s.draw_shape(Shape2DKind::Spline(SplineType::CatmullRom)).unwrap(),
        DrawCall::DrawSplineCatmullRom
    );
}

#[test]
fn spline_types_have_their_own_functions() {
    assert_eq!(SplineType::Linear.draw(), DrawCall::DrawSplineLinear);
    assert_eq!(SplineType::Basis.draw(), DrawCall::DrawSplineBasis);
    assert_eq!(SplineType::CatmullRom.draw(), DrawCall::DrawSplineCatmullRom);
    assert_eq!(SplineType::Quadratic.draw(), DrawCall::DrawSplineBezierQuadratic);
    assert_eq!(SplineType::Cubic.draw(), DrawCall::DrawSplineBezierCubic);
}

#[test]
fn image_fills_some_shapes_and_refuses_the_rest() {
    let s = Surface::Image;
    assert_eq!(s.draw_shape(Shape2DKind::Pixel).unwrap(), DrawCall::DrawPixel);
    assert_eq!(s.draw_shape(Shape2DKind::Line { thick: true }).unwrap(), DrawCall::ImageDrawLineEx);
    assert_eq!(s.draw_shape(Shape2DKind::Line { thick: false }).unwrap(), DrawCall::ImageDrawLineV);
    assert_eq!(s.draw_shape(Shape2DKind::LineStrip).unwrap(), DrawCall::ImageDrawLineStrip);
    assert_eq!(s.draw_shape(Shape2DKind::Circle).unwrap(), DrawCall::ImageDrawCircleV);
    assert_eq!(
        s.draw_shape(Shape2DKind::Rectangle { rotated: false }).unwrap(),
        DrawCall::ImageDrawRectangleRec
    );
    assert_eq!(s.draw_shape(Shape2DKind::Triangle).unwrap(), DrawCall::ImageDrawTriangle);
    assert_eq!(s.draw_shape(Shape2DKind::TriangleFan).unwrap(), DrawCall::ImageDrawTriangleFan);
    assert_eq!(s.draw_shape(Shape2DKind::TriangleStrip).unwrap(), DrawCall::ImageDrawTriangleStrip);
    let cases = [
        (Shape2DKind::Rectangle { rotated: true }, "rotated rectangles"),
        (Shape2DKind::Bezier, "bezier curves"),
        (Shape2DKind::Pie, "pie slices"),
        (Shape2DKind::Ellipse, "ellipses"),
        (Shape2DKind::Ring, "rings"),
        (Shape2DKind::RoundedRectangle, "rounded rectangles"),
        (Shape2DKind::Polygon, "polygons"),
        (Shape2DKind::Spline(SplineType::Linear), "splines"),
    ];
    for (shape, noun) in cases {
        assert_eq!(refused(s.draw_shape(shape)), ("shape drawing", noun));
    }
}

#[test]
fn screen_outlines_all_but_fans_strips_and_turned_rectangles() {
    let s = Surface::Screen;
    assert_eq!(s.draw_lines(Shape2DKind::Pixel).unwrap(), DrawCall::DrawPixel);
    assert_eq!(s.draw_lines(Shape2DKind::Line { thick: true }).unwrap(), DrawCall::DrawLineEx);
    assert_eq!(s.draw_lines(Shape2DKind::LineStrip).unwrap(), DrawCall::DrawLineStrip);
    assert_eq!(s.draw_lines(Shape2DKind::Bezier).unwrap(), DrawCall::DrawLineBezier);
    assert_eq!(s.draw_lines(Shape2DKind::Circle).unwrap(), DrawCall::DrawCircleLinesV);
    assert_eq!(s.draw_lines(Shape2DKind::Pie).unwrap(), DrawCall::DrawCircleSectorLines);
    assert_eq!(s.draw_lines(Shape2DKind::Ellipse).unwrap(), DrawCall::DrawEllipseLines);
    assert_eq!(s.draw_lines(Shape2DKind::Ring).unwrap(), DrawCall::DrawRingLines);
    assert_eq!(
        s.draw_lines(Shape2DKind::Rectangle { rotated: false }).unwrap(),
        DrawCall::DrawRectangleLinesEx
    );
    assert_eq!(
        s.draw_lines(Shape2DKind::RoundedRectangle).unwrap(),
        DrawCall::DrawRectangleRoundedLinesEx
    );
    assert_eq!(s.draw_lines(Shape2DKind::Triangle).unwrap(), DrawCall::DrawTriangleLines);
    assert_eq!(s.draw_lines(Shape2DKind::Polygon).unwrap(), DrawCall::DrawPolyLinesEx);
    assert_eq!(
        s.draw_lines(Shape2DKind::Spline(SplineType::Cubic)).unwrap(),
        DrawCall::DrawSplineBezierCubic
    );
    assert_eq!(
        refused(s.draw_lines(Shape2DKind::Rectangle { rotated: true })),
        ("line drawing", "rotated rectangles")
    );
    assert_eq!(refused(s.draw_lines(Shape2DKind::TriangleFan)), ("line drawing", "triangle fans"));
    assert_eq!(
        refused(s.draw_lines(Shape2DKind::TriangleStrip)),
        ("line drawing", "triangle strips")
    );
}

#[test]
fn image_outlines_few_shapes() {
    let s = Surface::Image;
    assert_eq!(s.draw_lines(Shape2DKind::Pixel).unwrap(), DrawCall::ImageDrawPixel);
    assert_eq!(s.draw_lines(Shape2DKind::Line { thick: false }).unwrap(), DrawCall::ImageDrawLineV);
    assert_eq!(s.draw_lines(Shape2DKind::LineStrip).unwrap(), DrawCall::ImageDrawLineStrip);
    assert_eq!(s.draw_lines(Shape2DKind::Circle).unwrap(), DrawCall::ImageDrawCircleLinesV);
    assert_eq!(
        s.draw_lines(Shape2DKind::Rectangle { rotated: false }).unwrap(),
        DrawCall::ImageDrawRectangleLines
    );
    assert_eq!(s.draw_lines(Shape2DKind::Triangle).unwrap(), DrawCall::DrawTriangleLines);
    let cases = [
        (Shape2DKind::Rectangle { rotated: true }, "rotated rectangles"),
        (Shape2DKind::TriangleFan, "triangle fans"),
        (Shape2DKind::TriangleStrip, "triangle strips"),
        (Shape2DKind::Bezier, "bezier curves"),
        (Shape2DKind::Pie, "pie slices"),
        (Shape2DKind::Ellipse, "ellipses"),
        (Shape2DKind::Ring, "rings"),
        (Shape2DKind::RoundedRectangle, "rounded rectangles"),
        (Shape2DKind::Polygon, "polygons"),
        (Shape2DKind::Spline(SplineType::Basis), "splines"),
    ];
    for (shape, noun) in cases {
        assert_eq!(refused(s.draw_lines(shape)), ("line drawing", noun));
    }
}

#[test]
fn gradients_fill_rectangles_and_circles_on_the_screen_only() {
    let s = Surface::Screen;
    assert_eq!(
        s.draw_gradient_h(Shape2DKind::Rectangle { rotated: false }).unwrap(),
        DrawCall::DrawRectangleGradientH
    );
    assert_eq!(
        s.draw_gradient_v(Shape2DKind::Rectangle { rotated: false }).unwrap(),
        DrawCall::DrawRectangleGradientV
    );
    assert_eq!(s.draw_gradient_h(Shape2DKind::Circle).unwrap(), DrawCall::DrawCircleGradient);
    assert_eq!(s.draw_gradient_v(Shape2DKind::Circle).unwrap(), DrawCall::DrawCircleGradient);
    assert_eq!(
        refused(s.draw_gradient_h(Shape2DKind::Rectangle { rotated: true })),
        ("gradient drawing", "rotated rectangles")
    );
    assert_eq!(
        refused(s.draw_gradient_v(Shape2DKind::Rectangle { rotated: true })),
        ("gradient drawing", "rotated rectangles")
    );
    assert_eq!(
        refused(s.draw_gradient_h(Shape2DKind::Triangle)),
        ("gradient drawing", "non-rectangle/non-circle shapes")
    );
    assert_eq!(
        refused(s.draw_gradient_v(Shape2DKind::Pixel)),
        ("gradient drawing", "non-rectangle/non-circle shapes")
    );
    let image = Surface::Image;
    assert_eq!(
        refused(image.draw_gradient_h(Shape2DKind::Rectangle { rotated: false })),
        ("gradient drawing", "horizontal gradients")
    );
    assert_eq!(
        refused(image.draw_gradient_v(Shape2DKind::Circle)),
        ("gradient drawing", "vertical gradients")
    );
}

#[test]
fn textures_and_turned_text_go_to_the_screen_only() {
    let s = Surface::Screen;
    assert_eq!(s.draw_texture(TextureDraw::Plain).unwrap(), DrawCall::DrawTextureV);
    assert_eq!(s.draw_texture(TextureDraw::Scaled).unwrap(), DrawCall::DrawTextureEx);
    assert_eq!(s.draw_texture(TextureDraw::Clipped).unwrap(), DrawCall::DrawTextureRec);
    assert_eq!(s.draw_texture(TextureDraw::Rotated).unwrap(), DrawCall::DrawTexturePro);
    assert_eq!(s.draw_texture(TextureDraw::NPatched).unwrap(), DrawCall::DrawTextureNPatch);
    assert_eq!(s.draw_text_rotated().unwrap(), DrawCall::DrawTextPro);
    let image = Surface::Image;
    assert_eq!(refused(image.draw_texture(TextureDraw::Plain)), ("texture drawing", "textures"));
    for how in [
        TextureDraw::Scaled,
        TextureDraw::Clipped,
        TextureDraw::Rotated,
        TextureDraw::NPatched,
    ] {
        assert_eq!(refused(image.draw_texture(how)), ("texture drawing", "images"));
    }
    assert_eq!(refused(image.draw_text_rotated()), ("rotated text drawing", "images"));
}

#[test]
fn solids_are_all_drawn_and_flat_shapes_have_no_wires() {
    assert_eq!(Shape3DKind::Line.draw_shape().unwrap(), DrawCall::DrawLine3D);
    assert_eq!(Shape3DKind::Circle.draw_shape().unwrap(), DrawCall::DrawCircle3D);
    assert_eq!(Shape3DKind::Triangle.draw_shape().unwrap(), DrawCall::DrawTriangle3D);
    assert_eq!(Shape3DKind::TriangleStrip.draw_shape().unwrap(), DrawCall::DrawTriangleStrip3D);
    assert_eq!(Shape3DKind::Cube.draw_shape().unwrap(), DrawCall::DrawCubeV);
    assert_eq!(Shape3DKind::Sphere.draw_shape().unwrap(), DrawCall::DrawSphere);
    assert_eq!(Shape3DKind::Cylinder.draw_shape().unwrap(), DrawCall::DrawCylinderEx);
    assert_eq!(Shape3DKind::Capsule.draw_shape().unwrap(), DrawCall::DrawCapsule);
    assert_eq!(Shape3DKind::Plane.draw_shape().unwrap(), DrawCall::DrawPlane);
    assert_eq!(Shape3DKind::Grid.draw_shape().unwrap(), DrawCall::DrawGrid);
    assert_eq!(Shape3DKind::Ray.draw_shape().unwrap(), DrawCall::DrawRay);
    assert_eq!(Shape3DKind::Line.draw_wires().unwrap(), DrawCall::DrawLine3D);
    assert_eq!(Shape3DKind::Cube.draw_wires().unwrap(), DrawCall::DrawCubeWiresV);
    assert_eq!(Shape3DKind::Sphere.draw_wires().unwrap(), DrawCall::DrawSphereWires);
    assert_eq!(Shape3DKind::Cylinder.draw_wires().unwrap(), DrawCall::DrawCylinderWiresEx);
    assert_eq!(Shape3DKind::Capsule.draw_wires().unwrap(), DrawCall::DrawCapsuleWires);
    assert_eq!(Shape3DKind::Grid.draw_wires().unwrap(), DrawCall::DrawGrid);
    assert_eq!(Shape3DKind::Ray.draw_wires().unwrap(), DrawCall::DrawRay);
    assert_eq!(refused(Shape3DKind::Circle.draw_wires()), ("wireframe drawing", "circles"));
    assert_eq!(refused(Shape3DKind::Triangle.draw_wires()), ("wireframe drawing", "triangles"));
    assert_eq!(
        refused(Shape3DKind::TriangleStrip.draw_wires()),
        ("wireframe drawing", "triangle strips")
    );
    assert_eq!(refused(Shape3DKind::Plane.draw_wires()), ("wireframe drawing", "planes"));
}

#[test]
fn physics_bodies_are_drawn_by_their_vertex_count() {
    assert_eq!(shape_of(0), None);
    assert_eq!(shape_of(1), Some(Shape2DKind::Pixel));
    assert_eq!(shape_of(2), Some(Shape2DKind::Line { thick: false }));
    assert_eq!(shape_of(3), Some(Shape2DKind::Triangle));
    assert_eq!(shape_of(4), Some(Shape2DKind::Rectangle { rotated: false }));
    assert_eq!(shape_of(5), Some(Shape2DKind::Polygon));
    assert_eq!(shape_of(24), Some(Shape2DKind::Polygon));
}

#[test]
fn strip_has_one_line_less_than_points() {
    assert_eq!(strip_segments(0), 0);
    assert_eq!(strip_segments(1), 0);
    assert_eq!(strip_segments(2), 1);
    assert_eq!(strip_segments(3), 2);
    assert_eq!(strip_segments(usize::MAX), usize::MAX - 1);
}

#[test]
fn lines_of_a_strip_stay_inside_it() {
    for points in 0..6usize {
        let lines: Vec<(usize, usize)> = (0..strip_segments(points)).map(|i| (i, i + 1)).collect();
        assert!(lines.iter().all(|(from, to)| *from < points && *to < points));
        if points == 3 {
            assert_eq!(lines, vec![(0, 1), (1, 2)]);
        }
        if points <= 1 {
            assert!(lines.is_empty());
        }
    }
}
