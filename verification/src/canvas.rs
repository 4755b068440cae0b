//! The abstract canvas: path geometry, resolved paints, and the ordered
//! drawing calls the executor emits.
//!
//! The engine performs no drawing itself.  Executing a script produces a
//! list of [`CanvasCall`] values, the exact calls a rendering backend must
//! issue in order.  Geometry fields are IEEE-754 single-precision bit
//! patterns; stroke width, font size and miter limit carry the wire's
//! fixed-point values.

use vstd::prelude::*;

use crate::color::Color;
use crate::ops::{ClipMode, StrokeCap, StrokeJoin, TextAlign, TextBase};

verus! {

/// One segment or parametric sub-path of an in-progress path.
#[derive(Clone, Copy, Debug, PartialEq, Eq, Structural)]
pub enum PathElem {
    Move { x: u32, y: u32 },
    Line { x: u32, y: u32 },
    TangentArc { x1: u32, y1: u32, x2: u32, y2: u32, radius: u32 },
    Cubic { cp1x: u32, cp1y: u32, cp2x: u32, cp2y: u32, x: u32, y: u32 },
    Quadratic { cpx: u32, cpy: u32, x: u32, y: u32 },
    Close,
    Triangle { x0: u32, y0: u32, x1: u32, y1: u32, x2: u32, y2: u32 },
    Quad { x0: u32, y0: u32, x1: u32, y1: u32, x2: u32, y2: u32, x3: u32, y3: u32 },
    Rect { width: u32, height: u32 },
    RRect { width: u32, height: u32, radius: u32 },
    Sector { radius: u32, radians: u32 },
    Circle { radius: u32 },
    Ellipse { radius0: u32, radius1: u32 },
    Arc { cx: u32, cy: u32, radius: u32, start: u32, end: u32, dir: u32 },
}

/// A paint source defined by a gradient or an image instead of a flat color.
#[derive(Clone, Debug, PartialEq, Eq)]
pub enum Shader {
    Linear {
        start_x: u32,
        start_y: u32,
        end_x: u32,
        end_y: u32,
        start_color: Color,
        end_color: Color,
    },
    Radial {
        center_x: u32,
        center_y: u32,
        inner_radius: u32,
        outer_radius: u32,
        start_color: Color,
        end_color: Color,
    },
    Image { id: Vec<u8> },
    Stream { id: Vec<u8> },
}

/// The mathematical value of a [`Shader`].
pub enum ShaderV {
    Linear {
        start_x: u32,
        start_y: u32,
        end_x: u32,
        end_y: u32,
        start_color: Color,
        end_color: Color,
    },
    Radial {
        center_x: u32,
        center_y: u32,
        inner_radius: u32,
        outer_radius: u32,
        start_color: Color,
        end_color: Color,
    },
    Image { id: Seq<u8> },
    Stream { id: Seq<u8> },
}

impl View for Shader {
    type V = ShaderV;

    open spec fn view(&self) -> ShaderV {
        match self {
            Shader::Linear { start_x, start_y, end_x, end_y, start_color, end_color } =>
                ShaderV::Linear {
                    start_x: *start_x,
                    start_y: *start_y,
                    end_x: *end_x,
                    end_y: *end_y,
                    start_color: *start_color,
                    end_color: *end_color,
                },
            Shader::Radial {
                center_x,
                center_y,
                inner_radius,
                outer_radius,
                start_color,
                end_color,
            } => ShaderV::Radial {
                center_x: *center_x,
                center_y: *center_y,
                inner_radius: *inner_radius,
                outer_radius: *outer_radius,
                start_color: *start_color,
                end_color: *end_color,
            },
            Shader::Image { id } => ShaderV::Image { id: id@ },
            Shader::Stream { id } => ShaderV::Stream { id: id@ },
        }
    }
}

/// The mathematical value of an optional shader.
pub open spec fn shader_view(s: Option<Shader>) -> Option<ShaderV> {
    match s {
        Some(sh) => Some(sh@),
        None => None,
    }
}

/// Copies a byte string.
pub fn clone_bytes(v: &Vec<u8>) -> (r: Vec<u8>)
    ensures
        r@ == v@,
{
    vstd::slice::slice_to_vec(v.as_slice())
}

/// Copies an optional byte string.
pub fn clone_opt_bytes(v: &Option<Vec<u8>>) -> (r: Option<Vec<u8>>)
    ensures
        match (v, r) {
            (Some(a), Some(b)) => a@ == b@,
            (None, None) => true,
            _ => false,
        },
{
    match v {
        Some(bytes) => Some(clone_bytes(bytes)),
        None => None,
    }
}

/// Copies an optional in-progress path.
pub fn clone_path(v: &Option<Vec<PathElem>>) -> (r: Option<Vec<PathElem>>)
    ensures
        match (v, r) {
            (Some(a), Some(b)) => a@ == b@,
            (None, None) => true,
            _ => false,
        },
{
    match v {
        Some(elems) => Some(vstd::slice::slice_to_vec(elems.as_slice())),
        None => None,
    }
}

/// Copies an optional shader description.
pub fn clone_shader(v: &Option<Shader>) -> (r: Option<Shader>)
    ensures
        shader_view(r) == shader_view(*v),
{
    match v {
        None => None,
        Some(Shader::Linear { start_x, start_y, end_x, end_y, start_color, end_color }) => Some(
            Shader::Linear {
                start_x: *start_x,
                start_y: *start_y,
                end_x: *end_x,
                end_y: *end_y,
                start_color: *start_color,
                end_color: *end_color,
            },
        ),
        Some(
            Shader::Radial { center_x, center_y, inner_radius, outer_radius, start_color, end_color },
        ) => Some(
            Shader::Radial {
                center_x: *center_x,
                center_y: *center_y,
                inner_radius: *inner_radius,
                outer_radius: *outer_radius,
                start_color: *start_color,
                end_color: *end_color,
            },
        ),
        Some(Shader::Image { id }) => Some(Shader::Image { id: clone_bytes(id) }),
        Some(Shader::Stream { id }) => Some(Shader::Stream { id: clone_bytes(id) }),
    }
}

/// A fully resolved paint, as handed to one canvas draw call.
#[derive(Clone, Debug, PartialEq, Eq)]
pub enum Paint {
    /// Fill style: the color is opaque white when a shader is set, so the
    /// shader rather than a tint determines pixel color.
    Fill { color: Color, shader: Option<Shader> },
    /// Stroke style, with the full stroke geometry.
    Stroke {
        color: Color,
        shader: Option<Shader>,
        width: u16,
        cap: StrokeCap,
        join: StrokeJoin,
        miter_limit: u16,
    },
}

/// The mathematical value of a [`Paint`].
pub enum PaintV {
    Fill { color: Color, shader: Option<ShaderV> },
    Stroke {
        color: Color,
        shader: Option<ShaderV>,
        width: u16,
        cap: StrokeCap,
        join: StrokeJoin,
        miter_limit: u16,
    },
}

impl View for Paint {
    type V = PaintV;

    open spec fn view(&self) -> PaintV {
        match self {
            Paint::Fill { color, shader } => PaintV::Fill {
                color: *color,
                shader: match shader {
                    Some(sh) => Some(sh@),
                    None => None,
                },
            },
            Paint::Stroke { color, shader, width, cap, join, miter_limit } => PaintV::Stroke {
                color: *color,
                shader: match shader {
                    Some(sh) => Some(sh@),
                    None => None,
                },
                width: *width,
                cap: *cap,
                join: *join,
                miter_limit: *miter_limit,
            },
        }
    }
}

/// One call into the canvas, in the order the backend must issue them.
#[derive(Clone, Debug, PartialEq, Eq)]
pub enum CanvasCall {
    /// Clear the whole surface to a color.
    Clear { color: Color },
    /// Save the canvas transform and clip.
    Save,
    /// Restore the most recently saved transform and clip.
    Restore,
    /// Translate the coordinate frame.
    Translate { x: u32, y: u32 },
    /// Rotate the coordinate frame by an angle in radians.
    Rotate { radians: u32 },
    /// Scale the coordinate frame.
    Scale { x: u32, y: u32 },
    /// Concatenate a general 2x3 affine matrix onto the coordinate frame.
    Concat { a: u32, b: u32, c: u32, d: u32, e: u32, f: u32 },
    /// Intersect the clip region with an origin-anchored rectangle.
    ClipRect { width: u32, height: u32 },
    /// Combine the clip region with a path, in device space.
    ClipPath { path: Vec<PathElem>, mode: ClipMode },
    /// Draw a line segment.
    DrawLine { x0: u32, y0: u32, x1: u32, y1: u32, paint: Paint },
    /// Draw an origin-anchored rectangle.
    DrawRect { width: u32, height: u32, paint: Paint },
    /// Draw an origin-anchored rounded rectangle with one corner radius.
    DrawRRect { width: u32, height: u32, radius: u32, paint: Paint },
    /// Draw an origin-anchored rounded rectangle with four corner radii.
    DrawRRectV {
        width: u32,
        height: u32,
        ul_radius: u32,
        ur_radius: u32,
        lr_radius: u32,
        ll_radius: u32,
        paint: Paint,
    },
    /// Draw an origin-centered oval.
    DrawOval { radius0: u32, radius1: u32, paint: Paint },
    /// Draw an origin-centered circle.
    DrawCircle { radius: u32, paint: Paint },
    /// Draw an origin-centered arc spanning an angle in radians.
    DrawArc { radius: u32, radians: u32, paint: Paint },
    /// Draw a path.
    DrawPath { path: Vec<PathElem>, paint: Paint },
    /// Blit a cropped, scaled image with an opacity.
    DrawImageRect {
        image_id: Vec<u8>,
        sx: u32,
        sy: u32,
        sw: u32,
        sh: u32,
        dx: u32,
        dy: u32,
        dw: u32,
        dh: u32,
        alpha: u32,
    },
    /// Draw a text run with the given font (`None` means the built-in
    /// system font), quarter-unit size, alignment and baseline.
    DrawText {
        text: Vec<u8>,
        font_id: Option<Vec<u8>>,
        font_size: u16,
        align: TextAlign,
        base: TextBase,
        paint: Paint,
    },
}

/// The mathematical value of a [`CanvasCall`].
pub enum CallV {
    Clear { color: Color },
    Save,
    Restore,
    Translate { x: u32, y: u32 },
    Rotate { radians: u32 },
    Scale { x: u32, y: u32 },
    Concat { a: u32, b: u32, c: u32, d: u32, e: u32, f: u32 },
    ClipRect { width: u32, height: u32 },
    ClipPath { path: Seq<PathElem>, mode: ClipMode },
    DrawLine { x0: u32, y0: u32, x1: u32, y1: u32, paint: PaintV },
    DrawRect { width: u32, height: u32, paint: PaintV },
    DrawRRect { width: u32, height: u32, radius: u32, paint: PaintV },
    DrawRRectV {
        width: u32,
        height: u32,
        ul_radius: u32,
        ur_radius: u32,
        lr_radius: u32,
        ll_radius: u32,
        paint: PaintV,
    },
    DrawOval { radius0: u32, radius1: u32, paint: PaintV },
    DrawCircle { radius: u32, paint: PaintV },
    DrawArc { radius: u32, radians: u32, paint: PaintV },
    DrawPath { path: Seq<PathElem>, paint: PaintV },
    DrawImageRect {
        image_id: Seq<u8>,
        sx: u32,
        sy: u32,
        sw: u32,
        sh: u32,
        dx: u32,
        dy: u32,
        dw: u32,
        dh: u32,
        alpha: u32,
    },
    DrawText {
        text: Seq<u8>,
        font_id: Option<Seq<u8>>,
        font_size: u16,
        align: TextAlign,
        base: TextBase,
        paint: PaintV,
    },
}

impl View for CanvasCall {
    type V = CallV;

    open spec fn view(&self) -> CallV {
        match self {
            CanvasCall::Clear { color } => CallV::Clear { color: *color },
            CanvasCall::Save => CallV::Save,
            CanvasCall::Restore => CallV::Restore,
            CanvasCall::Translate { x, y } => CallV::Translate { x: *x, y: *y },
            CanvasCall::Rotate { radians } => CallV::Rotate { radians: *radians },
            CanvasCall::Scale { x, y } => CallV::Scale { x: *x, y: *y },
            CanvasCall::Concat { a, b, c, d, e, f } => CallV::Concat {
                a: *a, b: *b, c: *c, d: *d, e: *e, f: *f,
            },
            CanvasCall::ClipRect { width, height } => CallV::ClipRect {
                width: *width,
                height: *height,
            },
            CanvasCall::ClipPath { path, mode } => CallV::ClipPath { path: path@, mode: *mode },
            CanvasCall::DrawLine { x0, y0, x1, y1, paint } => CallV::DrawLine {
                x0: *x0, y0: *y0, x1: *x1, y1: *y1, paint: paint@,
            },
            CanvasCall::DrawRect { width, height, paint } => CallV::DrawRect {
                width: *width,
                height: *height,
                paint: paint@,
            },
            CanvasCall::DrawRRect { width, height, radius, paint } => CallV::DrawRRect {
                width: *width,
                height: *height,
                radius: *radius,
                paint: paint@,
            },
            CanvasCall::DrawRRectV {
                width,
                height,
                ul_radius,
                ur_radius,
                lr_radius,
                ll_radius,
                paint,
            } => CallV::DrawRRectV {
                width: *width,
                height: *height,
                ul_radius: *ul_radius,
                ur_radius: *ur_radius,
                lr_radius: *lr_radius,
                ll_radius: *ll_radius,
                paint: paint@,
            },
            CanvasCall::DrawOval { radius0, radius1, paint } => CallV::DrawOval {
                radius0: *radius0,
                radius1: *radius1,
                paint: paint@,
            },
            CanvasCall::DrawCircle { radius, paint } => CallV::DrawCircle {
                radius: *radius,
                paint: paint@,
            },
            CanvasCall::DrawArc { radius, radians, paint } => CallV::DrawArc {
                radius: *radius,
                radians: *radians,
                paint: paint@,
            },
            CanvasCall::DrawPath { path, paint } => CallV::DrawPath {
                path: path@,
                paint: paint@,
            },
            CanvasCall::DrawImageRect { image_id, sx, sy, sw, sh, dx, dy, dw, dh, alpha } =>
                CallV::DrawImageRect {
                    image_id: image_id@,
                    sx: *sx,
                    sy: *sy,
                    sw: *sw,
                    sh: *sh,
                    dx: *dx,
                    dy: *dy,
                    dw: *dw,
                    dh: *dh,
                    alpha: *alpha,
                },
            CanvasCall::DrawText { text, font_id, font_size, align, base, paint } =>
                CallV::DrawText {
                    text: text@,
                    font_id: match font_id {
                        Some(id) => Some(id@),
                        None => None,
                    },
                    font_size: *font_size,
                    align: *align,
                    base: *base,
                    paint: paint@,
                },
        }
    }
}

/// The mathematical value of an emitted call list.
pub open spec fn calls_view(s: Seq<CanvasCall>) -> Seq<CallV> {
    s.map_values(|c: CanvasCall| c@)
}

} // verus!
