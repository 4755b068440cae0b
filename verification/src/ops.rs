//! Typed drawing operations, the decoder's output and the executor's input.
//!
//! One variant per opcode category.  Geometry fields hold the raw bits of the
//! 4-byte big-endian IEEE-754 single-precision wire values; stroke width and
//! font size hold the 2-byte quarter-unit fixed-point wire value (four times
//! the intended value); the miter limit holds the 2-byte integer wire value.
//! String and identifier payloads hold the raw payload bytes.

use vstd::prelude::*;

use crate::color::Color;

verus! {

/// Horizontal text alignment relative to the draw position.
#[derive(Clone, Copy, Debug, PartialEq, Eq, Structural)]
pub enum TextAlign {
    Left,
    Center,
    Right,
}

/// Vertical text baseline relative to the draw position.
#[derive(Clone, Copy, Debug, PartialEq, Eq, Structural)]
pub enum TextBase {
    Top,
    Middle,
    Alphabetic,
    Bottom,
}

/// Stroke end-cap geometry.
#[derive(Clone, Copy, Debug, PartialEq, Eq, Structural)]
pub enum StrokeCap {
    Butt,
    Round,
    Square,
}

/// Stroke corner-join geometry.
#[derive(Clone, Copy, Debug, PartialEq, Eq, Structural)]
pub enum StrokeJoin {
    Bevel,
    Round,
    Miter,
}

/// How a path-based clip combines with the current clip region.
#[derive(Clone, Copy, Debug, PartialEq, Eq, Structural)]
pub enum ClipMode {
    Intersect,
    Difference,
}

/// One sprite-blit record: source rectangle, destination rectangle and
/// opacity, all as IEEE-754 single-precision bit patterns.
#[derive(Clone, Copy, Debug, PartialEq, Eq, Structural)]
pub struct SpriteCommand {
    pub sx: u32,
    pub sy: u32,
    pub sw: u32,
    pub sh: u32,
    pub dx: u32,
    pub dy: u32,
    pub dw: u32,
    pub dh: u32,
    pub alpha: u32,
}

/// One decoded drawing/state instruction.
#[derive(Clone, Debug, PartialEq, Eq)]
pub enum ScriptOp {
    PushState,
    PopState,
    PopPushState,
    Translate(u32, u32),
    Rotate(u32),
    Scale(u32, u32),
    Transform { a: u32, b: u32, c: u32, d: u32, e: u32, f: u32 },
    FillColor(Color),
    StrokeColor(Color),
    StrokeWidth(u16),
    FillLinear {
        start_x: u32,
        start_y: u32,
        end_x: u32,
        end_y: u32,
        start_color: Color,
        end_color: Color,
    },
    FillRadial {
        center_x: u32,
        center_y: u32,
        inner_radius: u32,
        outer_radius: u32,
        start_color: Color,
        end_color: Color,
    },
    StrokeLinear {
        start_x: u32,
        start_y: u32,
        end_x: u32,
        end_y: u32,
        start_color: Color,
        end_color: Color,
    },
    StrokeRadial {
        center_x: u32,
        center_y: u32,
        inner_radius: u32,
        outer_radius: u32,
        start_color: Color,
        end_color: Color,
    },
    FillImage(Vec<u8>),
    FillStream(Vec<u8>),
    StrokeImage(Vec<u8>),
    StrokeStream(Vec<u8>),
    StrokeCap(StrokeCap),
    StrokeJoin(StrokeJoin),
    StrokeMiterLimit(u16),
    ClipPath(ClipMode),
    Scissor { width: u32, height: u32 },
    BeginPath,
    ClosePath,
    FillPath,
    StrokePath,
    MoveTo { x: u32, y: u32 },
    LineTo { x: u32, y: u32 },
    ArcTo { x1: u32, y1: u32, x2: u32, y2: u32, radius: u32 },
    BezierTo { cp1x: u32, cp1y: u32, cp2x: u32, cp2y: u32, x: u32, y: u32 },
    QuadraticTo { cpx: u32, cpy: u32, x: u32, y: u32 },
    PathTriangle { x0: u32, y0: u32, x1: u32, y1: u32, x2: u32, y2: u32 },
    PathQuad {
        x0: u32,
        y0: u32,
        x1: u32,
        y1: u32,
        x2: u32,
        y2: u32,
        x3: u32,
        y3: u32,
    },
    PathRect { width: u32, height: u32 },
    PathRRect { width: u32, height: u32, radius: u32 },
    PathSector { radius: u32, radians: u32 },
    PathCircle { radius: u32 },
    PathEllipse { radius0: u32, radius1: u32 },
    PathArc { cx: u32, cy: u32, radius: u32, start: u32, end: u32, dir: u32 },
    DrawLine { x0: u32, y0: u32, x1: u32, y1: u32, flag: u16 },
    DrawTriangle { x0: u32, y0: u32, x1: u32, y1: u32, x2: u32, y2: u32, flag: u16 },
    DrawQuad {
        x0: u32,
        y0: u32,
        x1: u32,
        y1: u32,
        x2: u32,
        y2: u32,
        x3: u32,
        y3: u32,
        flag: u16,
    },
    DrawCircle { radius: u32, flag: u16 },
    DrawEllipse { radius0: u32, radius1: u32, flag: u16 },
    DrawArc { radius: u32, radians: u32, flag: u16 },
    DrawSector { radius: u32, radians: u32, flag: u16 },
    DrawRect { width: u32, height: u32, flag: u16 },
    DrawRRect { width: u32, height: u32, radius: u32, flag: u16 },
    DrawRRectV {
        width: u32,
        height: u32,
        ul_radius: u32,
        ur_radius: u32,
        lr_radius: u32,
        ll_radius: u32,
        flag: u16,
    },
    DrawSprites { image_id: Vec<u8>, cmds: Vec<SpriteCommand> },
    DrawText(Vec<u8>),
    Font(Vec<u8>),
    FontSize(u16),
    TextAlign(TextAlign),
    TextBase(TextBase),
    DrawScript(Vec<u8>),
}

/// The mathematical value of a [`ScriptOp`]: identical shape, with byte
/// sequences in place of byte vectors.
pub enum OpV {
    PushState,
    PopState,
    PopPushState,
    Translate(u32, u32),
    Rotate(u32),
    Scale(u32, u32),
    Transform { a: u32, b: u32, c: u32, d: u32, e: u32, f: u32 },
    FillColor(Color),
    StrokeColor(Color),
    StrokeWidth(u16),
    FillLinear {
        start_x: u32,
        start_y: u32,
        end_x: u32,
        end_y: u32,
        start_color: Color,
        end_color: Color,
    },
    FillRadial {
        center_x: u32,
        center_y: u32,
        inner_radius: u32,
        outer_radius: u32,
        start_color: Color,
        end_color: Color,
    },
    StrokeLinear {
        start_x: u32,
        start_y: u32,
        end_x: u32,
        end_y: u32,
        start_color: Color,
        end_color: Color,
    },
    StrokeRadial {
        center_x: u32,
        center_y: u32,
        inner_radius: u32,
        outer_radius: u32,
        start_color: Color,
        end_color: Color,
    },
    FillImage(Seq<u8>),
    FillStream(Seq<u8>),
    StrokeImage(Seq<u8>),
    StrokeStream(Seq<u8>),
    StrokeCap(StrokeCap),
    StrokeJoin(StrokeJoin),
    StrokeMiterLimit(u16),
    ClipPath(ClipMode),
    Scissor { width: u32, height: u32 },
    BeginPath,
    ClosePath,
    FillPath,
    StrokePath,
    MoveTo { x: u32, y: u32 },
    LineTo { x: u32, y: u32 },
    ArcTo { x1: u32, y1: u32, x2: u32, y2: u32, radius: u32 },
    BezierTo { cp1x: u32, cp1y: u32, cp2x: u32, cp2y: u32, x: u32, y: u32 },
    QuadraticTo { cpx: u32, cpy: u32, x: u32, y: u32 },
    PathTriangle { x0: u32, y0: u32, x1: u32, y1: u32, x2: u32, y2: u32 },
    PathQuad {
        x0: u32,
        y0: u32,
        x1: u32,
        y1: u32,
        x2: u32,
        y2: u32,
        x3: u32,
        y3: u32,
    },
    PathRect { width: u32, height: u32 },
    PathRRect { width: u32, height: u32, radius: u32 },
    PathSector { radius: u32, radians: u32 },
    PathCircle { radius: u32 },
    PathEllipse { radius0: u32, radius1: u32 },
    PathArc { cx: u32, cy: u32, radius: u32, start: u32, end: u32, dir: u32 },
    DrawLine { x0: u32, y0: u32, x1: u32, y1: u32, flag: u16 },
    DrawTriangle { x0: u32, y0: u32, x1: u32, y1: u32, x2: u32, y2: u32, flag: u16 },
    DrawQuad {
        x0: u32,
        y0: u32,
        x1: u32,
        y1: u32,
        x2: u32,
        y2: u32,
        x3: u32,
        y3: u32,
        flag: u16,
    },
    DrawCircle { radius: u32, flag: u16 },
    DrawEllipse { radius0: u32, radius1: u32, flag: u16 },
    DrawArc { radius: u32, radians: u32, flag: u16 },
    DrawSector { radius: u32, radians: u32, flag: u16 },
    DrawRect { width: u32, height: u32, flag: u16 },
    DrawRRect { width: u32, height: u32, radius: u32, flag: u16 },
    DrawRRectV {
        width: u32,
        height: u32,
        ul_radius: u32,
        ur_radius: u32,
        lr_radius: u32,
        ll_radius: u32,
        flag: u16,
    },
    DrawSprites { image_id: Seq<u8>, cmds: Seq<SpriteCommand> },
    DrawText(Seq<u8>),
    Font(Seq<u8>),
    FontSize(u16),
    TextAlign(TextAlign),
    TextBase(TextBase),
    DrawScript(Seq<u8>),
}

impl View for ScriptOp {
    type V = OpV;

    open spec fn view(&self) -> OpV {
        match self {
            ScriptOp::PushState => OpV::PushState,
            ScriptOp::PopState => OpV::PopState,
            ScriptOp::PopPushState => OpV::PopPushState,
            ScriptOp::Translate(x, y) => OpV::Translate(*x, *y),
            ScriptOp::Rotate(radians) => OpV::Rotate(*radians),
            ScriptOp::Scale(x, y) => OpV::Scale(*x, *y),
            ScriptOp::Transform { a, b, c, d, e, f } => OpV::Transform {
                a: *a, b: *b, c: *c, d: *d, e: *e, f: *f,
            },
            ScriptOp::FillColor(c) => OpV::FillColor(*c),
            ScriptOp::StrokeColor(c) => OpV::StrokeColor(*c),
            ScriptOp::StrokeWidth(w) => OpV::StrokeWidth(*w),
            ScriptOp::FillLinear { start_x, start_y, end_x, end_y, start_color, end_color } =>
                OpV::FillLinear {
                    start_x: *start_x,
                    start_y: *start_y,
                    end_x: *end_x,
                    end_y: *end_y,
                    start_color: *start_color,
                    end_color: *end_color,
                },
            ScriptOp::FillRadial {
                center_x,
                center_y,
                inner_radius,
                outer_radius,
                start_color,
                end_color,
            } => OpV::FillRadial {
                center_x: *center_x,
                center_y: *center_y,
                inner_radius: *inner_radius,
                outer_radius: *outer_radius,
                start_color: *start_color,
                end_color: *end_color,
            },
            ScriptOp::StrokeLinear { start_x, start_y, end_x, end_y, start_color, end_color } =>
                OpV::StrokeLinear {
                    start_x: *start_x,
                    start_y: *start_y,
                    end_x: *end_x,
                    end_y: *end_y,
                    start_color: *start_color,
                    end_color: *end_color,
                },
            ScriptOp::StrokeRadial {
                center_x,
                center_y,
                inner_radius,
                outer_radius,
                start_color,
                end_color,
            } => OpV::StrokeRadial {
                center_x: *center_x,
                center_y: *center_y,
                inner_radius: *inner_radius,
                outer_radius: *outer_radius,
                start_color: *start_color,
                end_color: *end_color,
            },
            ScriptOp::FillImage(id) => OpV::FillImage(id@),
            ScriptOp::FillStream(id) => OpV::FillStream(id@),
            ScriptOp::StrokeImage(id) => OpV::StrokeImage(id@),
            ScriptOp::StrokeStream(id) => OpV::StrokeStream(id@),
            ScriptOp::StrokeCap(cap) => OpV::StrokeCap(*cap),
            ScriptOp::StrokeJoin(join) => OpV::StrokeJoin(*join),
            ScriptOp::StrokeMiterLimit(limit) => OpV::StrokeMiterLimit(*limit),
            ScriptOp::ClipPath(mode) => OpV::ClipPath(*mode),
            ScriptOp::Scissor { width, height } => OpV::Scissor {
                width: *width,
                height: *height,
            },
            ScriptOp::BeginPath => OpV::BeginPath,
            ScriptOp::ClosePath => OpV::ClosePath,
            ScriptOp::FillPath => OpV::FillPath,
            ScriptOp::StrokePath => OpV::StrokePath,
            ScriptOp::MoveTo { x, y } => OpV::MoveTo { x: *x, y: *y },
            ScriptOp::LineTo { x, y } => OpV::LineTo { x: *x, y: *y },
            ScriptOp::ArcTo { x1, y1, x2, y2, radius } => OpV::ArcTo {
                x1: *x1, y1: *y1, x2: *x2, y2: *y2, radius: *radius,
            },
            ScriptOp::BezierTo { cp1x, cp1y, cp2x, cp2y, x, y } => OpV::BezierTo {
                cp1x: *cp1x, cp1y: *cp1y, cp2x: *cp2x, cp2y: *cp2y, x: *x, y: *y,
            },
            ScriptOp::QuadraticTo { cpx, cpy, x, y } => OpV::QuadraticTo {
                cpx: *cpx, cpy: *cpy, x: *x, y: *y,
            },
            ScriptOp::PathTriangle { x0, y0, x1, y1, x2, y2 } => OpV::PathTriangle {
                x0: *x0, y0: *y0, x1: *x1, y1: *y1, x2: *x2, y2: *y2,
            },
            ScriptOp::PathQuad { x0, y0, x1, y1, x2, y2, x3, y3 } => OpV::PathQuad {
                x0: *x0, y0: *y0, x1: *x1, y1: *y1, x2: *x2, y2: *y2, x3: *x3, y3: *y3,
            },
            ScriptOp::PathRect { width, height } => OpV::PathRect {
                width: *width,
                height: *height,
            },
            ScriptOp::PathRRect { width, height, radius } => OpV::PathRRect {
                width: *width,
                height: *height,
                radius: *radius,
            },
            ScriptOp::PathSector { radius, radians } => OpV::PathSector {
                radius: *radius,
                radians: *radians,
            },
            ScriptOp::PathCircle { radius } => OpV::PathCircle { radius: *radius },
            ScriptOp::PathEllipse { radius0, radius1 } => OpV::PathEllipse {
                radius0: *radius0,
                radius1: *radius1,
            },
            ScriptOp::PathArc { cx, cy, radius, start, end, dir } => OpV::PathArc {
                cx: *cx, cy: *cy, radius: *radius, start: *start, end: *end, dir: *dir,
            },
            ScriptOp::DrawLine { x0, y0, x1, y1, flag } => OpV::DrawLine {
                x0: *x0, y0: *y0, x1: *x1, y1: *y1, flag: *flag,
            },
            ScriptOp::DrawTriangle { x0, y0, x1, y1, x2, y2, flag } => OpV::DrawTriangle {
                x0: *x0, y0: *y0, x1: *x1, y1: *y1, x2: *x2, y2: *y2, flag: *flag,
            },
            ScriptOp::DrawQuad { x0, y0, x1, y1, x2, y2, x3, y3, flag } => OpV::DrawQuad {
                x0: *x0,
                y0: *y0,
                x1: *x1,
                y1: *y1,
                x2: *x2,
                y2: *y2,
                x3: *x3,
                y3: *y3,
                flag: *flag,
            },
            ScriptOp::DrawCircle { radius, flag } => OpV::DrawCircle {
                radius: *radius,
                flag: *flag,
            },
            ScriptOp::DrawEllipse { radius0, radius1, flag } => OpV::DrawEllipse {
                radius0: *radius0,
                radius1: *radius1,
                flag: *flag,
            },
            ScriptOp::DrawArc { radius, radians, flag } => OpV::DrawArc {
                radius: *radius,
                radians: *radians,
                flag: *flag,
            },
            ScriptOp::DrawSector { radius, radians, flag } => OpV::DrawSector {
                radius: *radius,
                radians: *radians,
                flag: *flag,
            },
            ScriptOp::DrawRect { width, height, flag } => OpV::DrawRect {
                width: *width,
                height: *height,
                flag: *flag,
            },
            ScriptOp::DrawRRect { width, height, radius, flag } => OpV::DrawRRect {
                width: *width,
                height: *height,
                radius: *radius,
                flag: *flag,
            },
            ScriptOp::DrawRRectV {
                width,
                height,
                ul_radius,
                ur_radius,
                lr_radius,
                ll_radius,
                flag,
            } => OpV::DrawRRectV {
                width: *width,
                height: *height,
                ul_radius: *ul_radius,
                ur_radius: *ur_radius,
                lr_radius: *lr_radius,
                ll_radius: *ll_radius,
                flag: *flag,
            },
            ScriptOp::DrawSprites { image_id, cmds } => OpV::DrawSprites {
                image_id: image_id@,
                cmds: cmds@,
            },
            ScriptOp::DrawText(text) => OpV::DrawText(text@),
            ScriptOp::Font(id) => OpV::Font(id@),
            ScriptOp::FontSize(size) => OpV::FontSize(*size),
            ScriptOp::TextAlign(align) => OpV::TextAlign(*align),
            ScriptOp::TextBase(base) => OpV::TextBase(*base),
            ScriptOp::DrawScript(id) => OpV::DrawScript(id@),
        }
    }
}

/// The mathematical value of a decoded operation list.
pub open spec fn ops_view(s: Seq<ScriptOp>) -> Seq<OpV> {
    s.map_values(|op: ScriptOp| op@)
}

} // verus!
