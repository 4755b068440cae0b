//! The script executor: walks one script's operations in order, mutates the
//! graphics state, emits canvas calls, and recurses into referenced scripts
//! while guarding against reference cycles.
//!
//! Every function here is proved to produce exactly the state and call
//! trace that the specification in [`crate::render`] assigns to its input.

use vstd::prelude::*;
use vstd::slice::slice_to_vec;

use crate::canvas::{CanvasCall, PathElem, Shader, calls_view, clone_bytes};
use crate::color::Color;
use crate::ops::{ScriptOp, ops_view};
use crate::render::{
    fill_paint, lemma_remaining_shrinks, remaining, run_ops, run_script, spec_render, step_op,
    stroke_paint,
};
use crate::resources::ResourceCaches;
use crate::state::{DrawState, GfxV, cur_path};
use crate::store::{RenderState, bytes_eq};

verus! {

/// The mathematical value of the "currently executing" identifier stack.
pub open spec fn ids_view(s: Seq<Vec<u8>>) -> Seq<Seq<u8>> {
    s.map_values(|v: Vec<u8>| v@)
}

/// Whether an identifier is on the "currently executing" stack.
fn ids_contains(stack: &Vec<Vec<u8>>, id: &[u8]) -> (r: bool)
    ensures
        r == ids_view(stack@).contains(id@),
{
    let n = stack.len();
    let mut k: usize = 0;
    while k < n
        invariant
            k <= n,
            n == stack@.len(),
            forall|t: int| 0 <= t < k ==> stack@[t]@ != id@,
        decreases n - k,
    {
        if bytes_eq(stack[k].as_slice(), id) {
            proof {
                assert(ids_view(stack@)[k as int] == id@);
            }
            return true;
        }
        k += 1;
    }
    proof {
        assert forall|t: int| 0 <= t < ids_view(stack@).len() implies ids_view(stack@)[t]
            != id@ by {}
    }
    false
}

/// Appends one canvas call to the trace.
fn emit(out: &mut Vec<CanvasCall>, call: CanvasCall)
    ensures
        calls_view(final(out)@) == calls_view(old(out)@) + seq![call@],
{
    let ghost c = call@;
    out.push(call);
    proof {
        assert(calls_view(out@) =~= calls_view(old(out)@) + seq![c]);
    }
}

/// The resolved fill paint of the current state.
fn fill_paint_of(ds: &DrawState) -> (r: crate::canvas::Paint)
    ensures
        r@ == fill_paint(ds@),
{
    let shader = crate::canvas::clone_shader(&ds.fill_shader);
    let color = if shader.is_some() {
        Color::white()
    } else {
        ds.fill_color
    };
    crate::canvas::Paint::Fill { color, shader }
}

/// The resolved stroke paint of the current state.
fn stroke_paint_of(ds: &DrawState) -> (r: crate::canvas::Paint)
    ensures
        r@ == stroke_paint(ds@),
{
    let shader = crate::canvas::clone_shader(&ds.stroke_shader);
    let color = if shader.is_some() {
        Color::white()
    } else {
        ds.stroke_color
    };
    crate::canvas::Paint::Stroke {
        color,
        shader,
        width: ds.stroke_width,
        cap: ds.stroke_cap,
        join: ds.stroke_join,
        miter_limit: ds.stroke_miter_limit,
    }
}

/// Applies one state-stack, clip or transform operation.
#[verifier::rlimit(100)]
fn apply_state_op(
    op: &ScriptOp,
    caches: &ResourceCaches,
    ds: &mut DrawState,
    out: &mut Vec<CanvasCall>,
)
    requires
        0x40 <= crate::encode::op_tag(op@) <= 0x5F,
    ensures
        ({
            let sr = step_op(caches@, old(ds)@, op@);
            final(ds)@ == sr.0 && calls_view(final(out)@) == calls_view(old(out)@) + sr.1
        }),
{
    match op {
        ScriptOp::PushState => {
            emit(out, CanvasCall::Save);
            ds.push();
        },
        ScriptOp::PopState => {
            if ds.can_pop() {
                emit(out, CanvasCall::Restore);
                ds.pop();
            } else {
                proof {
                    assert(calls_view(out@) =~= calls_view(old(out)@) + Seq::<
                        crate::canvas::CallV,
                    >::empty());
                }
            }
        },
        ScriptOp::PopPushState => {
            if ds.can_pop() {
                emit(out, CanvasCall::Restore);
                emit(out, CanvasCall::Save);
                ds.pop_push();
                proof {
                    assert(calls_view(out@) =~= calls_view(old(out)@) + seq![
                        crate::canvas::CallV::Restore,
                        crate::canvas::CallV::Save,
                    ]);
                }
            } else {
                proof {
                    assert(calls_view(out@) =~= calls_view(old(out)@) + Seq::<
                        crate::canvas::CallV,
                    >::empty());
                }
            }
        },
        ScriptOp::Translate(x, y) => {
            emit(out, CanvasCall::Translate { x: *x, y: *y });
        },
        ScriptOp::Rotate(radians) => {
            emit(out, CanvasCall::Rotate { radians: *radians });
        },
        ScriptOp::Scale(x, y) => {
            emit(out, CanvasCall::Scale { x: *x, y: *y });
        },
        ScriptOp::Transform { a, b, c, d, e, f } => {
            emit(
                out,
                CanvasCall::Concat { a: *a, b: *b, c: *c, d: *d, e: *e, f: *f },
            );
        },
        ScriptOp::Scissor { width, height } => {
            emit(out, CanvasCall::ClipRect { width: *width, height: *height });
        },
        ScriptOp::ClipPath(mode) => {
            match &ds.path {
                Some(p) => {
                    let path = slice_to_vec(p.as_slice());
                    emit(out, CanvasCall::ClipPath { path, mode: *mode });
                },
                None => {
                    proof {
                        assert(calls_view(out@) =~= calls_view(old(out)@) + Seq::<
                            crate::canvas::CallV,
                        >::empty());
                    }
                },
            }
        },
        _ => {
            proof {
                assert(false);
            }
        },
    }
}

/// Applies one fill-paint or stroke-paint operation.
#[verifier::rlimit(100)]
fn apply_paint_op(
    op: &ScriptOp,
    caches: &ResourceCaches,
    ds: &mut DrawState,
    out: &mut Vec<CanvasCall>,
)
    requires
        0x60 <= crate::encode::op_tag(op@) <= 0x7F,
    ensures
        ({
            let sr = step_op(caches@, old(ds)@, op@);
            final(ds)@ == sr.0 && calls_view(final(out)@) == calls_view(old(out)@) + sr.1
        }),
{
    proof {
        assert(calls_view(out@) =~= calls_view(out@) + Seq::<crate::canvas::CallV>::empty());
    }
    match op {
        ScriptOp::FillColor(c) => {
            ds.fill_color = *c;
            ds.fill_shader = None;
        },
        ScriptOp::StrokeColor(c) => {
            ds.stroke_color = *c;
            ds.stroke_shader = None;
        },
        ScriptOp::StrokeWidth(w) => {
            ds.stroke_width = *w;
        },
        ScriptOp::FillLinear { start_x, start_y, end_x, end_y, start_color, end_color } => {
            ds.fill_color = *start_color;
            ds.fill_shader = Some(
                Shader::Linear {
                    start_x: *start_x,
                    start_y: *start_y,
                    end_x: *end_x,
                    end_y: *end_y,
                    start_color: *start_color,
                    end_color: *end_color,
                },
            );
        },
        ScriptOp::FillRadial {
            center_x,
            center_y,
            inner_radius,
            outer_radius,
            start_color,
            end_color,
        } => {
            ds.fill_color = *start_color;
            ds.fill_shader = Some(
                Shader::Radial {
                    center_x: *center_x,
                    center_y: *center_y,
                    inner_radius: *inner_radius,
                    outer_radius: *outer_radius,
                    start_color: *start_color,
                    end_color: *end_color,
                },
            );
        },
        ScriptOp::StrokeLinear { start_x, start_y, end_x, end_y, start_color, end_color } => {
            ds.stroke_color = *start_color;
            ds.stroke_shader = Some(
                Shader::Linear {
                    start_x: *start_x,
                    start_y: *start_y,
                    end_x: *end_x,
                    end_y: *end_y,
                    start_color: *start_color,
                    end_color: *end_color,
                },
            );
        },
        ScriptOp::StrokeRadial {
            center_x,
            center_y,
            inner_radius,
            outer_radius,
            start_color,
            end_color,
        } => {
            ds.stroke_color = *start_color;
            ds.stroke_shader = Some(
                Shader::Radial {
                    center_x: *center_x,
                    center_y: *center_y,
                    inner_radius: *inner_radius,
                    outer_radius: *outer_radius,
                    start_color: *start_color,
                    end_color: *end_color,
                },
            );
        },
        ScriptOp::FillImage(id) => {
            if caches.has_static_image(id.as_slice()) {
                ds.fill_shader = Some(Shader::Image { id: clone_bytes(id) });
                ds.fill_color = Color::white();
            } else {
                ds.fill_shader = None;
                ds.fill_color = Color::transparent();
            }
        },
        ScriptOp::FillStream(id) => {
            if caches.has_stream_image(id.as_slice()) {
                ds.fill_shader = Some(Shader::Stream { id: clone_bytes(id) });
                ds.fill_color = Color::white();
            } else {
                ds.fill_shader = None;
                ds.fill_color = Color::transparent();
            }
        },
        ScriptOp::StrokeImage(id) => {
            if caches.has_static_image(id.as_slice()) {
                ds.stroke_shader = Some(Shader::Image { id: clone_bytes(id) });
                ds.stroke_color = Color::white();
            } else {
                ds.stroke_shader = None;
                ds.stroke_color = Color::transparent();
            }
        },
        ScriptOp::StrokeStream(id) => {
            if caches.has_stream_image(id.as_slice()) {
                ds.stroke_shader = Some(Shader::Stream { id: clone_bytes(id) });
                ds.stroke_color = Color::white();
            } else {
                ds.stroke_shader = None;
                ds.stroke_color = Color::transparent();
            }
        },
        _ => {
            proof {
                assert(false);
            }
        },
    }
}

/// Applies one path-construction operation.
#[verifier::rlimit(100)]
fn apply_path_op(
    op: &ScriptOp,
    caches: &ResourceCaches,
    ds: &mut DrawState,
    out: &mut Vec<CanvasCall>,
)
    requires
        0x20 <= crate::encode::op_tag(op@) <= 0x3F,
    ensures
        ({
            let sr = step_op(caches@, old(ds)@, op@);
            final(ds)@ == sr.0 && calls_view(final(out)@) == calls_view(old(out)@) + sr.1
        }),
{
    proof {
        assert(calls_view(out@) =~= calls_view(out@) + Seq::<crate::canvas::CallV>::empty());
    }
    match op {
        ScriptOp::BeginPath => {
            ds.path = Some(Vec::new());
            proof {
                assert(ds@.path == Some(Seq::<PathElem>::empty()));
            }
        },
        ScriptOp::ClosePath => {
            match ds.path.take() {
                Some(mut p) => {
                    if p.len() > 0 {
                        p.push(PathElem::Close);
                    }
                    ds.path = Some(p);
                },
                None => {},
            }
        },
        ScriptOp::FillPath => {
            match &ds.path {
                Some(p) => {
                    let path = slice_to_vec(p.as_slice());
                    let paint = fill_paint_of(ds);
                    emit(out, CanvasCall::DrawPath { path, paint });
                },
                None => {},
            }
        },
        ScriptOp::StrokePath => {
            match ds.path.take() {
                Some(p) => {
                    let paint = stroke_paint_of(ds);
                    emit(out, CanvasCall::DrawPath { path: p, paint });
                },
                None => {},
            }
        },
        ScriptOp::MoveTo { x, y } => {
            path_append(ds, PathElem::Move { x: *x, y: *y });
        },
        ScriptOp::LineTo { x, y } => {
            path_append(ds, PathElem::Line { x: *x, y: *y });
        },
        ScriptOp::ArcTo { x1, y1, x2, y2, radius } => {
            let mut p = match ds.path.take() {
                Some(p) => p,
                None => Vec::new(),
            };
            if p.len() > 0 {
                p.push(
                    PathElem::TangentArc {
                        x1: *x1,
                        y1: *y1,
                        x2: *x2,
                        y2: *y2,
                        radius: *radius,
                    },
                );
            }
            ds.path = Some(p);
        },
        ScriptOp::BezierTo { cp1x, cp1y, cp2x, cp2y, x, y } => {
            path_append(
                ds,
                PathElem::Cubic {
                    cp1x: *cp1x,
                    cp1y: *cp1y,
                    cp2x: *cp2x,
                    cp2y: *cp2y,
                    x: *x,
                    y: *y,
                },
            );
        },
        ScriptOp::QuadraticTo { cpx, cpy, x, y } => {
            path_append(ds, PathElem::Quadratic { cpx: *cpx, cpy: *cpy, x: *x, y: *y });
        },
        ScriptOp::PathTriangle { x0, y0, x1, y1, x2, y2 } => {
            path_append(
                ds,
                PathElem::Triangle { x0: *x0, y0: *y0, x1: *x1, y1: *y1, x2: *x2, y2: *y2 },
            );
        },
        ScriptOp::PathQuad { x0, y0, x1, y1, x2, y2, x3, y3 } => {
            path_append(
                ds,
                PathElem::Quad {
                    x0: *x0,
                    y0: *y0,
                    x1: *x1,
                    y1: *y1,
                    x2: *x2,
                    y2: *y2,
                    x3: *x3,
                    y3: *y3,
                },
            );
        },
        ScriptOp::PathRect { width, height } => {
            path_append(ds, PathElem::Rect { width: *width, height: *height });
        },
        ScriptOp::PathRRect { width, height, radius } => {
            path_append(
                ds,
                PathElem::RRect { width: *width, height: *height, radius: *radius },
            );
        },
        ScriptOp::PathSector { radius, radians } => {
            path_append(ds, PathElem::Sector { radius: *radius, radians: *radians });
        },
        ScriptOp::PathCircle { radius } => {
            path_append(ds, PathElem::Circle { radius: *radius });
        },
        ScriptOp::PathEllipse { radius0, radius1 } => {
            path_append(ds, PathElem::Ellipse { radius0: *radius0, radius1: *radius1 });
        },
        ScriptOp::PathArc { cx, cy, radius, start, end, dir } => {
            path_append(
                ds,
                PathElem::Arc {
                    cx: *cx,
                    cy: *cy,
                    radius: *radius,
                    start: *start,
                    end: *end,
                    dir: *dir,
                },
            );
        },
        _ => {
            proof {
                assert(false);
            }
        },
    }
}

/// Appends one element to the in-progress path, creating it if none has
/// been started.
fn path_append(ds: &mut DrawState, elem: PathElem)
    ensures
        final(ds)@ == (GfxV {
            path: Some(cur_path(old(ds)@).push(elem)),
            ..old(ds)@
        }),
{
    let mut p = match ds.path.take() {
        Some(p) => p,
        None => Vec::new(),
    };
    p.push(elem);
    ds.path = Some(p);
}

/// Applies one immediate-draw, sprite-batch or text operation.
#[verifier::rlimit(100)]
#[verifier::loop_isolation(false)]
fn apply_draw_op(
    op: &ScriptOp,
    caches: &ResourceCaches,
    ds: &mut DrawState,
    out: &mut Vec<CanvasCall>,
)
    requires
        crate::encode::op_tag(op@) <= 0x1F,
        !(op@ is DrawScript),
    ensures
        ({
            let sr = step_op(caches@, old(ds)@, op@);
            final(ds)@ == sr.0 && calls_view(final(out)@) == calls_view(old(out)@) + sr.1
        }),
{
    proof {
        assert(calls_view(out@) =~= calls_view(out@) + Seq::<crate::canvas::CallV>::empty());
    }
    match op {
        ScriptOp::DrawLine { x0, y0, x1, y1, flag } => {
            if *flag & 0x02 == 0x02 {
                let paint = stroke_paint_of(ds);
                emit(out, CanvasCall::DrawLine { x0: *x0, y0: *y0, x1: *x1, y1: *y1, paint });
            }
            proof {
                assert(calls_view(out@) =~= calls_view(old(out)@) + step_op(
                    caches@,
                    old(ds)@,
                    op@,
                ).1);
            }
        },
        ScriptOp::DrawTriangle { x0, y0, x1, y1, x2, y2, flag } => {
            let p: Vec<PathElem> = vec![
                PathElem::Move { x: *x0, y: *y0 },
                PathElem::Line { x: *x1, y: *y1 },
                PathElem::Line { x: *x2, y: *y2 },
                PathElem::Close,
            ];
            proof {
                assert(p@ =~= seq![
                    PathElem::Move { x: *x0, y: *y0 },
                    PathElem::Line { x: *x1, y: *y1 },
                    PathElem::Line { x: *x2, y: *y2 },
                    PathElem::Close,
                ]);
            }
            emit_fill_stroke_path(p, *flag, ds, out);
            proof {
                assert(calls_view(out@) =~= calls_view(old(out)@) + step_op(
                    caches@,
                    old(ds)@,
                    op@,
                ).1);
            }
        },
        ScriptOp::DrawQuad { x0, y0, x1, y1, x2, y2, x3, y3, flag } => {
            let p: Vec<PathElem> = vec![
                PathElem::Move { x: *x0, y: *y0 },
                PathElem::Line { x: *x1, y: *y1 },
                PathElem::Line { x: *x2, y: *y2 },
                PathElem::Line { x: *x3, y: *y3 },
                PathElem::Close,
            ];
            proof {
                assert(p@ =~= seq![
                    PathElem::Move { x: *x0, y: *y0 },
                    PathElem::Line { x: *x1, y: *y1 },
                    PathElem::Line { x: *x2, y: *y2 },
                    PathElem::Line { x: *x3, y: *y3 },
                    PathElem::Close,
                ]);
            }
            emit_fill_stroke_path(p, *flag, ds, out);
            proof {
                assert(calls_view(out@) =~= calls_view(old(out)@) + step_op(
                    caches@,
                    old(ds)@,
                    op@,
                ).1);
            }
        },
        ScriptOp::DrawCircle { radius, flag } => {
            if *flag & 0x01 == 0x01 {
                let paint = fill_paint_of(ds);
                emit(out, CanvasCall::DrawCircle { radius: *radius, paint });
            }
            if *flag & 0x02 == 0x02 {
                let paint = stroke_paint_of(ds);
                emit(out, CanvasCall::DrawCircle { radius: *radius, paint });
            }
            proof {
                assert(calls_view(out@) =~= calls_view(old(out)@) + step_op(
                    caches@,
                    old(ds)@,
                    op@,
                ).1);
            }
        },
        ScriptOp::DrawEllipse { radius0, radius1, flag } => {
            if *flag & 0x01 == 0x01 {
                let paint = fill_paint_of(ds);
                emit(out, CanvasCall::DrawOval { radius0: *radius0, radius1: *radius1, paint });
            }
            if *flag & 0x02 == 0x02 {
                let paint = stroke_paint_of(ds);
                emit(out, CanvasCall::DrawOval { radius0: *radius0, radius1: *radius1, paint });
            }
            proof {
                assert(calls_view(out@) =~= calls_view(old(out)@) + step_op(
                    caches@,
                    old(ds)@,
                    op@,
                ).1);
            }
        },
        ScriptOp::DrawArc { radius, radians, flag } => {
            if *flag & 0x01 == 0x01 {
                let paint = fill_paint_of(ds);
                emit(out, CanvasCall::DrawArc { radius: *radius, radians: *radians, paint });
            }
            if *flag & 0x02 == 0x02 {
                let paint = stroke_paint_of(ds);
                emit(out, CanvasCall::DrawArc { radius: *radius, radians: *radians, paint });
            }
            proof {
                assert(calls_view(out@) =~= calls_view(old(out)@) + step_op(
                    caches@,
                    old(ds)@,
                    op@,
                ).1);
            }
        },
        ScriptOp::DrawSector { radius, radians, flag } => {
            let p: Vec<PathElem> = vec![
                PathElem::Sector { radius: *radius, radians: *radians },
            ];
            proof {
                assert(p@ =~= seq![PathElem::Sector { radius: *radius, radians: *radians }]);
            }
            emit_fill_stroke_path(p, *flag, ds, out);
            proof {
                assert(calls_view(out@) =~= calls_view(old(out)@) + step_op(
                    caches@,
                    old(ds)@,
                    op@,
                ).1);
            }
        },
        ScriptOp::DrawRect { width, height, flag } => {
            if *flag & 0x01 == 0x01 {
                let paint = fill_paint_of(ds);
                emit(out, CanvasCall::DrawRect { width: *width, height: *height, paint });
            }
            if *flag & 0x02 == 0x02 {
                let paint = stroke_paint_of(ds);
                emit(out, CanvasCall::DrawRect { width: *width, height: *height, paint });
            }
            proof {
                assert(calls_view(out@) =~= calls_view(old(out)@) + step_op(
                    caches@,
                    old(ds)@,
                    op@,
                ).1);
            }
        },
        ScriptOp::DrawRRect { width, height, radius, flag } => {
            if *flag & 0x01 == 0x01 {
                let paint = fill_paint_of(ds);
                emit(
                    out,
                    CanvasCall::DrawRRect {
                        width: *width,
                        height: *height,
                        radius: *radius,
                        paint,
                    },
                );
            }
            if *flag & 0x02 == 0x02 {
                let paint = stroke_paint_of(ds);
                emit(
                    out,
                    CanvasCall::DrawRRect {
                        width: *width,
                        height: *height,
                        radius: *radius,
                        paint,
                    },
                );
            }
            proof {
                assert(calls_view(out@) =~= calls_view(old(out)@) + step_op(
                    caches@,
                    old(ds)@,
                    op@,
                ).1);
            }
        },
        ScriptOp::DrawRRectV { width, height, ul_radius, ur_radius, lr_radius, ll_radius, flag }
            => {
            if *flag & 0x01 == 0x01 {
                let paint = fill_paint_of(ds);
                emit(
                    out,
                    CanvasCall::DrawRRectV {
                        width: *width,
                        height: *height,
                        ul_radius: *ul_radius,
                        ur_radius: *ur_radius,
                        lr_radius: *lr_radius,
                        ll_radius: *ll_radius,
                        paint,
                    },
                );
            }
            if *flag & 0x02 == 0x02 {
                let paint = stroke_paint_of(ds);
                emit(
                    out,
                    CanvasCall::DrawRRectV {
                        width: *width,
                        height: *height,
                        ul_radius: *ul_radius,
                        ur_radius: *ur_radius,
                        lr_radius: *lr_radius,
                        ll_radius: *ll_radius,
                        paint,
                    },
                );
            }
            proof {
                assert(calls_view(out@) =~= calls_view(old(out)@) + step_op(
                    caches@,
                    old(ds)@,
                    op@,
                ).1);
            }
        },
        ScriptOp::DrawSprites { image_id, cmds } => {
            if caches.has_static_image(image_id.as_slice()) {
                let n = cmds.len();
                let mut k: usize = 0;
                let ghost base = calls_view(out@);
                while k < n
                    invariant
                        k <= n,
                        calls_view(out@) == base + Seq::new(
                            k as nat,
                            |t: int|
                                crate::canvas::CallV::DrawImageRect {
                                    image_id: image_id@,
                                    sx: cmds@[t].sx,
                                    sy: cmds@[t].sy,
                                    sw: cmds@[t].sw,
                                    sh: cmds@[t].sh,
                                    dx: cmds@[t].dx,
                                    dy: cmds@[t].dy,
                                    dw: cmds@[t].dw,
                                    dh: cmds@[t].dh,
                                    alpha: cmds@[t].alpha,
                                },
                        ),
                    decreases n - k,
                {
                    let cmd = cmds[k];
                    emit(
                        out,
                        CanvasCall::DrawImageRect {
                            image_id: clone_bytes(image_id),
                            sx: cmd.sx,
                            sy: cmd.sy,
                            sw: cmd.sw,
                            sh: cmd.sh,
                            dx: cmd.dx,
                            dy: cmd.dy,
                            dw: cmd.dw,
                            dh: cmd.dh,
                            alpha: cmd.alpha,
                        },
                    );
                    proof {
                        assert(calls_view(out@) =~= base + Seq::new(
                            (k + 1) as nat,
                            |t: int|
                                crate::canvas::CallV::DrawImageRect {
                                    image_id: image_id@,
                                    sx: cmds@[t].sx,
                                    sy: cmds@[t].sy,
                                    sw: cmds@[t].sw,
                                    sh: cmds@[t].sh,
                                    dx: cmds@[t].dx,
                                    dy: cmds@[t].dy,
                                    dw: cmds@[t].dw,
                                    dh: cmds@[t].dh,
                                    alpha: cmds@[t].alpha,
                                },
                        ));
                    }
                    k += 1;
                }
                proof {
                    assert(calls_view(out@) =~= calls_view(old(out)@) + step_op(
                        caches@,
                        old(ds)@,
                        op@,
                    ).1);
                }
            } else {
                proof {
                    assert(calls_view(out@) =~= calls_view(old(out)@) + step_op(
                        caches@,
                        old(ds)@,
                        op@,
                    ).1);
                }
            }
        },
        ScriptOp::DrawText(text) => {
            if text.len() > 0 {
                let font_id = match &ds.font_id {
                    Some(fid) => if caches.has_font(fid.as_slice()) {
                        Some(clone_bytes(fid))
                    } else {
                        None
                    },
                    None => None,
                };
                let paint = fill_paint_of(ds);
                emit(
                    out,
                    CanvasCall::DrawText {
                        text: clone_bytes(text),
                        font_id,
                        font_size: ds.font_size,
                        align: ds.text_align,
                        base: ds.text_base,
                        paint,
                    },
                );
            }
            proof {
                assert(calls_view(out@) =~= calls_view(old(out)@) + step_op(
                    caches@,
                    old(ds)@,
                    op@,
                ).1);
            }
        },
        _ => {
            proof {
                assert(false);
            }
        },
    }
}

/// Issues the fill and/or stroke draw calls for one constructed path,
/// according to the flag bitmask.
fn emit_fill_stroke_path(p: Vec<PathElem>, flag: u16, ds: &DrawState, out: &mut Vec<CanvasCall>)
    ensures
        calls_view(final(out)@) == calls_view(old(out)@) + crate::render::draw_calls(
            ds@,
            flag,
            crate::canvas::CallV::DrawPath { path: p@, paint: fill_paint(ds@) },
            crate::canvas::CallV::DrawPath { path: p@, paint: stroke_paint(ds@) },
        ),
{
    if flag & 0x01 == 0x01 {
        let paint = fill_paint_of(ds);
        emit(out, CanvasCall::DrawPath { path: slice_to_vec(p.as_slice()), paint });
    }
    if flag & 0x02 == 0x02 {
        let paint = stroke_paint_of(ds);
        emit(out, CanvasCall::DrawPath { path: p, paint });
    }
    proof {
        assert(calls_view(out@) =~= calls_view(old(out)@) + crate::render::draw_calls(
            ds@,
            flag,
            crate::canvas::CallV::DrawPath { path: p@, paint: fill_paint(ds@) },
            crate::canvas::CallV::DrawPath { path: p@, paint: stroke_paint(ds@) },
        ));
    }
}

/// Applies one stroke-geometry, font or text-layout operation.
#[verifier::rlimit(100)]
fn apply_text_op(
    op: &ScriptOp,
    caches: &ResourceCaches,
    ds: &mut DrawState,
    out: &mut Vec<CanvasCall>,
)
    requires
        0x80 <= crate::encode::op_tag(op@),
    ensures
        ({
            let sr = step_op(caches@, old(ds)@, op@);
            final(ds)@ == sr.0 && calls_view(final(out)@) == calls_view(old(out)@) + sr.1
        }),
{
    proof {
        assert(calls_view(out@) =~= calls_view(out@) + Seq::<crate::canvas::CallV>::empty());
    }
    match op {
        ScriptOp::StrokeCap(cap) => {
            ds.stroke_cap = *cap;
        },
        ScriptOp::StrokeJoin(join) => {
            ds.stroke_join = *join;
        },
        ScriptOp::StrokeMiterLimit(limit) => {
            ds.stroke_miter_limit = *limit;
        },
        ScriptOp::Font(id) => {
            ds.font_id = Some(clone_bytes(id));
        },
        ScriptOp::FontSize(size) => {
            ds.font_size = *size;
        },
        ScriptOp::TextAlign(align) => {
            ds.text_align = *align;
        },
        ScriptOp::TextBase(base) => {
            ds.text_base = *base;
        },
        _ => {
            proof {
                assert(false);
            }
        },
    }
}

/// Applies one operation other than a script reference.
fn apply_op(op: &ScriptOp, caches: &ResourceCaches, ds: &mut DrawState, out: &mut Vec<
    CanvasCall,
>)
    requires
        !(op@ is DrawScript),
    ensures
        ({
            let sr = step_op(caches@, old(ds)@, op@);
            final(ds)@ == sr.0 && calls_view(final(out)@) == calls_view(old(out)@) + sr.1
        }),
{
    match op {
        ScriptOp::BeginPath | ScriptOp::ClosePath | ScriptOp::FillPath | ScriptOp::StrokePath
            | ScriptOp::MoveTo { .. } | ScriptOp::LineTo { .. } | ScriptOp::ArcTo { .. }
            | ScriptOp::BezierTo { .. } | ScriptOp::QuadraticTo { .. }
            | ScriptOp::PathTriangle { .. } | ScriptOp::PathQuad { .. }
            | ScriptOp::PathRect { .. } | ScriptOp::PathRRect { .. }
            | ScriptOp::PathSector { .. } | ScriptOp::PathCircle { .. }
            | ScriptOp::PathEllipse { .. } | ScriptOp::PathArc { .. } => {
            apply_path_op(op, caches, ds, out);
        },
        ScriptOp::PushState | ScriptOp::PopState | ScriptOp::PopPushState
            | ScriptOp::Translate(..) | ScriptOp::Rotate(..) | ScriptOp::Scale(..)
            | ScriptOp::Transform { .. } | ScriptOp::Scissor { .. } | ScriptOp::ClipPath(..) => {
            apply_state_op(op, caches, ds, out);
        },
        ScriptOp::FillColor(..) | ScriptOp::StrokeColor(..) | ScriptOp::StrokeWidth(..)
            | ScriptOp::FillLinear { .. } | ScriptOp::FillRadial { .. }
            | ScriptOp::StrokeLinear { .. } | ScriptOp::StrokeRadial { .. }
            | ScriptOp::FillImage(..) | ScriptOp::FillStream(..) | ScriptOp::StrokeImage(..)
            | ScriptOp::StrokeStream(..) => {
            apply_paint_op(op, caches, ds, out);
        },
        ScriptOp::StrokeCap(..) | ScriptOp::StrokeJoin(..) | ScriptOp::StrokeMiterLimit(..)
            | ScriptOp::Font(..) | ScriptOp::FontSize(..) | ScriptOp::TextAlign(..)
            | ScriptOp::TextBase(..) => {
            apply_text_op(op, caches, ds, out);
        },
        ScriptOp::DrawLine { .. } | ScriptOp::DrawTriangle { .. } | ScriptOp::DrawQuad { .. }
            | ScriptOp::DrawCircle { .. } | ScriptOp::DrawEllipse { .. }
            | ScriptOp::DrawArc { .. } | ScriptOp::DrawSector { .. } | ScriptOp::DrawRect { .. }
            | ScriptOp::DrawRRect { .. } | ScriptOp::DrawRRectV { .. }
            | ScriptOp::DrawSprites { .. } | ScriptOp::DrawText(..) => {
            apply_draw_op(op, caches, ds, out);
        },
        ScriptOp::DrawScript(..) => {
            proof {
                assert(false);
            }
        },
    }
}

/// Runs one named script against the graphics state, emitting its canvas
/// calls and recursing into referenced scripts under the cycle guard.
#[verifier::rlimit(100)]
#[verifier::loop_isolation(false)]
pub fn draw_script(
    state: &RenderState,
    caches: &ResourceCaches,
    script_id: &[u8],
    ds: &mut DrawState,
    stack_ids: &mut Vec<Vec<u8>>,
    out: &mut Vec<CanvasCall>,
)
    requires
        state.wf(),
    ensures
        final(stack_ids)@ == old(stack_ids)@,
        ({
            let sr = run_script(
                state@.scripts,
                caches@,
                ids_view(old(stack_ids)@),
                old(ds)@,
                script_id@,
            );
            final(ds)@ == sr.0 && calls_view(final(out)@) == calls_view(old(out)@) + sr.1
        }),
    decreases remaining(state@.scripts, ids_view(stack_ids@)),
{
    proof {
        state.lemma_wf_finite();
    }
    if ids_contains(stack_ids, script_id) {
        proof {
            assert(calls_view(out@) =~= calls_view(out@) + Seq::<crate::canvas::CallV>::empty());
        }
        return;
    }
    let ops = match state.get_script(script_id) {
        Some(ops) => ops,
        None => {
            proof {
                assert(calls_view(out@) =~= calls_view(out@) + Seq::<
                    crate::canvas::CallV,
                >::empty());
            }
            return;
        },
    };
    stack_ids.push(slice_to_vec(script_id));
    proof {
        assert(ids_view(stack_ids@) =~= ids_view(old(stack_ids)@).push(script_id@));
        lemma_remaining_shrinks(state@.scripts, ids_view(old(stack_ids)@), script_id@);
    }
    let ghost scripts = state@.scripts;
    let ghost cv = caches@;
    let ghost stackv = ids_view(stack_ids@);
    let ghost stack_exec = stack_ids@;
    let ghost g0 = ds@;
    let ghost n0 = out@.len() as int;
    let ghost opsv = ops_view(ops@);
    proof {
        assert(calls_view(out@).subrange(0, n0) =~= calls_view(out@));
        assert(opsv.skip(0) =~= opsv);
        assert(calls_view(out@).subrange(n0, out@.len() as int) =~= Seq::<
            crate::canvas::CallV,
        >::empty());
        assert(Seq::<crate::canvas::CallV>::empty() + run_ops(scripts, cv, stackv, g0, opsv).1
            =~= run_ops(scripts, cv, stackv, g0, opsv).1);
    }
    let n = ops.len();
    let mut k: usize = 0;
    while k < n
        invariant
            k <= n,
            n == ops@.len(),
            stack_ids@ == stack_exec,
            out@.len() >= n0,
            calls_view(out@).subrange(0, n0) == calls_view(old(out)@),
            ({
                let full = run_ops(scripts, cv, stackv, g0, opsv);
                let rest = run_ops(scripts, cv, stackv, ds@, opsv.skip(k as int));
                full.0 == rest.0 && full.1 == calls_view(out@).subrange(
                    n0,
                    out@.len() as int,
                ) + rest.1
            }),
        decreases n - k,
    {
        let ghost ds_pre = ds@;
        let ghost out_pre = out@;
        let op = &ops[k];
        proof {
            assert(opsv.skip(k as int)[0] == opsv[k as int]);
            assert(opsv[k as int] == op@);
            assert(opsv.skip(k as int).drop_first() =~= opsv.skip(k as int + 1));
        }
        match op {
            ScriptOp::DrawScript(id) => {
                draw_script(state, caches, id.as_slice(), ds, stack_ids, out);
                proof {
                    let piece = run_script(scripts, cv, stackv, ds_pre, id@);
                    assert(ds@ == piece.0);
                    assert(calls_view(out@) == calls_view(out_pre) + piece.1);
                }
            },
            _ => {
                apply_op(op, caches, ds, out);
                proof {
                    let piece = step_op(cv, ds_pre, op@);
                    assert(ds@ == piece.0);
                    assert(calls_view(out@) == calls_view(out_pre) + piece.1);
                }
            },
        }
        proof {
            let full = run_ops(scripts, cv, stackv, g0, opsv);
            let rest_pre = run_ops(scripts, cv, stackv, ds_pre, opsv.skip(k as int));
            let rest_post = run_ops(scripts, cv, stackv, ds@, opsv.skip(k as int + 1));
            let emitted = calls_view(out@).subrange(out_pre.len() as int, out@.len() as int);
            assert(calls_view(out@).subrange(0, out_pre.len() as int) =~= calls_view(out_pre));
            assert(calls_view(out@) == calls_view(out_pre) + emitted) by {
                assert(calls_view(out@) =~= calls_view(out@).subrange(0, out_pre.len() as int)
                    + emitted);
            }
            assert(calls_view(out@).subrange(0, n0) =~= calls_view(out_pre).subrange(0, n0));
            assert(rest_pre.1 == emitted + rest_post.1);
            assert(full.1 == calls_view(out_pre).subrange(n0, out_pre.len() as int) + (emitted
                + rest_post.1));
            assert(calls_view(out@).subrange(n0, out@.len() as int) =~= calls_view(
                out_pre,
            ).subrange(n0, out_pre.len() as int) + emitted);
            assert(full.1 == calls_view(out@).subrange(n0, out@.len() as int) + rest_post.1);
        }
        k += 1;
    }
    stack_ids.pop();
    proof {
        assert(stack_ids@ =~= old(stack_ids)@);
        let full = run_ops(scripts, cv, stackv, g0, opsv);
        assert(run_ops(scripts, cv, stackv, ds@, opsv.skip(n as int)) == (
            ds@,
            Seq::<crate::canvas::CallV>::empty(),
        ));
        assert(full.0 == ds@);
        assert(full.1 =~= calls_view(out@).subrange(n0, out@.len() as int));
        let sr = run_script(scripts, cv, ids_view(old(stack_ids)@), g0, script_id@);
        assert(sr == full);
        assert(calls_view(out@) =~= calls_view(out@).subrange(0, n0) + calls_view(
            out@,
        ).subrange(n0, out@.len() as int));
    }
}

/// Produces the canvas calls of one whole frame: clear to the background
/// color, then run the root script, if one is designated, from the default
/// graphics state.
pub fn render_frame(state: &RenderState, caches: &ResourceCaches) -> (r: Vec<CanvasCall>)
    requires
        state.wf(),
    ensures
        calls_view(r@) == spec_render(state@, caches@),
{
    let mut out: Vec<CanvasCall> = Vec::new();
    emit(&mut out, CanvasCall::Clear { color: state.get_clear_color() });
    let mut ds = DrawState::default();
    let mut stack_ids: Vec<Vec<u8>> = Vec::new();
    let root = match state.current_root() {
        Some(id) => Some(clone_bytes(id)),
        None => None,
    };
    match root {
        Some(id) => {
            proof {
                assert(ids_view(stack_ids@) =~= Seq::<Seq<u8>>::empty());
            }
            draw_script(state, caches, id.as_slice(), &mut ds, &mut stack_ids, &mut out);
            proof {
                assert(calls_view(out@) =~= spec_render(state@, caches@));
            }
        },
        None => {
            proof {
                assert(calls_view(out@) =~= spec_render(state@, caches@));
            }
        },
    }
    out
}

} // verus!
