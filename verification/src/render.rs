//! The script executor's specification: what one operation does to the
//! graphics state and which canvas calls it emits, and how a script runs
//! its operations in order, recursing into referenced scripts under the
//! cycle guard.

use vstd::prelude::*;
use vstd::set_lib::lemma_len_subset;

use crate::canvas::{CallV, PaintV, PathElem, ShaderV};
use crate::color::{spec_transparent, spec_white};
use crate::ops::OpV;
use crate::resources::CachesV;
use crate::state::{GfxV, cur_path, gfx_pop, gfx_pop_push, gfx_push};

verus! {

/// The resolved fill paint: opaque white under a shader, else the flat fill
/// color.
pub open spec fn fill_paint(g: GfxV) -> PaintV {
    PaintV::Fill {
        color: if g.fill_shader is Some {
            spec_white()
        } else {
            g.fill_color
        },
        shader: g.fill_shader,
    }
}

/// The resolved stroke paint: the stroke geometry, and opaque white under a
/// shader, else the flat stroke color.
pub open spec fn stroke_paint(g: GfxV) -> PaintV {
    PaintV::Stroke {
        color: if g.stroke_shader is Some {
            spec_white()
        } else {
            g.stroke_color
        },
        shader: g.stroke_shader,
        width: g.stroke_width,
        cap: g.stroke_cap,
        join: g.stroke_join,
        miter_limit: g.stroke_miter_limit,
    }
}

/// The calls an immediate-draw operation issues: one with the fill paint if
/// bit 0 of the flag is set, then one with the stroke paint if bit 1 is set.
pub open spec fn draw_calls(g: GfxV, flag: u16, fill_call: CallV, stroke_call: CallV) -> Seq<
    CallV,
> {
    (if flag & 0x01 == 0x01 {
        seq![fill_call]
    } else {
        Seq::empty()
    }) + (if flag & 0x02 == 0x02 {
        seq![stroke_call]
    } else {
        Seq::empty()
    })
}

/// What one operation (other than a script reference) does: the new
/// graphics state, and the canvas calls issued, in order.
pub open spec fn step_op(c: CachesV, g: GfxV, op: OpV) -> (GfxV, Seq<CallV>) {
    match op {
        OpV::PushState => (gfx_push(g), seq![CallV::Save]),
        OpV::PopState => if g.stack.len() > 0 {
            (gfx_pop(g), seq![CallV::Restore])
        } else {
            (g, Seq::empty())
        },
        OpV::PopPushState => if g.stack.len() > 0 {
            (gfx_pop_push(g), seq![CallV::Restore, CallV::Save])
        } else {
            (g, Seq::empty())
        },
        OpV::Translate(x, y) => (g, seq![CallV::Translate { x, y }]),
        OpV::Rotate(radians) => (g, seq![CallV::Rotate { radians }]),
        OpV::Scale(x, y) => (g, seq![CallV::Scale { x, y }]),
        OpV::Transform { a, b, c: tc, d, e, f } => (
            g,
            seq![CallV::Concat { a, b, c: tc, d, e, f }],
        ),
        OpV::FillColor(color) => (
            GfxV { fill_color: color, fill_shader: None, ..g },
            Seq::empty(),
        ),
        OpV::StrokeColor(color) => (
            GfxV { stroke_color: color, stroke_shader: None, ..g },
            Seq::empty(),
        ),
        OpV::StrokeWidth(w) => (GfxV { stroke_width: w, ..g }, Seq::empty()),
        OpV::FillLinear { start_x, start_y, end_x, end_y, start_color, end_color } => (
            GfxV {
                fill_color: start_color,
                fill_shader: Some(
                    ShaderV::Linear { start_x, start_y, end_x, end_y, start_color, end_color },
                ),
                ..g
            },
            Seq::empty(),
        ),
        OpV::FillRadial {
            center_x,
            center_y,
            inner_radius,
            outer_radius,
            start_color,
            end_color,
        } => (
            GfxV {
                fill_color: start_color,
                fill_shader: Some(
                    ShaderV::Radial {
                        center_x,
                        center_y,
                        inner_radius,
                        outer_radius,
                        start_color,
                        end_color,
                    },
                ),
                ..g
            },
            Seq::empty(),
        ),
        OpV::StrokeLinear { start_x, start_y, end_x, end_y, start_color, end_color } => (
            GfxV {
                stroke_color: start_color,
                stroke_shader: Some(
                    ShaderV::Linear { start_x, start_y, end_x, end_y, start_color, end_color },
                ),
                ..g
            },
            Seq::empty(),
        ),
        OpV::StrokeRadial {
            center_x,
            center_y,
            inner_radius,
            outer_radius,
            start_color,
            end_color,
        } => (
            GfxV {
                stroke_color: start_color,
                stroke_shader: Some(
                    ShaderV::Radial {
                        center_x,
                        center_y,
                        inner_radius,
                        outer_radius,
                        start_color,
                        end_color,
                    },
                ),
                ..g
            },
            Seq::empty(),
        ),
        OpV::FillImage(id) => (
            if c.statics.contains(id) {
                GfxV {
                    fill_shader: Some(ShaderV::Image { id }),
                    fill_color: spec_white(),
                    ..g
                }
            } else {
                GfxV { fill_shader: None, fill_color: spec_transparent(), ..g }
            },
            Seq::empty(),
        ),
        OpV::FillStream(id) => (
            if c.streams.contains(id) {
                GfxV {
                    fill_shader: Some(ShaderV::Stream { id }),
                    fill_color: spec_white(),
                    ..g
                }
            } else {
                GfxV { fill_shader: None, fill_color: spec_transparent(), ..g }
            },
            Seq::empty(),
        ),
        OpV::StrokeImage(id) => (
            if c.statics.contains(id) {
                GfxV {
                    stroke_shader: Some(ShaderV::Image { id }),
                    stroke_color: spec_white(),
                    ..g
                }
            } else {
                GfxV { stroke_shader: None, stroke_color: spec_transparent(), ..g }
            },
            Seq::empty(),
        ),
        OpV::StrokeStream(id) => (
            if c.streams.contains(id) {
                GfxV {
                    stroke_shader: Some(ShaderV::Stream { id }),
                    stroke_color: spec_white(),
                    ..g
                }
            } else {
                GfxV { stroke_shader: None, stroke_color: spec_transparent(), ..g }
            },
            Seq::empty(),
        ),
        OpV::StrokeCap(cap) => (GfxV { stroke_cap: cap, ..g }, Seq::empty()),
        OpV::StrokeJoin(join) => (GfxV { stroke_join: join, ..g }, Seq::empty()),
        OpV::StrokeMiterLimit(limit) => (
            GfxV { stroke_miter_limit: limit, ..g },
            Seq::empty(),
        ),
        OpV::ClipPath(mode) => match g.path {
            Some(p) => (g, seq![CallV::ClipPath { path: p, mode }]),
            None => (g, Seq::empty()),
        },
        OpV::Scissor { width, height } => (g, seq![CallV::ClipRect { width, height }]),
        OpV::BeginPath => (GfxV { path: Some(Seq::empty()), ..g }, Seq::empty()),
        OpV::ClosePath => (
            match g.path {
                Some(p) => GfxV {
                    path: Some(
                        if p.len() > 0 {
                            p.push(PathElem::Close)
                        } else {
                            p
                        },
                    ),
                    ..g
                },
                None => g,
            },
            Seq::empty(),
        ),
        OpV::FillPath => match g.path {
            Some(p) => (g, seq![CallV::DrawPath { path: p, paint: fill_paint(g) }]),
            None => (g, Seq::empty()),
        },
        OpV::StrokePath => match g.path {
            Some(p) => (
                GfxV { path: None, ..g },
                seq![CallV::DrawPath { path: p, paint: stroke_paint(g) }],
            ),
            None => (g, Seq::empty()),
        },
        OpV::MoveTo { x, y } => (
            GfxV { path: Some(cur_path(g).push(PathElem::Move { x, y })), ..g },
            Seq::empty(),
        ),
        OpV::LineTo { x, y } => (
            GfxV { path: Some(cur_path(g).push(PathElem::Line { x, y })), ..g },
            Seq::empty(),
        ),
        OpV::ArcTo { x1, y1, x2, y2, radius } => (
            GfxV {
                path: Some(
                    if cur_path(g).len() > 0 {
                        cur_path(g).push(PathElem::TangentArc { x1, y1, x2, y2, radius })
                    } else {
                        cur_path(g)
                    },
                ),
                ..g
            },
            Seq::empty(),
        ),
        OpV::BezierTo { cp1x, cp1y, cp2x, cp2y, x, y } => (
            GfxV {
                path: Some(cur_path(g).push(PathElem::Cubic { cp1x, cp1y, cp2x, cp2y, x, y })),
                ..g
            },
            Seq::empty(),
        ),
        OpV::QuadraticTo { cpx, cpy, x, y } => (
            GfxV {
                path: Some(cur_path(g).push(PathElem::Quadratic { cpx, cpy, x, y })),
                ..g
            },
            Seq::empty(),
        ),
        OpV::PathTriangle { x0, y0, x1, y1, x2, y2 } => (
            GfxV {
                path: Some(cur_path(g).push(PathElem::Triangle { x0, y0, x1, y1, x2, y2 })),
                ..g
            },
            Seq::empty(),
        ),
        OpV::PathQuad { x0, y0, x1, y1, x2, y2, x3, y3 } => (
            GfxV {
                path: Some(
                    cur_path(g).push(PathElem::Quad { x0, y0, x1, y1, x2, y2, x3, y3 }),
                ),
                ..g
            },
            Seq::empty(),
        ),
        OpV::PathRect { width, height } => (
            GfxV { path: Some(cur_path(g).push(PathElem::Rect { width, height })), ..g },
            Seq::empty(),
        ),
        OpV::PathRRect { width, height, radius } => (
            GfxV {
                path: Some(cur_path(g).push(PathElem::RRect { width, height, radius })),
                ..g
            },
            Seq::empty(),
        ),
        OpV::PathSector { radius, radians } => (
            GfxV {
                path: Some(cur_path(g).push(PathElem::Sector { radius, radians })),
                ..g
            },
            Seq::empty(),
        ),
        OpV::PathCircle { radius } => (
            GfxV { path: Some(cur_path(g).push(PathElem::Circle { radius })), ..g },
            Seq::empty(),
        ),
        OpV::PathEllipse { radius0, radius1 } => (
            GfxV {
                path: Some(cur_path(g).push(PathElem::Ellipse { radius0, radius1 })),
                ..g
            },
            Seq::empty(),
        ),
        OpV::PathArc { cx, cy, radius, start, end, dir } => (
            GfxV {
                path: Some(
                    cur_path(g).push(PathElem::Arc { cx, cy, radius, start, end, dir }),
                ),
                ..g
            },
            Seq::empty(),
        ),
        OpV::DrawLine { x0, y0, x1, y1, flag } => (
            g,
            if flag & 0x02 == 0x02 {
                seq![CallV::DrawLine { x0, y0, x1, y1, paint: stroke_paint(g) }]
            } else {
                Seq::empty()
            },
        ),
        OpV::DrawTriangle { x0, y0, x1, y1, x2, y2, flag } => {
            let p = seq![
                PathElem::Move { x: x0, y: y0 },
                PathElem::Line { x: x1, y: y1 },
                PathElem::Line { x: x2, y: y2 },
                PathElem::Close,
            ];
            (
                g,
                draw_calls(
                    g,
                    flag,
                    CallV::DrawPath { path: p, paint: fill_paint(g) },
                    CallV::DrawPath { path: p, paint: stroke_paint(g) },
                ),
            )
        },
        OpV::DrawQuad { x0, y0, x1, y1, x2, y2, x3, y3, flag } => {
            let p = seq![
                PathElem::Move { x: x0, y: y0 },
                PathElem::Line { x: x1, y: y1 },
                PathElem::Line { x: x2, y: y2 },
                PathElem::Line { x: x3, y: y3 },
                PathElem::Close,
            ];
            (
                g,
                draw_calls(
                    g,
                    flag,
                    CallV::DrawPath { path: p, paint: fill_paint(g) },
                    CallV::DrawPath { path: p, paint: stroke_paint(g) },
                ),
            )
        },
        OpV::DrawCircle { radius, flag } => (
            g,
            draw_calls(
                g,
                flag,
                CallV::DrawCircle { radius, paint: fill_paint(g) },
                CallV::DrawCircle { radius, paint: stroke_paint(g) },
            ),
        ),
        OpV::DrawEllipse { radius0, radius1, flag } => (
            g,
            draw_calls(
                g,
                flag,
                CallV::DrawOval { radius0, radius1, paint: fill_paint(g) },
                CallV::DrawOval { radius0, radius1, paint: stroke_paint(g) },
            ),
        ),
        OpV::DrawArc { radius, radians, flag } => (
            g,
            draw_calls(
                g,
                flag,
                CallV::DrawArc { radius, radians, paint: fill_paint(g) },
                CallV::DrawArc { radius, radians, paint: stroke_paint(g) },
            ),
        ),
        OpV::DrawSector { radius, radians, flag } => {
            let p = seq![PathElem::Sector { radius, radians }];
            (
                g,
                draw_calls(
                    g,
                    flag,
                    CallV::DrawPath { path: p, paint: fill_paint(g) },
                    CallV::DrawPath { path: p, paint: stroke_paint(g) },
                ),
            )
        },
        OpV::DrawRect { width, height, flag } => (
            g,
            draw_calls(
                g,
                flag,
                CallV::DrawRect { width, height, paint: fill_paint(g) },
                CallV::DrawRect { width, height, paint: stroke_paint(g) },
            ),
        ),
        OpV::DrawRRect { width, height, radius, flag } => (
            g,
            draw_calls(
                g,
                flag,
                CallV::DrawRRect { width, height, radius, paint: fill_paint(g) },
                CallV::DrawRRect { width, height, radius, paint: stroke_paint(g) },
            ),
        ),
        OpV::DrawRRectV { width, height, ul_radius, ur_radius, lr_radius, ll_radius, flag } => (
            g,
            draw_calls(
                g,
                flag,
                CallV::DrawRRectV {
                    width,
                    height,
                    ul_radius,
                    ur_radius,
                    lr_radius,
                    ll_radius,
                    paint: fill_paint(g),
                },
                CallV::DrawRRectV {
                    width,
                    height,
                    ul_radius,
                    ur_radius,
                    lr_radius,
                    ll_radius,
                    paint: stroke_paint(g),
                },
            ),
        ),
        OpV::DrawSprites { image_id, cmds } => (
            g,
            if c.statics.contains(image_id) {
                Seq::new(
                    cmds.len(),
                    |k: int|
                        CallV::DrawImageRect {
                            image_id: image_id,
                            sx: cmds[k].sx,
                            sy: cmds[k].sy,
                            sw: cmds[k].sw,
                            sh: cmds[k].sh,
                            dx: cmds[k].dx,
                            dy: cmds[k].dy,
                            dw: cmds[k].dw,
                            dh: cmds[k].dh,
                            alpha: cmds[k].alpha,
                        },
                )
            } else {
                Seq::empty()
            },
        ),
        OpV::DrawText(text) => (
            g,
            if text.len() > 0 {
                seq![
                    CallV::DrawText {
                        text: text,
                        font_id: resolved_font(c, g),
                        font_size: g.font_size,
                        align: g.text_align,
                        base: g.text_base,
                        paint: fill_paint(g),
                    },
                ]
            } else {
                Seq::empty()
            },
        ),
        OpV::Font(id) => (GfxV { font_id: Some(id), ..g }, Seq::empty()),
        OpV::FontSize(size) => (GfxV { font_size: size, ..g }, Seq::empty()),
        OpV::TextAlign(align) => (GfxV { text_align: align, ..g }, Seq::empty()),
        OpV::TextBase(base) => (GfxV { text_base: base, ..g }, Seq::empty()),
        // Script references are handled by the script runner, which guards
        // against cycles; as a single-state step they do nothing.
        OpV::DrawScript(_) => (g, Seq::empty()),
    }
}

/// The font a text run resolves to: the selected identifier when its
/// typeface is cached, else the built-in system font (`None`).
pub open spec fn resolved_font(c: CachesV, g: GfxV) -> Option<Seq<u8>> {
    match g.font_id {
        Some(fid) => if c.fonts.contains(fid) {
            Some(fid)
        } else {
            None
        },
        None => None,
    }
}

/// How many stored scripts are not yet on the "currently executing" stack:
/// the measure that shrinks at each recursion into a referenced script.
pub open spec fn remaining(scripts: Map<Seq<u8>, Seq<OpV>>, stack: Seq<Seq<u8>>) -> nat {
    scripts.dom().difference(stack.to_set()).len()
}

/// Runs a list of operations in order from a graphics state, returning the
/// final state and every canvas call issued.  A script reference recurses
/// through [`run_script`] with the same graphics state.
pub open spec fn run_ops(
    scripts: Map<Seq<u8>, Seq<OpV>>,
    c: CachesV,
    stack: Seq<Seq<u8>>,
    g: GfxV,
    ops: Seq<OpV>,
) -> (GfxV, Seq<CallV>)
    decreases remaining(scripts, stack), ops.len(), 0int,
        when scripts.dom().finite()
{
    if ops.len() == 0 {
        (g, Seq::empty())
    } else {
        match ops[0] {
            OpV::DrawScript(id) => {
                let (g1, c1) = run_script(scripts, c, stack, g, id);
                let (g2, c2) = run_ops(scripts, c, stack, g1, ops.drop_first());
                (g2, c1 + c2)
            },
            _ => {
                let (g1, c1) = step_op(c, g, ops[0]);
                let (g2, c2) = run_ops(scripts, c, stack, g1, ops.drop_first());
                (g2, c1 + c2)
            },
        }
    }
}

/// Runs one named script: nothing happens if the identifier is already on
/// the "currently executing" stack (the cycle guard) or is not stored;
/// otherwise its operations run with the identifier pushed.
pub open spec fn run_script(
    scripts: Map<Seq<u8>, Seq<OpV>>,
    c: CachesV,
    stack: Seq<Seq<u8>>,
    g: GfxV,
    id: Seq<u8>,
) -> (GfxV, Seq<CallV>)
    decreases remaining(scripts, stack), 0int, 1int,
        when scripts.dom().finite()
        via run_script_decreases
{
    if stack.contains(id) || !scripts.dom().contains(id) {
        (g, Seq::empty())
    } else {
        run_ops(scripts, c, stack.push(id), g, scripts[id])
    }
}

#[via_fn]
proof fn run_script_decreases(
    scripts: Map<Seq<u8>, Seq<OpV>>,
    c: CachesV,
    stack: Seq<Seq<u8>>,
    g: GfxV,
    id: Seq<u8>,
) {
    if scripts.dom().finite() && !stack.contains(id) && scripts.dom().contains(id) {
        lemma_remaining_shrinks(scripts, stack, id);
    }
}

/// Pushing a stored, not-yet-executing identifier strictly shrinks the set
/// of stored scripts left to enter.
pub proof fn lemma_remaining_shrinks(
    scripts: Map<Seq<u8>, Seq<OpV>>,
    stack: Seq<Seq<u8>>,
    id: Seq<u8>,
)
    requires
        scripts.dom().finite(),
        scripts.dom().contains(id),
        !stack.contains(id),
    ensures
        remaining(scripts, stack.push(id)) < remaining(scripts, stack),
{
    let a = scripts.dom().difference(stack.to_set());
    let b = scripts.dom().difference(stack.push(id).to_set());
    lemma_len_subset(a, scripts.dom());
    stack.lemma_push_to_set_commute(id);
    assert(b =~= a.remove(id));
    assert(a.contains(id));
    vstd::set::axiom_set_remove_len(a, id);
}

/// Running a whole frame: clear to the background color, then run the root
/// script, if one is designated, from the default graphics state.
pub open spec fn spec_render(st: crate::store::RenderStateV, c: CachesV) -> Seq<CallV> {
    seq![CallV::Clear { color: st.clear_color }] + match st.root_id {
        Some(id) => run_script(
            st.scripts,
            c,
            Seq::empty(),
            crate::state::default_gfx(),
            id,
        ).1,
        None => Seq::empty(),
    }
}

} // verus!
