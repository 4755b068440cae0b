//! The binary script encoder: the inverse of the decoder, used to produce
//! wire-compatible buffers and to state the format's round-trip laws.

use vstd::prelude::*;

use crate::codec::pad4;
use crate::color::Color;
use crate::ops::{ClipMode, OpV, ScriptOp, SpriteCommand, StrokeCap, StrokeJoin, TextAlign,
    TextBase};

verus! {

// ---------------------------------------------------------------------------
// Wire-format writing primitives (specification)
// ---------------------------------------------------------------------------

/// The two big-endian bytes of a 16-bit value.
pub open spec fn enc16(v: u16) -> Seq<u8> {
    seq![(v / 0x100) as u8, (v % 0x100) as u8]
}

/// The four big-endian bytes of a 32-bit value.
pub open spec fn enc32(v: u32) -> Seq<u8> {
    seq![
        (v / 0x1000000) as u8,
        ((v / 0x10000) % 0x100) as u8,
        ((v / 0x100) % 0x100) as u8,
        (v % 0x100) as u8,
    ]
}

/// A color's wire bytes, in red/green/blue/alpha order.
pub open spec fn enc_color(c: Color) -> Seq<u8> {
    seq![c.r, c.g, c.b, c.a]
}

/// `n` zero bytes.
pub open spec fn zeros(n: int) -> Seq<u8> {
    Seq::new(n as nat, |k: int| 0u8)
}

/// A length-prefixed string payload: 2-byte length, the bytes, then zero
/// padding so the whole payload spans a multiple of 4 bytes.
pub open spec fn enc_id(id: Seq<u8>) -> Seq<u8> {
    enc16(id.len() as u16) + id + zeros(pad4(id.len() as int))
}

/// The 36 wire bytes of one sprite command record.
pub open spec fn enc_sprite(c: SpriteCommand) -> Seq<u8> {
    enc32(c.sx) + enc32(c.sy) + enc32(c.sw) + enc32(c.sh) + enc32(c.dx) + enc32(c.dy) + enc32(
        c.dw,
    ) + enc32(c.dh) + enc32(c.alpha)
}

/// The concatenated records of a sprite batch.
pub open spec fn enc_cmds(cmds: Seq<SpriteCommand>) -> Seq<u8>
    decreases cmds.len(),
{
    if cmds.len() == 0 {
        Seq::empty()
    } else {
        enc_cmds(cmds.drop_last()) + enc_sprite(cmds.last())
    }
}

/// The wire value of a clip mode.
pub open spec fn clip_code(m: ClipMode) -> u16 {
    match m {
        ClipMode::Intersect => 0x00,
        ClipMode::Difference => 0x01,
    }
}

/// The wire value of a stroke cap.
pub open spec fn cap_code(c: StrokeCap) -> u16 {
    match c {
        StrokeCap::Butt => 0x00,
        StrokeCap::Round => 0x01,
        StrokeCap::Square => 0x02,
    }
}

/// The wire value of a stroke join.
pub open spec fn join_code(j: StrokeJoin) -> u16 {
    match j {
        StrokeJoin::Bevel => 0x00,
        StrokeJoin::Round => 0x01,
        StrokeJoin::Miter => 0x02,
    }
}

/// The wire value of a text alignment.
pub open spec fn align_code(a: TextAlign) -> u16 {
    match a {
        TextAlign::Left => 0x00,
        TextAlign::Center => 0x01,
        TextAlign::Right => 0x02,
    }
}

/// The wire value of a text baseline.
pub open spec fn base_code(b: TextBase) -> u16 {
    match b {
        TextBase::Top => 0x00,
        TextBase::Middle => 0x01,
        TextBase::Alphabetic => 0x02,
        TextBase::Bottom => 0x03,
    }
}

/// The 2-byte tag of an operation's opcode.
pub open spec fn op_tag(op: OpV) -> u16 {
    match op {
        OpV::DrawLine { .. } => 0x01,
        OpV::DrawTriangle { .. } => 0x02,
        OpV::DrawQuad { .. } => 0x03,
        OpV::DrawRect { .. } => 0x04,
        OpV::DrawRRect { .. } => 0x05,
        OpV::DrawArc { .. } => 0x06,
        OpV::DrawSector { .. } => 0x07,
        OpV::DrawCircle { .. } => 0x08,
        OpV::DrawEllipse { .. } => 0x09,
        OpV::DrawText(..) => 0x0A,
        OpV::DrawSprites { .. } => 0x0B,
        OpV::DrawRRectV { .. } => 0x0C,
        OpV::DrawScript(..) => 0x0F,
        OpV::BeginPath => 0x20,
        OpV::ClosePath => 0x21,
        OpV::FillPath => 0x22,
        OpV::StrokePath => 0x23,
        OpV::MoveTo { .. } => 0x26,
        OpV::LineTo { .. } => 0x27,
        OpV::ArcTo { .. } => 0x28,
        OpV::BezierTo { .. } => 0x29,
        OpV::QuadraticTo { .. } => 0x2A,
        OpV::PathTriangle { .. } => 0x2B,
        OpV::PathQuad { .. } => 0x2C,
        OpV::PathRect { .. } => 0x2D,
        OpV::PathRRect { .. } => 0x2E,
        OpV::PathSector { .. } => 0x2F,
        OpV::PathCircle { .. } => 0x30,
        OpV::PathEllipse { .. } => 0x31,
        OpV::PathArc { .. } => 0x32,
        OpV::PushState => 0x40,
        OpV::PopState => 0x41,
        OpV::PopPushState => 0x42,
        OpV::Scissor { .. } => 0x44,
        OpV::ClipPath(..) => 0x45,
        OpV::Transform { .. } => 0x50,
        OpV::Scale(..) => 0x51,
        OpV::Rotate(..) => 0x52,
        OpV::Translate(..) => 0x53,
        OpV::FillColor(..) => 0x60,
        OpV::FillLinear { .. } => 0x61,
        OpV::FillRadial { .. } => 0x62,
        OpV::FillImage(..) => 0x63,
        OpV::FillStream(..) => 0x64,
        OpV::StrokeWidth(..) => 0x70,
        OpV::StrokeColor(..) => 0x71,
        OpV::StrokeLinear { .. } => 0x72,
        OpV::StrokeRadial { .. } => 0x73,
        OpV::StrokeImage(..) => 0x74,
        OpV::StrokeStream(..) => 0x75,
        OpV::StrokeCap(..) => 0x80,
        OpV::StrokeJoin(..) => 0x81,
        OpV::StrokeMiterLimit(..) => 0x82,
        OpV::Font(..) => 0x90,
        OpV::FontSize(..) => 0x91,
        OpV::TextAlign(..) => 0x92,
        OpV::TextBase(..) => 0x93,
    }
}

/// The string or identifier payload an operation carries, if any.
pub open spec fn string_payload(op: OpV) -> Option<Seq<u8>> {
    match op {
        OpV::DrawText(text) => Some(text),
        OpV::DrawScript(id) => Some(id),
        OpV::FillImage(id) => Some(id),
        OpV::FillStream(id) => Some(id),
        OpV::StrokeImage(id) => Some(id),
        OpV::StrokeStream(id) => Some(id),
        OpV::Font(id) => Some(id),
        _ => None,
    }
}

/// An operation the wire format can carry: every variable-length payload
/// fits its length prefix, and a sprite batch fits its 4-byte record count.
pub open spec fn wf_op(op: OpV) -> bool {
    match op {
        OpV::DrawText(text) => text.len() <= 0xFFFF,
        OpV::DrawScript(id) => id.len() <= 0xFFFF,
        OpV::FillImage(id) => id.len() <= 0xFFFF,
        OpV::FillStream(id) => id.len() <= 0xFFFF,
        OpV::StrokeImage(id) => id.len() <= 0xFFFF,
        OpV::StrokeStream(id) => id.len() <= 0xFFFF,
        OpV::Font(id) => id.len() <= 0xFFFF,
        OpV::DrawSprites { image_id, cmds } => image_id.len() <= 0xFFFF && cmds.len()
            <= 0xFFFFFFFF,
        _ => true,
    }
}

/// The exact wire bytes of one operation: its 2-byte tag, then its payload.
pub open spec fn spec_encode_op(op: OpV) -> Seq<u8> {
    enc16(op_tag(op)) + match op {
        OpV::PushState => enc16(0),
        OpV::PopState => enc16(0),
        OpV::PopPushState => enc16(0),
        OpV::Translate(x, y) => enc16(0) + enc32(x) + enc32(y),
        OpV::Rotate(radians) => enc16(0) + enc32(radians),
        OpV::Scale(x, y) => enc16(0) + enc32(x) + enc32(y),
        OpV::Transform { a, b, c, d, e, f } => enc16(0) + enc32(a) + enc32(b) + enc32(c) + enc32(
            d,
        ) + enc32(e) + enc32(f),
        OpV::FillColor(c) => enc16(0) + enc_color(c),
        OpV::StrokeColor(c) => enc16(0) + enc_color(c),
        OpV::StrokeWidth(w) => enc16(w),
        OpV::FillLinear { start_x, start_y, end_x, end_y, start_color, end_color } => enc16(0)
            + enc32(start_x) + enc32(start_y) + enc32(end_x) + enc32(end_y) + enc_color(
            start_color,
        ) + enc_color(end_color),
        OpV::FillRadial {
            center_x,
            center_y,
            inner_radius,
            outer_radius,
            start_color,
            end_color,
        } => enc16(0) + enc32(center_x) + enc32(center_y) + enc32(inner_radius) + enc32(
            outer_radius,
        ) + enc_color(start_color) + enc_color(end_color),
        OpV::StrokeLinear { start_x, start_y, end_x, end_y, start_color, end_color } => enc16(0)
            + enc32(start_x) + enc32(start_y) + enc32(end_x) + enc32(end_y) + enc_color(
            start_color,
        ) + enc_color(end_color),
        OpV::StrokeRadial {
            center_x,
            center_y,
            inner_radius,
            outer_radius,
            start_color,
            end_color,
        } => enc16(0) + enc32(center_x) + enc32(center_y) + enc32(inner_radius) + enc32(
            outer_radius,
        ) + enc_color(start_color) + enc_color(end_color),
        OpV::FillImage(id) => enc_id(id),
        OpV::FillStream(id) => enc_id(id),
        OpV::StrokeImage(id) => enc_id(id),
        OpV::StrokeStream(id) => enc_id(id),
        OpV::StrokeCap(cap) => enc16(cap_code(cap)),
        OpV::StrokeJoin(join) => enc16(join_code(join)),
        OpV::StrokeMiterLimit(limit) => enc16(limit),
        OpV::ClipPath(mode) => enc16(clip_code(mode)),
        OpV::Scissor { width, height } => enc16(0) + enc32(width) + enc32(height),
        OpV::BeginPath => enc16(0),
        OpV::ClosePath => enc16(0),
        OpV::FillPath => enc16(0),
        OpV::StrokePath => enc16(0),
        OpV::MoveTo { x, y } => enc16(0) + enc32(x) + enc32(y),
        OpV::LineTo { x, y } => enc16(0) + enc32(x) + enc32(y),
        OpV::ArcTo { x1, y1, x2, y2, radius } => enc16(0) + enc32(x1) + enc32(y1) + enc32(x2)
            + enc32(y2) + enc32(radius),
        OpV::BezierTo { cp1x, cp1y, cp2x, cp2y, x, y } => enc16(0) + enc32(cp1x) + enc32(cp1y)
            + enc32(cp2x) + enc32(cp2y) + enc32(x) + enc32(y),
        OpV::QuadraticTo { cpx, cpy, x, y } => enc16(0) + enc32(cpx) + enc32(cpy) + enc32(x)
            + enc32(y),
        OpV::PathTriangle { x0, y0, x1, y1, x2, y2 } => enc16(0) + enc32(x0) + enc32(y0) + enc32(
            x1,
        ) + enc32(y1) + enc32(x2) + enc32(y2),
        OpV::PathQuad { x0, y0, x1, y1, x2, y2, x3, y3 } => enc16(0) + enc32(x0) + enc32(y0)
            + enc32(x1) + enc32(y1) + enc32(x2) + enc32(y2) + enc32(x3) + enc32(y3),
        OpV::PathRect { width, height } => enc16(0) + enc32(width) + enc32(height),
        OpV::PathRRect { width, height, radius } => enc16(0) + enc32(width) + enc32(height)
            + enc32(radius),
        OpV::PathSector { radius, radians } => enc16(0) + enc32(radius) + enc32(radians),
        OpV::PathCircle { radius } => enc16(0) + enc32(radius),
        OpV::PathEllipse { radius0, radius1 } => enc16(0) + enc32(radius0) + enc32(radius1),
        OpV::PathArc { cx, cy, radius, start, end, dir } => enc16(0) + enc32(cx) + enc32(cy)
            + enc32(radius) + enc32(start) + enc32(end) + enc32(dir),
        OpV::DrawLine { x0, y0, x1, y1, flag } => enc16(flag) + enc32(x0) + enc32(y0) + enc32(x1)
            + enc32(y1),
        OpV::DrawTriangle { x0, y0, x1, y1, x2, y2, flag } => enc16(flag) + enc32(x0) + enc32(y0)
            + enc32(x1) + enc32(y1) + enc32(x2) + enc32(y2),
        OpV::DrawQuad { x0, y0, x1, y1, x2, y2, x3, y3, flag } => enc16(flag) + enc32(x0) + enc32(
            y0,
        ) + enc32(x1) + enc32(y1) + enc32(x2) + enc32(y2) + enc32(x3) + enc32(y3),
        OpV::DrawCircle { radius, flag } => enc16(flag) + enc32(radius),
        OpV::DrawEllipse { radius0, radius1, flag } => enc16(flag) + enc32(radius0) + enc32(
            radius1,
        ),
        OpV::DrawArc { radius, radians, flag } => enc16(flag) + enc32(radius) + enc32(radians),
        OpV::DrawSector { radius, radians, flag } => enc16(flag) + enc32(radius) + enc32(radians),
        OpV::DrawRect { width, height, flag } => enc16(flag) + enc32(width) + enc32(height),
        OpV::DrawRRect { width, height, radius, flag } => enc16(flag) + enc32(width) + enc32(
            height,
        ) + enc32(radius),
        OpV::DrawRRectV { width, height, ul_radius, ur_radius, lr_radius, ll_radius, flag } =>
            enc16(flag) + enc32(width) + enc32(height) + enc32(ul_radius) + enc32(ur_radius)
            + enc32(lr_radius) + enc32(ll_radius),
        OpV::DrawSprites { image_id, cmds } => enc16(image_id.len() as u16) + enc32(
            cmds.len() as u32,
        ) + image_id + zeros(pad4(image_id.len() as int)) + enc_cmds(cmds),
        OpV::DrawText(text) => enc_id(text),
        OpV::Font(id) => enc_id(id),
        OpV::FontSize(size) => enc16(size),
        OpV::TextAlign(align) => enc16(align_code(align)),
        OpV::TextBase(base) => enc16(base_code(base)),
        OpV::DrawScript(id) => enc_id(id),
    }
}

// ---------------------------------------------------------------------------
// Executable writing primitives
// ---------------------------------------------------------------------------

/// Appends the two big-endian bytes of a 16-bit value.
fn push_u16(out: &mut Vec<u8>, x: u16)
    ensures
        final(out)@ == old(out)@ + enc16(x),
{
    out.push((x / 0x100) as u8);
    out.push((x % 0x100) as u8);
    proof {
        assert(out@ =~= old(out)@ + enc16(x));
    }
}

/// Appends the four big-endian bytes of a 32-bit value.
fn push_u32(out: &mut Vec<u8>, x: u32)
    ensures
        final(out)@ == old(out)@ + enc32(x),
{
    out.push((x / 0x1000000) as u8);
    out.push(((x / 0x10000) % 0x100) as u8);
    out.push(((x / 0x100) % 0x100) as u8);
    out.push((x % 0x100) as u8);
    proof {
        assert(out@ =~= old(out)@ + enc32(x));
    }
}

/// Appends a color's wire bytes in red/green/blue/alpha order.
fn push_color(out: &mut Vec<u8>, c: Color)
    ensures
        final(out)@ == old(out)@ + enc_color(c),
{
    out.push(c.r);
    out.push(c.g);
    out.push(c.b);
    out.push(c.a);
    proof {
        assert(out@ =~= old(out)@ + enc_color(c));
    }
}

/// Appends a length-prefixed, padded string payload.
fn push_id(out: &mut Vec<u8>, id: &Vec<u8>)
    requires
        id@.len() <= 0xFFFF,
    ensures
        final(out)@ == old(out)@ + enc_id(id@),
{
    push_u16(out, id.len() as u16);
    let ghost mid = out@;
    let mut k: usize = 0;
    let len = id.len();
    while k < len
        invariant
            k <= len,
            len == id@.len(),
            out@ == mid + id@.subrange(0, k as int),
        decreases len - k,
    {
        out.push(id[k]);
        proof {
            assert(out@ =~= mid + id@.subrange(0, k as int + 1));
        }
        k += 1;
    }
    proof {
        assert(id@.subrange(0, id@.len() as int) =~= id@);
    }
    let ghost mid2 = out@;
    let pad = (4 - (len % 4)) % 4;
    let mut z: usize = 0;
    while z < pad
        invariant
            z <= pad,
            out@ == mid2 + zeros(z as int),
        decreases pad - z,
    {
        out.push(0u8);
        proof {
            assert(out@ =~= mid2 + zeros(z as int + 1));
        }
        z += 1;
    }
    proof {
        assert(out@ =~= old(out)@ + enc_id(id@));
    }
}

/// Encodes one immediate-draw, sprite, text or script-reference operation.
#[verifier::rlimit(100)]
fn encode_draw_op(op: &ScriptOp) -> (r: Vec<u8>)
    requires
        wf_op(op@),
        op_tag(op@) <= 0x1F,
    ensures
        r@ == spec_encode_op(op@),
{
    let mut out: Vec<u8> = Vec::new();
    match op {
        ScriptOp::DrawLine { x0, y0, x1, y1, flag } => {
            push_u16(&mut out, 0x01);
            push_u16(&mut out, *flag);
            push_u32(&mut out, *x0);
            push_u32(&mut out, *y0);
            push_u32(&mut out, *x1);
            push_u32(&mut out, *y1);
            proof {
                assert(out@ =~= spec_encode_op(op@));
            }
        },
        ScriptOp::DrawTriangle { x0, y0, x1, y1, x2, y2, flag } => {
            push_u16(&mut out, 0x02);
            push_u16(&mut out, *flag);
            push_u32(&mut out, *x0);
            push_u32(&mut out, *y0);
            push_u32(&mut out, *x1);
            push_u32(&mut out, *y1);
            push_u32(&mut out, *x2);
            push_u32(&mut out, *y2);
            proof {
                assert(out@ =~= spec_encode_op(op@));
            }
        },
        ScriptOp::DrawQuad { x0, y0, x1, y1, x2, y2, x3, y3, flag } => {
            push_u16(&mut out, 0x03);
            push_u16(&mut out, *flag);
            push_u32(&mut out, *x0);
            push_u32(&mut out, *y0);
            push_u32(&mut out, *x1);
            push_u32(&mut out, *y1);
            push_u32(&mut out, *x2);
            push_u32(&mut out, *y2);
            push_u32(&mut out, *x3);
            push_u32(&mut out, *y3);
            proof {
                assert(out@ =~= spec_encode_op(op@));
            }
        },
        ScriptOp::DrawRect { width, height, flag } => {
            push_u16(&mut out, 0x04);
            push_u16(&mut out, *flag);
            push_u32(&mut out, *width);
            push_u32(&mut out, *height);
            proof {
                assert(out@ =~= spec_encode_op(op@));
            }
        },
        ScriptOp::DrawRRect { width, height, radius, flag } => {
            push_u16(&mut out, 0x05);
            push_u16(&mut out, *flag);
            push_u32(&mut out, *width);
            push_u32(&mut out, *height);
            push_u32(&mut out, *radius);
            proof {
                assert(out@ =~= spec_encode_op(op@));
            }
        },
        ScriptOp::DrawArc { radius, radians, flag } => {
            push_u16(&mut out, 0x06);
            push_u16(&mut out, *flag);
            push_u32(&mut out, *radius);
            push_u32(&mut out, *radians);
            proof {
                assert(out@ =~= spec_encode_op(op@));
            }
        },
        ScriptOp::DrawSector { radius, radians, flag } => {
            push_u16(&mut out, 0x07);
            push_u16(&mut out, *flag);
            push_u32(&mut out, *radius);
            push_u32(&mut out, *radians);
            proof {
                assert(out@ =~= spec_encode_op(op@));
            }
        },
        ScriptOp::DrawCircle { radius, flag } => {
            push_u16(&mut out, 0x08);
            push_u16(&mut out, *flag);
            push_u32(&mut out, *radius);
            proof {
                assert(out@ =~= spec_encode_op(op@));
            }
        },
        ScriptOp::DrawEllipse { radius0, radius1, flag } => {
            push_u16(&mut out, 0x09);
            push_u16(&mut out, *flag);
            push_u32(&mut out, *radius0);
            push_u32(&mut out, *radius1);
            proof {
                assert(out@ =~= spec_encode_op(op@));
            }
        },
        ScriptOp::DrawText(text) => {
            push_u16(&mut out, 0x0A);
            push_id(&mut out, text);
            proof {
                assert(out@ =~= spec_encode_op(op@));
            }
        },
        ScriptOp::DrawSprites { image_id, cmds } => {
            push_u16(&mut out, 0x0B);
            push_u16(&mut out, image_id.len() as u16);
            push_u32(&mut out, cmds.len() as u32);
            let ghost mid = out@;
            let mut k: usize = 0;
            let len = image_id.len();
            while k < len
                invariant
                    k <= len,
                    len == image_id@.len(),
                    out@ == mid + image_id@.subrange(0, k as int),
                decreases len - k,
            {
                out.push(image_id[k]);
                proof {
                    assert(out@ =~= mid + image_id@.subrange(0, k as int + 1));
                }
                k += 1;
            }
            proof {
                assert(image_id@.subrange(0, image_id@.len() as int) =~= image_id@);
            }
            let ghost mid2 = out@;
            let pad = (4 - (len % 4)) % 4;
            let mut z: usize = 0;
            while z < pad
                invariant
                    z <= pad,
                    out@ == mid2 + zeros(z as int),
                decreases pad - z,
            {
                out.push(0u8);
                proof {
                    assert(out@ =~= mid2 + zeros(z as int + 1));
                }
                z += 1;
            }
            let ghost mid3 = out@;
            let mut c: usize = 0;
            let count = cmds.len();
            while c < count
                invariant
                    c <= count,
                    count == cmds@.len(),
                    out@ == mid3 + enc_cmds(cmds@.subrange(0, c as int)),
                decreases count - c,
            {
                let cmd = cmds[c];
                push_u32(&mut out, cmd.sx);
                push_u32(&mut out, cmd.sy);
                push_u32(&mut out, cmd.sw);
                push_u32(&mut out, cmd.sh);
                push_u32(&mut out, cmd.dx);
                push_u32(&mut out, cmd.dy);
                push_u32(&mut out, cmd.dw);
                push_u32(&mut out, cmd.dh);
                push_u32(&mut out, cmd.alpha);
                proof {
                    let pre = cmds@.subrange(0, c as int);
                    let post = cmds@.subrange(0, c as int + 1);
                    assert(post.drop_last() =~= pre);
                    assert(post.last() == cmds@[c as int]);
                    assert(out@ =~= mid3 + (enc_cmds(pre) + enc_sprite(cmds@[c as int])));
                    assert(out@ =~= mid3 + enc_cmds(post));
                }
                c += 1;
            }
            proof {
                assert(cmds@.subrange(0, cmds@.len() as int) =~= cmds@);
            }
            proof {
                assert(out@ =~= spec_encode_op(op@));
            }
        },
        ScriptOp::DrawRRectV { width, height, ul_radius, ur_radius, lr_radius, ll_radius, flag }
            => {
            push_u16(&mut out, 0x0C);
            push_u16(&mut out, *flag);
            push_u32(&mut out, *width);
            push_u32(&mut out, *height);
            push_u32(&mut out, *ul_radius);
            push_u32(&mut out, *ur_radius);
            push_u32(&mut out, *lr_radius);
            push_u32(&mut out, *ll_radius);
            proof {
                assert(out@ =~= spec_encode_op(op@));
            }
        },
        ScriptOp::DrawScript(id) => {
            push_u16(&mut out, 0x0F);
            push_id(&mut out, id);
            proof {
                assert(out@ =~= spec_encode_op(op@));
            }
        },
        _ => {
            proof {
                assert(false);
            }
        },
    }
    out
}

/// Encodes one path-construction operation.
#[verifier::rlimit(100)]
fn encode_path_op(op: &ScriptOp) -> (r: Vec<u8>)
    requires
        wf_op(op@),
        0x20 <= op_tag(op@) <= 0x3F,
    ensures
        r@ == spec_encode_op(op@),
{
    let mut out: Vec<u8> = Vec::new();
    match op {
        ScriptOp::BeginPath => {
            push_u16(&mut out, 0x20);
            push_u16(&mut out, 0);
            proof {
                assert(out@ =~= spec_encode_op(op@));
            }
        },
        ScriptOp::ClosePath => {
            push_u16(&mut out, 0x21);
            push_u16(&mut out, 0);
            proof {
                assert(out@ =~= spec_encode_op(op@));
            }
        },
        ScriptOp::FillPath => {
            push_u16(&mut out, 0x22);
            push_u16(&mut out, 0);
            proof {
                assert(out@ =~= spec_encode_op(op@));
            }
        },
        ScriptOp::StrokePath => {
            push_u16(&mut out, 0x23);
            push_u16(&mut out, 0);
            proof {
                assert(out@ =~= spec_encode_op(op@));
            }
        },
        ScriptOp::MoveTo { x, y } => {
            push_u16(&mut out, 0x26);
            push_u16(&mut out, 0);
            push_u32(&mut out, *x);
            push_u32(&mut out, *y);
            proof {
                assert(out@ =~= spec_encode_op(op@));
            }
        },
        ScriptOp::LineTo { x, y } => {
            push_u16(&mut out, 0x27);
            push_u16(&mut out, 0);
            push_u32(&mut out, *x);
            push_u32(&mut out, *y);
            proof {
                assert(out@ =~= spec_encode_op(op@));
            }
        },
        ScriptOp::ArcTo { x1, y1, x2, y2, radius } => {
            push_u16(&mut out, 0x28);
            push_u16(&mut out, 0);
            push_u32(&mut out, *x1);
            push_u32(&mut out, *y1);
            push_u32(&mut out, *x2);
            push_u32(&mut out, *y2);
            push_u32(&mut out, *radius);
            proof {
                assert(out@ =~= spec_encode_op(op@));
            }
        },
        ScriptOp::BezierTo { cp1x, cp1y, cp2x, cp2y, x, y } => {
            push_u16(&mut out, 0x29);
            push_u16(&mut out, 0);
            push_u32(&mut out, *cp1x);
            push_u32(&mut out, *cp1y);
            push_u32(&mut out, *cp2x);
            push_u32(&mut out, *cp2y);
            push_u32(&mut out, *x);
            push_u32(&mut out, *y);
            proof {
                assert(out@ =~= spec_encode_op(op@));
            }
        },
        ScriptOp::QuadraticTo { cpx, cpy, x, y } => {
            push_u16(&mut out, 0x2A);
            push_u16(&mut out, 0);
            push_u32(&mut out, *cpx);
            push_u32(&mut out, *cpy);
            push_u32(&mut out, *x);
            push_u32(&mut out, *y);
            proof {
                assert(out@ =~= spec_encode_op(op@));
            }
        },
        ScriptOp::PathTriangle { x0, y0, x1, y1, x2, y2 } => {
            push_u16(&mut out, 0x2B);
            push_u16(&mut out, 0);
            push_u32(&mut out, *x0);
            push_u32(&mut out, *y0);
            push_u32(&mut out, *x1);
            push_u32(&mut out, *y1);
            push_u32(&mut out, *x2);
            push_u32(&mut out, *y2);
            proof {
                assert(out@ =~= spec_encode_op(op@));
            }
        },
        ScriptOp::PathQuad { x0, y0, x1, y1, x2, y2, x3, y3 } => {
            push_u16(&mut out, 0x2C);
            push_u16(&mut out, 0);
            push_u32(&mut out, *x0);
            push_u32(&mut out, *y0);
            push_u32(&mut out, *x1);
            push_u32(&mut out, *y1);
            push_u32(&mut out, *x2);
            push_u32(&mut out, *y2);
            push_u32(&mut out, *x3);
            push_u32(&mut out, *y3);
            proof {
                assert(out@ =~= spec_encode_op(op@));
            }
        },
        ScriptOp::PathRect { width, height } => {
            push_u16(&mut out, 0x2D);
            push_u16(&mut out, 0);
            push_u32(&mut out, *width);
            push_u32(&mut out, *height);
            proof {
                assert(out@ =~= spec_encode_op(op@));
            }
        },
        ScriptOp::PathRRect { width, height, radius } => {
            push_u16(&mut out, 0x2E);
            push_u16(&mut out, 0);
            push_u32(&mut out, *width);
            push_u32(&mut out, *height);
            push_u32(&mut out, *radius);
            proof {
                assert(out@ =~= spec_encode_op(op@));
            }
        },
        ScriptOp::PathSector { radius, radians } => {
            push_u16(&mut out, 0x2F);
            push_u16(&mut out, 0);
            push_u32(&mut out, *radius);
            push_u32(&mut out, *radians);
            proof {
                assert(out@ =~= spec_encode_op(op@));
            }
        },
        ScriptOp::PathCircle { radius } => {
            push_u16(&mut out, 0x30);
            push_u16(&mut out, 0);
            push_u32(&mut out, *radius);
            proof {
                assert(out@ =~= spec_encode_op(op@));
            }
        },
        ScriptOp::PathEllipse { radius0, radius1 } => {
            push_u16(&mut out, 0x31);
            push_u16(&mut out, 0);
            push_u32(&mut out, *radius0);
            push_u32(&mut out, *radius1);
            proof {
                assert(out@ =~= spec_encode_op(op@));
            }
        },
        ScriptOp::PathArc { cx, cy, radius, start, end, dir } => {
            push_u16(&mut out, 0x32);
            push_u16(&mut out, 0);
            push_u32(&mut out, *cx);
            push_u32(&mut out, *cy);
            push_u32(&mut out, *radius);
            push_u32(&mut out, *start);
            push_u32(&mut out, *end);
            push_u32(&mut out, *dir);
            proof {
                assert(out@ =~= spec_encode_op(op@));
            }
        },
        _ => {
            proof {
                assert(false);
            }
        },
    }
    out
}

/// Encodes one state-stack, clip or transform operation.
#[verifier::rlimit(100)]
fn encode_state_op(op: &ScriptOp) -> (r: Vec<u8>)
    requires
        wf_op(op@),
        0x40 <= op_tag(op@) <= 0x5F,
    ensures
        r@ == spec_encode_op(op@),
{
    let mut out: Vec<u8> = Vec::new();
    match op {
        ScriptOp::PushState => {
            push_u16(&mut out, 0x40);
            push_u16(&mut out, 0);
            proof {
                assert(out@ =~= spec_encode_op(op@));
            }
        },
        ScriptOp::PopState => {
            push_u16(&mut out, 0x41);
            push_u16(&mut out, 0);
            proof {
                assert(out@ =~= spec_encode_op(op@));
            }
        },
        ScriptOp::PopPushState => {
            push_u16(&mut out, 0x42);
            push_u16(&mut out, 0);
            proof {
                assert(out@ =~= spec_encode_op(op@));
            }
        },
        ScriptOp::Scissor { width, height } => {
            push_u16(&mut out, 0x44);
            push_u16(&mut out, 0);
            push_u32(&mut out, *width);
            push_u32(&mut out, *height);
            proof {
                assert(out@ =~= spec_encode_op(op@));
            }
        },
        ScriptOp::ClipPath(mode) => {
            push_u16(&mut out, 0x45);
            match mode {
                ClipMode::Intersect => push_u16(&mut out, 0x00),
                ClipMode::Difference => push_u16(&mut out, 0x01),
            }
            proof {
                assert(out@ =~= spec_encode_op(op@));
            }
        },
        ScriptOp::Transform { a, b, c, d, e, f } => {
            push_u16(&mut out, 0x50);
            push_u16(&mut out, 0);
            push_u32(&mut out, *a);
            push_u32(&mut out, *b);
            push_u32(&mut out, *c);
            push_u32(&mut out, *d);
            push_u32(&mut out, *e);
            push_u32(&mut out, *f);
            proof {
                assert(out@ =~= spec_encode_op(op@));
            }
        },
        ScriptOp::Scale(x, y) => {
            push_u16(&mut out, 0x51);
            push_u16(&mut out, 0);
            push_u32(&mut out, *x);
            push_u32(&mut out, *y);
            proof {
                assert(out@ =~= spec_encode_op(op@));
            }
        },
        ScriptOp::Rotate(radians) => {
            push_u16(&mut out, 0x52);
            push_u16(&mut out, 0);
            push_u32(&mut out, *radians);
            proof {
                assert(out@ =~= spec_encode_op(op@));
            }
        },
        ScriptOp::Translate(x, y) => {
            push_u16(&mut out, 0x53);
            push_u16(&mut out, 0);
            push_u32(&mut out, *x);
            push_u32(&mut out, *y);
            proof {
                assert(out@ =~= spec_encode_op(op@));
            }
        },
        _ => {
            proof {
                assert(false);
            }
        },
    }
    out
}

/// Encodes one fill-paint or stroke-paint operation.
#[verifier::rlimit(100)]
fn encode_paint_op(op: &ScriptOp) -> (r: Vec<u8>)
    requires
        wf_op(op@),
        0x60 <= op_tag(op@) <= 0x7F,
    ensures
        r@ == spec_encode_op(op@),
{
    let mut out: Vec<u8> = Vec::new();
    match op {
        ScriptOp::FillColor(c) => {
            push_u16(&mut out, 0x60);
            push_u16(&mut out, 0);
            push_color(&mut out, *c);
            proof {
                assert(out@ =~= spec_encode_op(op@));
            }
        },
        ScriptOp::FillLinear { start_x, start_y, end_x, end_y, start_color, end_color } => {
            push_u16(&mut out, 0x61);
            push_u16(&mut out, 0);
            push_u32(&mut out, *start_x);
            push_u32(&mut out, *start_y);
            push_u32(&mut out, *end_x);
            push_u32(&mut out, *end_y);
            push_color(&mut out, *start_color);
            push_color(&mut out, *end_color);
            proof {
                assert(out@ =~= spec_encode_op(op@));
            }
        },
        ScriptOp::FillRadial {
            center_x,
            center_y,
            inner_radius,
            outer_radius,
            start_color,
            end_color,
        } => {
            push_u16(&mut out, 0x62);
            push_u16(&mut out, 0);
            push_u32(&mut out, *center_x);
            push_u32(&mut out, *center_y);
            push_u32(&mut out, *inner_radius);
            push_u32(&mut out, *outer_radius);
            push_color(&mut out, *start_color);
            push_color(&mut out, *end_color);
            proof {
                assert(out@ =~= spec_encode_op(op@));
            }
        },
        ScriptOp::FillImage(id) => {
            push_u16(&mut out, 0x63);
            push_id(&mut out, id);
            proof {
                assert(out@ =~= spec_encode_op(op@));
            }
        },
        ScriptOp::FillStream(id) => {
            push_u16(&mut out, 0x64);
            push_id(&mut out, id);
            proof {
                assert(out@ =~= spec_encode_op(op@));
            }
        },
        ScriptOp::StrokeWidth(w) => {
            push_u16(&mut out, 0x70);
            push_u16(&mut out, *w);
            proof {
                assert(out@ =~= spec_encode_op(op@));
            }
        },
        ScriptOp::StrokeColor(c) => {
            push_u16(&mut out, 0x71);
            push_u16(&mut out, 0);
            push_color(&mut out, *c);
            proof {
                assert(out@ =~= spec_encode_op(op@));
            }
        },
        ScriptOp::StrokeLinear { start_x, start_y, end_x, end_y, start_color, end_color } => {
            push_u16(&mut out, 0x72);
            push_u16(&mut out, 0);
            push_u32(&mut out, *start_x);
            push_u32(&mut out, *start_y);
            push_u32(&mut out, *end_x);
            push_u32(&mut out, *end_y);
            push_color(&mut out, *start_color);
            push_color(&mut out, *end_color);
            proof {
                assert(out@ =~= spec_encode_op(op@));
            }
        },
        ScriptOp::StrokeRadial {
            center_x,
            center_y,
            inner_radius,
            outer_radius,
            start_color,
            end_color,
        } => {
            push_u16(&mut out, 0x73);
            push_u16(&mut out, 0);
            push_u32(&mut out, *center_x);
            push_u32(&mut out, *center_y);
            push_u32(&mut out, *inner_radius);
            push_u32(&mut out, *outer_radius);
            push_color(&mut out, *start_color);
            push_color(&mut out, *end_color);
            proof {
                assert(out@ =~= spec_encode_op(op@));
            }
        },
        ScriptOp::StrokeImage(id) => {
            push_u16(&mut out, 0x74);
            push_id(&mut out, id);
            proof {
                assert(out@ =~= spec_encode_op(op@));
            }
        },
        ScriptOp::StrokeStream(id) => {
            push_u16(&mut out, 0x75);
            push_id(&mut out, id);
            proof {
                assert(out@ =~= spec_encode_op(op@));
            }
        },
        _ => {
            proof {
                assert(false);
            }
        },
    }
    out
}

/// Encodes one stroke-geometry or text operation.
#[verifier::rlimit(100)]
fn encode_text_op(op: &ScriptOp) -> (r: Vec<u8>)
    requires
        wf_op(op@),
        0x80 <= op_tag(op@),
    ensures
        r@ == spec_encode_op(op@),
{
    let mut out: Vec<u8> = Vec::new();
    match op {
        ScriptOp::StrokeCap(cap) => {
            push_u16(&mut out, 0x80);
            match cap {
                StrokeCap::Butt => push_u16(&mut out, 0x00),
                StrokeCap::Round => push_u16(&mut out, 0x01),
                StrokeCap::Square => push_u16(&mut out, 0x02),
            }
            proof {
                assert(out@ =~= spec_encode_op(op@));
            }
        },
        ScriptOp::StrokeJoin(join) => {
            push_u16(&mut out, 0x81);
            match join {
                StrokeJoin::Bevel => push_u16(&mut out, 0x00),
                StrokeJoin::Round => push_u16(&mut out, 0x01),
                StrokeJoin::Miter => push_u16(&mut out, 0x02),
            }
            proof {
                assert(out@ =~= spec_encode_op(op@));
            }
        },
        ScriptOp::StrokeMiterLimit(limit) => {
            push_u16(&mut out, 0x82);
            push_u16(&mut out, *limit);
            proof {
                assert(out@ =~= spec_encode_op(op@));
            }
        },
        ScriptOp::Font(id) => {
            push_u16(&mut out, 0x90);
            push_id(&mut out, id);
            proof {
                assert(out@ =~= spec_encode_op(op@));
            }
        },
        ScriptOp::FontSize(size) => {
            push_u16(&mut out, 0x91);
            push_u16(&mut out, *size);
            proof {
                assert(out@ =~= spec_encode_op(op@));
            }
        },
        ScriptOp::TextAlign(align) => {
            push_u16(&mut out, 0x92);
            match align {
                TextAlign::Left => push_u16(&mut out, 0x00),
                TextAlign::Center => push_u16(&mut out, 0x01),
                TextAlign::Right => push_u16(&mut out, 0x02),
            }
            proof {
                assert(out@ =~= spec_encode_op(op@));
            }
        },
        ScriptOp::TextBase(base) => {
            push_u16(&mut out, 0x93);
            match base {
                TextBase::Top => push_u16(&mut out, 0x00),
                TextBase::Middle => push_u16(&mut out, 0x01),
                TextBase::Alphabetic => push_u16(&mut out, 0x02),
                TextBase::Bottom => push_u16(&mut out, 0x03),
            }
            proof {
                assert(out@ =~= spec_encode_op(op@));
            }
        },
        _ => {
            proof {
                assert(false);
            }
        },
    }
    out
}

/// Encodes one operation into its exact wire bytes.
pub fn encode_op(op: &ScriptOp) -> (r: Vec<u8>)
    requires
        wf_op(op@),
    ensures
        r@ == spec_encode_op(op@),
{
    match op {
        ScriptOp::DrawLine { .. } | ScriptOp::DrawTriangle { .. } | ScriptOp::DrawQuad { .. } |
        ScriptOp::DrawRect { .. } | ScriptOp::DrawRRect { .. } | ScriptOp::DrawArc { .. } |
        ScriptOp::DrawSector { .. } | ScriptOp::DrawCircle { .. } |
        ScriptOp::DrawEllipse { .. } | ScriptOp::DrawText (..) | ScriptOp::DrawSprites { .. } |
        ScriptOp::DrawRRectV { .. } | ScriptOp::DrawScript (..) => encode_draw_op(op),
        ScriptOp::BeginPath | ScriptOp::ClosePath | ScriptOp::FillPath | ScriptOp::StrokePath |
        ScriptOp::MoveTo { .. } | ScriptOp::LineTo { .. } | ScriptOp::ArcTo { .. } |
        ScriptOp::BezierTo { .. } | ScriptOp::QuadraticTo { .. } |
        ScriptOp::PathTriangle { .. } | ScriptOp::PathQuad { .. } | ScriptOp::PathRect { .. } |
        ScriptOp::PathRRect { .. } | ScriptOp::PathSector { .. } | ScriptOp::PathCircle { .. } |
        ScriptOp::PathEllipse { .. } | ScriptOp::PathArc { .. } => encode_path_op(op),
        ScriptOp::PushState | ScriptOp::PopState | ScriptOp::PopPushState |
        ScriptOp::Scissor { .. } | ScriptOp::ClipPath (..) | ScriptOp::Transform { .. } |
        ScriptOp::Scale (..) | ScriptOp::Rotate (..) | ScriptOp::Translate (..) => encode_state_op(op),
        ScriptOp::FillColor (..) | ScriptOp::FillLinear { .. } | ScriptOp::FillRadial { .. } |
        ScriptOp::FillImage (..) | ScriptOp::FillStream (..) | ScriptOp::StrokeWidth (..) |
        ScriptOp::StrokeColor (..) | ScriptOp::StrokeLinear { .. } |
        ScriptOp::StrokeRadial { .. } | ScriptOp::StrokeImage (..) |
        ScriptOp::StrokeStream (..) => encode_paint_op(op),
        ScriptOp::StrokeCap (..) | ScriptOp::StrokeJoin (..) | ScriptOp::StrokeMiterLimit (..) |
        ScriptOp::Font (..) | ScriptOp::FontSize (..) | ScriptOp::TextAlign (..) |
        ScriptOp::TextBase (..) => encode_text_op(op),
    }
}


/// The wire bytes of a whole operation list, one encoded operation after
/// another.
pub open spec fn spec_encode_ops(ops: Seq<OpV>) -> Seq<u8>
    decreases ops.len(),
{
    if ops.len() == 0 {
        Seq::empty()
    } else {
        spec_encode_ops(ops.drop_last()) + spec_encode_op(ops.last())
    }
}

/// Encodes a whole operation list into one wire buffer.
pub fn encode_script(ops: &Vec<ScriptOp>) -> (r: Vec<u8>)
    requires
        forall|k: int| 0 <= k < ops@.len() ==> wf_op(#[trigger] ops@[k]@),
    ensures
        r@ == spec_encode_ops(crate::ops::ops_view(ops@)),
{
    let mut out: Vec<u8> = Vec::new();
    let mut k: usize = 0;
    let n = ops.len();
    while k < n
        invariant
            k <= n,
            n == ops@.len(),
            forall|t: int| 0 <= t < ops@.len() ==> wf_op(#[trigger] ops@[t]@),
            out@ == spec_encode_ops(crate::ops::ops_view(ops@.subrange(0, k as int))),
        decreases n - k,
    {
        let piece = encode_op(&ops[k]);
        let mut p = piece;
        let ghost pre_ops = crate::ops::ops_view(ops@.subrange(0, k as int));
        let ghost post_ops = crate::ops::ops_view(ops@.subrange(0, k as int + 1));
        let mut t: usize = 0;
        let m = p.len();
        let ghost mid = out@;
        while t < m
            invariant
                t <= m,
                m == p@.len(),
                out@ == mid + p@.subrange(0, t as int),
            decreases m - t,
        {
            out.push(p[t]);
            proof {
                assert(out@ =~= mid + p@.subrange(0, t as int + 1));
            }
            t += 1;
        }
        proof {
            assert(p@.subrange(0, p@.len() as int) =~= p@);
            assert(post_ops.drop_last() =~= pre_ops);
            assert(post_ops.last() == ops@[k as int]@);
            assert(out@ =~= spec_encode_ops(post_ops));
        }
        k += 1;
    }
    proof {
        assert(ops@.subrange(0, ops@.len() as int) =~= ops@);
    }
    out
}

} // verus!
