//! Laws of the wire format: encoding then decoding is the identity, a
//! truncated payload is rejected naming its opcode, an unrecognized tag is
//! rejected as unsupported, and a string payload spans exactly its padded
//! length.

use vstd::prelude::*;

use crate::codec::{
    DecodeError, IdStep, StepR, be16, be32, id_at, names_opcode, pad4, spec_decode,
    spec_decode_from, spec_step, sprite_at,
};
use crate::encode::{
    enc16, enc32, enc_cmds, enc_id, enc_sprite, op_tag, spec_encode_op, string_payload, wf_op,
    zeros,
};
use crate::ops::OpV;

verus! {

// ---------------------------------------------------------------------------
// Reconstruction of wire integers
// ---------------------------------------------------------------------------

/// Reading back the two bytes of a 16-bit value yields the value.
proof fn lemma_be16_at(b: Seq<u8>, i: int, v: u16)
    requires
        0 <= i,
        i + 2 <= b.len(),
        b[i] == (v / 0x100) as u8,
        b[i + 1] == (v % 0x100) as u8,
    ensures
        be16(b, i) == v,
{
}

/// Reading back the four bytes of a 32-bit value yields the value.
proof fn lemma_be32_at(b: Seq<u8>, i: int, v: u32)
    requires
        0 <= i,
        i + 4 <= b.len(),
        b[i] == (v / 0x1000000) as u8,
        b[i + 1] == ((v / 0x10000) % 0x100) as u8,
        b[i + 2] == ((v / 0x100) % 0x100) as u8,
        b[i + 3] == (v % 0x100) as u8,
    ensures
        be32(b, i) == v,
{
    assert(v == (v / 0x1000000) * 0x1000000 + ((v / 0x10000) % 0x100) * 0x10000 + ((v / 0x100)
        % 0x100) * 0x100 + (v % 0x100)) by (bit_vector);
}

// ---------------------------------------------------------------------------
// Shapes of encoded payloads
// ---------------------------------------------------------------------------

/// A string payload spans exactly its 2-byte length prefix, its bytes, and
/// its zero padding to the next multiple of 4.
pub proof fn lemma_enc_id_len(id: Seq<u8>)
    ensures
        enc_id(id).len() == 2 + id.len() + pad4(id.len() as int),
        0 <= pad4(id.len() as int) < 4,
        (id.len() + pad4(id.len() as int)) % 4 == 0,
{
    let l = id.len() as int;
    assert((l + (4 - l % 4) % 4) % 4 == 0) by (nonlinear_arith);
}

/// A sprite batch's records span exactly 36 bytes each.
proof fn lemma_enc_cmds_len(cmds: Seq<crate::ops::SpriteCommand>)
    ensures
        enc_cmds(cmds).len() == 36 * cmds.len(),
    decreases cmds.len(),
{
    if cmds.len() > 0 {
        lemma_enc_cmds_len(cmds.drop_last());
    }
}

/// Each record of a sprite batch sits at its own 36-byte slot.
#[verifier::rlimit(100)]
proof fn lemma_enc_cmds_index(cmds: Seq<crate::ops::SpriteCommand>, k: int)
    requires
        0 <= k < cmds.len(),
    ensures
        enc_cmds(cmds).subrange(36 * k, 36 * k + 36) == enc_sprite(cmds[k]),
    decreases cmds.len(),
{
    lemma_enc_cmds_len(cmds);
    lemma_enc_cmds_len(cmds.drop_last());
    let a = enc_cmds(cmds.drop_last());
    let s = enc_sprite(cmds.last());
    if k == cmds.len() - 1 {
        assert(a.len() == 36 * k);
        assert forall|m: int| 0 <= m < 36 implies enc_cmds(cmds)[36 * k + m] == s[m] by {
            assert(enc_cmds(cmds) == a + s);
            assert((a + s)[36 * k + m] == s[m]);
        }
        assert(enc_cmds(cmds).subrange(36 * k, 36 * k + 36) =~= s);
    } else {
        lemma_enc_cmds_index(cmds.drop_last(), k);
        let e = enc_sprite(cmds.drop_last()[k]);
        assert(cmds.drop_last()[k] == cmds[k]);
        assert forall|m: int| 0 <= m < 36 implies enc_cmds(cmds)[36 * k + m] == e[m] by {
            assert(enc_cmds(cmds) == a + s);
            assert(36 * k + 36 <= 36 * (cmds.len() - 1));
            assert((a + s)[36 * k + m] == a[36 * k + m]);
            assert(a[36 * k + m] == a.subrange(36 * k, 36 * k + 36)[m]);
        }
        assert(enc_cmds(cmds).subrange(36 * k, 36 * k + 36) =~= e);
    }
}

/// Reading back four bytes known as a chunk yields the encoded value.
proof fn lemma_be32_sub(b: Seq<u8>, i: int, v: u32)
    requires
        0 <= i,
        i + 4 <= b.len(),
        b.subrange(i, i + 4) == enc32(v),
    ensures
        be32(b, i) == v,
{
    assert(b[i] == b.subrange(i, i + 4)[0]);
    assert(b[i + 1] == b.subrange(i, i + 4)[1]);
    assert(b[i + 2] == b.subrange(i, i + 4)[2]);
    assert(b[i + 3] == b.subrange(i, i + 4)[3]);
    lemma_be32_at(b, i, v);
}

/// An encoded sprite record is its nine 4-byte fields in order.
#[verifier::rlimit(100)]
proof fn lemma_enc_sprite_chunks(c: crate::ops::SpriteCommand)
    ensures
        enc_sprite(c).len() == 36,
        enc_sprite(c).subrange(0, 4) == enc32(c.sx),
        enc_sprite(c).subrange(4, 8) == enc32(c.sy),
        enc_sprite(c).subrange(8, 12) == enc32(c.sw),
        enc_sprite(c).subrange(12, 16) == enc32(c.sh),
        enc_sprite(c).subrange(16, 20) == enc32(c.dx),
        enc_sprite(c).subrange(20, 24) == enc32(c.dy),
        enc_sprite(c).subrange(24, 28) == enc32(c.dw),
        enc_sprite(c).subrange(28, 32) == enc32(c.dh),
        enc_sprite(c).subrange(32, 36) == enc32(c.alpha),
{
    assert(enc_sprite(c).subrange(0, 4) =~= enc32(c.sx));
    assert(enc_sprite(c).subrange(4, 8) =~= enc32(c.sy));
    assert(enc_sprite(c).subrange(8, 12) =~= enc32(c.sw));
    assert(enc_sprite(c).subrange(12, 16) =~= enc32(c.sh));
    assert(enc_sprite(c).subrange(16, 20) =~= enc32(c.dx));
    assert(enc_sprite(c).subrange(20, 24) =~= enc32(c.dy));
    assert(enc_sprite(c).subrange(24, 28) =~= enc32(c.dw));
    assert(enc_sprite(c).subrange(28, 32) =~= enc32(c.dh));
    assert(enc_sprite(c).subrange(32, 36) =~= enc32(c.alpha));
}

/// Reading back one encoded sprite record yields the record.
#[verifier::rlimit(100)]
proof fn lemma_sprite_at_of_encode(b: Seq<u8>, j: int, c: crate::ops::SpriteCommand)
    requires
        0 <= j,
        j + 36 <= b.len(),
        b.subrange(j, j + 36) == enc_sprite(c),
    ensures
        sprite_at(b, j) == c,
{
    let e = enc_sprite(c);
    lemma_enc_sprite_chunks(c);
    assert forall|m: int| 0 <= m < 36 implies b[j + m] == e[m] by {
        assert(b.subrange(j, j + 36)[m] == b[j + m]);
    }
    assert(b.subrange(j, j + 4) =~= e.subrange(0, 4));
    assert(b.subrange(j + 4, j + 8) =~= e.subrange(4, 8));
    assert(b.subrange(j + 8, j + 12) =~= e.subrange(8, 12));
    assert(b.subrange(j + 12, j + 16) =~= e.subrange(12, 16));
    assert(b.subrange(j + 16, j + 20) =~= e.subrange(16, 20));
    assert(b.subrange(j + 20, j + 24) =~= e.subrange(20, 24));
    assert(b.subrange(j + 24, j + 28) =~= e.subrange(24, 28));
    assert(b.subrange(j + 28, j + 32) =~= e.subrange(28, 32));
    assert(b.subrange(j + 32, j + 36) =~= e.subrange(32, 36));
    lemma_be32_sub(b, j, c.sx);
    lemma_be32_sub(b, j + 4, c.sy);
    lemma_be32_sub(b, j + 8, c.sw);
    lemma_be32_sub(b, j + 12, c.sh);
    lemma_be32_sub(b, j + 16, c.dx);
    lemma_be32_sub(b, j + 20, c.dy);
    lemma_be32_sub(b, j + 24, c.dw);
    lemma_be32_sub(b, j + 28, c.dh);
    lemma_be32_sub(b, j + 32, c.alpha);
}

/// Reading back a run of encoded sprite records yields the records.
#[verifier::rlimit(100)]
proof fn lemma_cmds_at_of_encode(b: Seq<u8>, base: int, cmds: Seq<crate::ops::SpriteCommand>)
    requires
        0 <= base,
        base + 36 * cmds.len() <= b.len(),
        b.subrange(base, base + 36 * cmds.len()) == enc_cmds(cmds),
    ensures
        Seq::new(cmds.len(), |k: int| sprite_at(b, base + 36 * k)) == cmds,
{
    lemma_enc_cmds_len(cmds);
    let whole = b.subrange(base, base + 36 * cmds.len());
    assert forall|k: int| 0 <= k < cmds.len() implies sprite_at(b, base + 36 * k) == cmds[k] by {
        lemma_enc_cmds_index(cmds, k);
        assert forall|m: int| 0 <= m < 36 implies #[trigger] b.subrange(
            base + 36 * k,
            base + 36 * k + 36,
        )[m] == enc_cmds(cmds).subrange(36 * k, 36 * k + 36)[m] by {
            assert(whole[36 * k + m] == b[base + (36 * k + m)]);
            assert(base + (36 * k + m) == base + 36 * k + m);
        }
        assert(b.subrange(base + 36 * k, base + 36 * k + 36) =~= enc_cmds(cmds).subrange(
            36 * k,
            36 * k + 36,
        ));
        lemma_sprite_at_of_encode(b, base + 36 * k, cmds[k]);
    }
    assert(Seq::new(cmds.len(), |k: int| sprite_at(b, base + 36 * k)) =~= cmds);
}

/// Reading back a string payload that sits at offset 2, after the opcode
/// tag, yields the payload bytes and stops just past the padding.
proof fn lemma_id_at_of_encode(pre: Seq<u8>, id: Seq<u8>, t: Seq<u8>)
    requires
        pre.len() == 2,
        id.len() <= 0xFFFF,
    ensures
        id_at(pre + enc_id(id) + t, 2) == IdStep::Got(
            id,
            4 + id.len() + pad4(id.len() as int),
        ),
{
    let b = pre + enc_id(id) + t;
    let l = id.len() as int;
    let pad = pad4(l);
    lemma_enc_id_len(id);
    assert(b[2] == enc_id(id)[0]);
    assert(b[3] == enc_id(id)[1]);
    lemma_be16_at(b, 2, id.len() as u16);
    assert(b.subrange(4, 4 + l) =~= id);
}

// ---------------------------------------------------------------------------
// One decoding step undoes one encoding
// ---------------------------------------------------------------------------

/// Decoding at the head of an encoded immediate-draw, sprite, text or
/// script-reference operation yields that operation.
#[verifier::rlimit(100)]
proof fn lemma_step_enc_draw(op: OpV, t: Seq<u8>)
    requires
        wf_op(op),
        op_tag(op) <= 0x1F,
    ensures
        spec_encode_op(op).len() >= 4,
        spec_step(spec_encode_op(op) + t, 0) == StepR::Next(op, spec_encode_op(op).len() as int),
{
    let e = spec_encode_op(op);
    let b = e + t;
    lemma_be16_at(b, 0, op_tag(op));
    match op {
        OpV::DrawLine { x0, y0, x1, y1, flag } => {
            lemma_be16_at(b, 2, flag);
            lemma_be32_at(b, 4, x0);
            lemma_be32_at(b, 8, y0);
            lemma_be32_at(b, 12, x1);
            lemma_be32_at(b, 16, y1);
        },
        OpV::DrawTriangle { x0, y0, x1, y1, x2, y2, flag } => {
            lemma_be16_at(b, 2, flag);
            lemma_be32_at(b, 4, x0);
            lemma_be32_at(b, 8, y0);
            lemma_be32_at(b, 12, x1);
            lemma_be32_at(b, 16, y1);
            lemma_be32_at(b, 20, x2);
            lemma_be32_at(b, 24, y2);
        },
        OpV::DrawQuad { x0, y0, x1, y1, x2, y2, x3, y3, flag } => {
            lemma_be16_at(b, 2, flag);
            lemma_be32_at(b, 4, x0);
            lemma_be32_at(b, 8, y0);
            lemma_be32_at(b, 12, x1);
            lemma_be32_at(b, 16, y1);
            lemma_be32_at(b, 20, x2);
            lemma_be32_at(b, 24, y2);
            lemma_be32_at(b, 28, x3);
            lemma_be32_at(b, 32, y3);
        },
        OpV::DrawRect { width, height, flag } => {
            lemma_be16_at(b, 2, flag);
            lemma_be32_at(b, 4, width);
            lemma_be32_at(b, 8, height);
        },
        OpV::DrawRRect { width, height, radius, flag } => {
            lemma_be16_at(b, 2, flag);
            lemma_be32_at(b, 4, width);
            lemma_be32_at(b, 8, height);
            lemma_be32_at(b, 12, radius);
        },
        OpV::DrawArc { radius, radians, flag } => {
            lemma_be16_at(b, 2, flag);
            lemma_be32_at(b, 4, radius);
            lemma_be32_at(b, 8, radians);
        },
        OpV::DrawSector { radius, radians, flag } => {
            lemma_be16_at(b, 2, flag);
            lemma_be32_at(b, 4, radius);
            lemma_be32_at(b, 8, radians);
        },
        OpV::DrawCircle { radius, flag } => {
            lemma_be16_at(b, 2, flag);
            lemma_be32_at(b, 4, radius);
        },
        OpV::DrawEllipse { radius0, radius1, flag } => {
            lemma_be16_at(b, 2, flag);
            lemma_be32_at(b, 4, radius0);
            lemma_be32_at(b, 8, radius1);
        },
        OpV::DrawText(text) => {
            lemma_id_at_of_encode(enc16(op_tag(op)), text, t);
            assert(enc16(op_tag(op)) + enc_id(text) + t =~= b);
        },
        OpV::DrawSprites { image_id, cmds } => {
            lemma_step_enc_sprites(image_id, cmds, t);
        },
        OpV::DrawRRectV { width, height, ul_radius, ur_radius, lr_radius, ll_radius, flag } => {
            lemma_be16_at(b, 2, flag);
            lemma_be32_at(b, 4, width);
            lemma_be32_at(b, 8, height);
            lemma_be32_at(b, 12, ul_radius);
            lemma_be32_at(b, 16, ur_radius);
            lemma_be32_at(b, 20, lr_radius);
            lemma_be32_at(b, 24, ll_radius);
        },
        OpV::DrawScript(id) => {
            lemma_id_at_of_encode(enc16(op_tag(op)), id, t);
            assert(enc16(op_tag(op)) + enc_id(id) + t =~= b);
        },
        _ => {},
    }
}

/// Decoding at the head of an encoded sprite batch yields the batch.
#[verifier::rlimit(100)]
proof fn lemma_step_enc_sprites(image_id: Seq<u8>, cmds: Seq<crate::ops::SpriteCommand>, t: Seq<
    u8,
>)
    requires
        image_id.len() <= 0xFFFF,
        cmds.len() <= 0xFFFFFFFF,
    ensures
        spec_encode_op(OpV::DrawSprites { image_id, cmds }).len() >= 4,
        spec_step(spec_encode_op(OpV::DrawSprites { image_id, cmds }) + t, 0) == StepR::Next(
            OpV::DrawSprites { image_id, cmds },
            spec_encode_op(OpV::DrawSprites { image_id, cmds }).len() as int,
        ),
{
    let op = OpV::DrawSprites { image_id, cmds };
    let e = spec_encode_op(op);
    let b = e + t;
    let l = image_id.len() as int;
    let pad = pad4(l);
    let count = cmds.len() as int;
    let base = 8 + l + pad;
    lemma_sprites_layout(image_id, cmds, t);
    lemma_cmds_at_of_encode(b, base, cmds);
    assert(Seq::new(count as nat, |k: int| sprite_at(b, base + 36 * k)) == cmds);
    assert(count * 36 == 36 * count);
}

/// The byte layout of an encoded sprite batch: identifier length, record
/// count, identifier bytes and record bytes each at their own offsets.
#[verifier::rlimit(100)]
proof fn lemma_sprites_layout(image_id: Seq<u8>, cmds: Seq<crate::ops::SpriteCommand>, t: Seq<
    u8,
>)
    requires
        image_id.len() <= 0xFFFF,
        cmds.len() <= 0xFFFFFFFF,
    ensures
        spec_encode_op(OpV::DrawSprites { image_id, cmds }).len() == 8 + image_id.len() + pad4(
            image_id.len() as int,
        ) + 36 * cmds.len(),
        be16(spec_encode_op(OpV::DrawSprites { image_id, cmds }) + t, 0) == 0x0B,
        be16(spec_encode_op(OpV::DrawSprites { image_id, cmds }) + t, 2)
            == image_id.len() as u16,
        be32(spec_encode_op(OpV::DrawSprites { image_id, cmds }) + t, 4) == cmds.len() as u32,
        (spec_encode_op(OpV::DrawSprites { image_id, cmds }) + t).subrange(
            8,
            8 + image_id.len() as int,
        ) == image_id,
        (spec_encode_op(OpV::DrawSprites { image_id, cmds }) + t).subrange(
            8 + image_id.len() + pad4(image_id.len() as int),
            8 + image_id.len() + pad4(image_id.len() as int) + 36 * cmds.len(),
        ) == enc_cmds(cmds),
{
    let op = OpV::DrawSprites { image_id, cmds };
    let e = spec_encode_op(op);
    let b = e + t;
    let l = image_id.len() as int;
    let pad = pad4(l);
    lemma_enc_id_len(image_id);
    lemma_enc_cmds_len(cmds);
    let q = enc16(0x0Bu16) + enc16(image_id.len() as u16) + enc32(cmds.len() as u32);
    let z = zeros(pad);
    let c = enc_cmds(cmds);
    assert(b =~= q + image_id + z + c + t);
    lemma_concat_window(q, image_id, z, c, t);
    lemma_be16_at(b, 0, 0x0B);
    lemma_be16_at(b, 2, image_id.len() as u16);
    lemma_be32_at(b, 4, cmds.len() as u32);
}

/// In a five-part concatenation, the second and fourth parts sit at their
/// own offsets.
proof fn lemma_concat_window(q: Seq<u8>, id: Seq<u8>, z: Seq<u8>, c: Seq<u8>, t: Seq<u8>)
    ensures
        (q + id + z + c + t).subrange(q.len() as int, (q.len() + id.len()) as int) == id,
        (q + id + z + c + t).subrange(
            (q.len() + id.len() + z.len()) as int,
            (q.len() + id.len() + z.len() + c.len()) as int,
        ) == c,
{
    assert((q + id + z + c + t).subrange(q.len() as int, (q.len() + id.len()) as int) =~= id);
    assert((q + id + z + c + t).subrange(
        (q.len() + id.len() + z.len()) as int,
        (q.len() + id.len() + z.len() + c.len()) as int,
    ) =~= c);
}

/// Decoding at the head of an encoded path-construction operation yields
/// that operation.
#[verifier::rlimit(100)]
proof fn lemma_step_enc_path(op: OpV, t: Seq<u8>)
    requires
        wf_op(op),
        0x20 <= op_tag(op) <= 0x3F,
    ensures
        spec_encode_op(op).len() >= 4,
        spec_step(spec_encode_op(op) + t, 0) == StepR::Next(op, spec_encode_op(op).len() as int),
{
    let e = spec_encode_op(op);
    let b = e + t;
    lemma_be16_at(b, 0, op_tag(op));
    match op {
        OpV::MoveTo { x, y } => {
            lemma_be32_at(b, 4, x);
            lemma_be32_at(b, 8, y);
        },
        OpV::LineTo { x, y } => {
            lemma_be32_at(b, 4, x);
            lemma_be32_at(b, 8, y);
        },
        OpV::ArcTo { x1, y1, x2, y2, radius } => {
            lemma_be32_at(b, 4, x1);
            lemma_be32_at(b, 8, y1);
            lemma_be32_at(b, 12, x2);
            lemma_be32_at(b, 16, y2);
            lemma_be32_at(b, 20, radius);
        },
        OpV::BezierTo { cp1x, cp1y, cp2x, cp2y, x, y } => {
            lemma_be32_at(b, 4, cp1x);
            lemma_be32_at(b, 8, cp1y);
            lemma_be32_at(b, 12, cp2x);
            lemma_be32_at(b, 16, cp2y);
            lemma_be32_at(b, 20, x);
            lemma_be32_at(b, 24, y);
        },
        OpV::QuadraticTo { cpx, cpy, x, y } => {
            lemma_be32_at(b, 4, cpx);
            lemma_be32_at(b, 8, cpy);
            lemma_be32_at(b, 12, x);
            lemma_be32_at(b, 16, y);
        },
        OpV::PathTriangle { x0, y0, x1, y1, x2, y2 } => {
            lemma_be32_at(b, 4, x0);
            lemma_be32_at(b, 8, y0);
            lemma_be32_at(b, 12, x1);
            lemma_be32_at(b, 16, y1);
            lemma_be32_at(b, 20, x2);
            lemma_be32_at(b, 24, y2);
        },
        OpV::PathQuad { x0, y0, x1, y1, x2, y2, x3, y3 } => {
            lemma_be32_at(b, 4, x0);
            lemma_be32_at(b, 8, y0);
            lemma_be32_at(b, 12, x1);
            lemma_be32_at(b, 16, y1);
            lemma_be32_at(b, 20, x2);
            lemma_be32_at(b, 24, y2);
            lemma_be32_at(b, 28, x3);
            lemma_be32_at(b, 32, y3);
        },
        OpV::PathRect { width, height } => {
            lemma_be32_at(b, 4, width);
            lemma_be32_at(b, 8, height);
        },
        OpV::PathRRect { width, height, radius } => {
            lemma_be32_at(b, 4, width);
            lemma_be32_at(b, 8, height);
            lemma_be32_at(b, 12, radius);
        },
        OpV::PathSector { radius, radians } => {
            lemma_be32_at(b, 4, radius);
            lemma_be32_at(b, 8, radians);
        },
        OpV::PathCircle { radius } => {
            lemma_be32_at(b, 4, radius);
        },
        OpV::PathEllipse { radius0, radius1 } => {
            lemma_be32_at(b, 4, radius0);
            lemma_be32_at(b, 8, radius1);
        },
        OpV::PathArc { cx, cy, radius, start, end, dir } => {
            lemma_be32_at(b, 4, cx);
            lemma_be32_at(b, 8, cy);
            lemma_be32_at(b, 12, radius);
            lemma_be32_at(b, 16, start);
            lemma_be32_at(b, 20, end);
            lemma_be32_at(b, 24, dir);
        },
        _ => {},
    }
}

/// Decoding at the head of an encoded state-stack, clip or transform
/// operation yields that operation.
#[verifier::rlimit(100)]
proof fn lemma_step_enc_state(op: OpV, t: Seq<u8>)
    requires
        wf_op(op),
        0x40 <= op_tag(op) <= 0x5F,
    ensures
        spec_encode_op(op).len() >= 4,
        spec_step(spec_encode_op(op) + t, 0) == StepR::Next(op, spec_encode_op(op).len() as int),
{
    let e = spec_encode_op(op);
    let b = e + t;
    lemma_be16_at(b, 0, op_tag(op));
    match op {
        OpV::Scissor { width, height } => {
            lemma_be32_at(b, 4, width);
            lemma_be32_at(b, 8, height);
        },
        OpV::ClipPath(mode) => {
            lemma_be16_at(b, 2, crate::encode::clip_code(mode));
        },
        OpV::Transform { a, b: tb, c, d, e: te, f } => {
            lemma_be32_at(b, 4, a);
            lemma_be32_at(b, 8, tb);
            lemma_be32_at(b, 12, c);
            lemma_be32_at(b, 16, d);
            lemma_be32_at(b, 20, te);
            lemma_be32_at(b, 24, f);
        },
        OpV::Scale(x, y) => {
            lemma_be32_at(b, 4, x);
            lemma_be32_at(b, 8, y);
        },
        OpV::Rotate(radians) => {
            lemma_be32_at(b, 4, radians);
        },
        OpV::Translate(x, y) => {
            lemma_be32_at(b, 4, x);
            lemma_be32_at(b, 8, y);
        },
        _ => {},
    }
}

/// Decoding at the head of an encoded paint-assignment operation yields
/// that operation.
#[verifier::rlimit(100)]
proof fn lemma_step_enc_paint(op: OpV, t: Seq<u8>)
    requires
        wf_op(op),
        0x60 <= op_tag(op) <= 0x7F,
    ensures
        spec_encode_op(op).len() >= 4,
        spec_step(spec_encode_op(op) + t, 0) == StepR::Next(op, spec_encode_op(op).len() as int),
{
    let e = spec_encode_op(op);
    let b = e + t;
    lemma_be16_at(b, 0, op_tag(op));
    match op {
        OpV::FillLinear { start_x, start_y, end_x, end_y, .. } => {
            lemma_be32_at(b, 4, start_x);
            lemma_be32_at(b, 8, start_y);
            lemma_be32_at(b, 12, end_x);
            lemma_be32_at(b, 16, end_y);
        },
        OpV::FillRadial { center_x, center_y, inner_radius, outer_radius, .. } => {
            lemma_be32_at(b, 4, center_x);
            lemma_be32_at(b, 8, center_y);
            lemma_be32_at(b, 12, inner_radius);
            lemma_be32_at(b, 16, outer_radius);
        },
        OpV::FillImage(id) => {
            lemma_id_at_of_encode(enc16(op_tag(op)), id, t);
            assert(enc16(op_tag(op)) + enc_id(id) + t =~= b);
        },
        OpV::FillStream(id) => {
            lemma_id_at_of_encode(enc16(op_tag(op)), id, t);
            assert(enc16(op_tag(op)) + enc_id(id) + t =~= b);
        },
        OpV::StrokeWidth(w) => {
            lemma_be16_at(b, 2, w);
        },
        OpV::StrokeLinear { start_x, start_y, end_x, end_y, .. } => {
            lemma_be32_at(b, 4, start_x);
            lemma_be32_at(b, 8, start_y);
            lemma_be32_at(b, 12, end_x);
            lemma_be32_at(b, 16, end_y);
        },
        OpV::StrokeRadial { center_x, center_y, inner_radius, outer_radius, .. } => {
            lemma_be32_at(b, 4, center_x);
            lemma_be32_at(b, 8, center_y);
            lemma_be32_at(b, 12, inner_radius);
            lemma_be32_at(b, 16, outer_radius);
        },
        OpV::StrokeImage(id) => {
            lemma_id_at_of_encode(enc16(op_tag(op)), id, t);
            assert(enc16(op_tag(op)) + enc_id(id) + t =~= b);
        },
        OpV::StrokeStream(id) => {
            lemma_id_at_of_encode(enc16(op_tag(op)), id, t);
            assert(enc16(op_tag(op)) + enc_id(id) + t =~= b);
        },
        _ => {},
    }
}

/// Decoding at the head of an encoded stroke-geometry or text operation
/// yields that operation.
#[verifier::rlimit(100)]
proof fn lemma_step_enc_text(op: OpV, t: Seq<u8>)
    requires
        wf_op(op),
        0x80 <= op_tag(op),
    ensures
        spec_encode_op(op).len() >= 4,
        spec_step(spec_encode_op(op) + t, 0) == StepR::Next(op, spec_encode_op(op).len() as int),
{
    let e = spec_encode_op(op);
    let b = e + t;
    lemma_be16_at(b, 0, op_tag(op));
    match op {
        OpV::StrokeCap(cap) => {
            lemma_be16_at(b, 2, crate::encode::cap_code(cap));
        },
        OpV::StrokeJoin(join) => {
            lemma_be16_at(b, 2, crate::encode::join_code(join));
        },
        OpV::StrokeMiterLimit(limit) => {
            lemma_be16_at(b, 2, limit);
        },
        OpV::Font(id) => {
            lemma_id_at_of_encode(enc16(op_tag(op)), id, t);
            assert(enc16(op_tag(op)) + enc_id(id) + t =~= b);
        },
        OpV::FontSize(size) => {
            lemma_be16_at(b, 2, size);
        },
        OpV::TextAlign(align) => {
            lemma_be16_at(b, 2, crate::encode::align_code(align));
        },
        OpV::TextBase(base) => {
            lemma_be16_at(b, 2, crate::encode::base_code(base));
        },
        _ => {},
    }
}

/// Decoding at the head of any encoded operation, whatever follows it,
/// yields that operation and consumes exactly its encoding.
pub proof fn lemma_step_of_encode(op: OpV, t: Seq<u8>)
    requires
        wf_op(op),
    ensures
        spec_encode_op(op).len() >= 4,
        spec_step(spec_encode_op(op) + t, 0) == StepR::Next(op, spec_encode_op(op).len() as int),
{
    if op_tag(op) <= 0x1F {
        lemma_step_enc_draw(op, t);
    } else if op_tag(op) <= 0x3F {
        lemma_step_enc_path(op, t);
    } else if op_tag(op) <= 0x5F {
        lemma_step_enc_state(op, t);
    } else if op_tag(op) <= 0x7F {
        lemma_step_enc_paint(op, t);
    } else {
        lemma_step_enc_text(op, t);
    }
}

// ---------------------------------------------------------------------------
// Round trip
// ---------------------------------------------------------------------------

/// For every well-formed operation, decoding its encoding yields exactly
/// that one operation.
pub proof fn lemma_round_trip(op: OpV)
    requires
        wf_op(op),
    ensures
        spec_decode(spec_encode_op(op)) == Ok::<Seq<OpV>, DecodeError>(seq![op]),
{
    let e = spec_encode_op(op);
    lemma_step_of_encode(op, Seq::empty());
    assert(e + Seq::<u8>::empty() =~= e);
    assert(spec_step(e, 0) == StepR::Next(op, e.len() as int));
    assert(spec_decode_from(e, e.len() as int) == Ok::<Seq<OpV>, DecodeError>(Seq::empty()));
    assert(seq![op] + Seq::<OpV>::empty() =~= seq![op]);
}

// ---------------------------------------------------------------------------
// Truncation is always detected
// ---------------------------------------------------------------------------

/// A truncated string payload is reported as missing its length prefix or
/// as running past the end of the buffer.
proof fn lemma_trunc_id(tag: u16, id: Seq<u8>, k: int)
    requires
        id.len() <= 0xFFFF,
        2 <= k,
        k < (enc16(tag) + enc_id(id)).len(),
    ensures
        k < 4 ==> id_at((enc16(tag) + enc_id(id)).take(k), 2) is NoLen,
        k >= 4 ==> id_at((enc16(tag) + enc_id(id)).take(k), 2) is Short,
{
    let e = enc16(tag) + enc_id(id);
    let b = e.take(k);
    lemma_enc_id_len(id);
    if k >= 4 {
        assert(b[2] == enc_id(id)[0]);
        assert(b[3] == enc_id(id)[1]);
        lemma_be16_at(b, 2, id.len() as u16);
    }
}

/// Truncating an encoded immediate-draw, sprite, text or script-reference
/// operation inside its payload yields an error naming its opcode.
#[verifier::rlimit(100)]
proof fn lemma_trunc_draw(op: OpV, k: int)
    requires
        wf_op(op),
        op_tag(op) <= 0x1F,
        2 <= k,
        k < spec_encode_op(op).len(),
    ensures
        match spec_decode(spec_encode_op(op).take(k)) {
            Err(err) => names_opcode(err, op_tag(op)),
            Ok(_) => false,
        },
{
    let e = spec_encode_op(op);
    let b = e.take(k);
    lemma_be16_at(b, 0, op_tag(op));
    match op {
        OpV::DrawText(text) => {
            lemma_trunc_id(op_tag(op), text, k);
        },
        OpV::DrawScript(id) => {
            lemma_trunc_id(op_tag(op), id, k);
        },
        OpV::DrawSprites { image_id, cmds } => {
            let l = image_id.len() as int;
            let pad = pad4(l);
            let count = cmds.len() as int;
            lemma_enc_id_len(image_id);
            lemma_enc_cmds_len(cmds);
            assert(e.len() == 8 + l + pad + 36 * count);
            if k >= 8 {
                assert(b[2] == e[2]);
                assert(b[3] == e[3]);
                lemma_be16_at(b, 2, image_id.len() as u16);
                if k >= 8 + l + pad {
                    lemma_be32_at(b, 4, cmds.len() as u32);
                    assert(count * 36 == 36 * count);
                }
            }
        },
        _ => {},
    }
}

/// Truncating an encoded path-construction operation inside its payload
/// yields an error naming its opcode.
#[verifier::rlimit(100)]
proof fn lemma_trunc_path(op: OpV, k: int)
    requires
        wf_op(op),
        0x20 <= op_tag(op) <= 0x3F,
        2 <= k,
        k < spec_encode_op(op).len(),
    ensures
        match spec_decode(spec_encode_op(op).take(k)) {
            Err(err) => names_opcode(err, op_tag(op)),
            Ok(_) => false,
        },
{
    let e = spec_encode_op(op);
    let b = e.take(k);
    lemma_be16_at(b, 0, op_tag(op));
}

/// Truncating an encoded state-stack, clip or transform operation inside
/// its payload yields an error naming its opcode.
#[verifier::rlimit(100)]
proof fn lemma_trunc_state(op: OpV, k: int)
    requires
        wf_op(op),
        0x40 <= op_tag(op) <= 0x5F,
        2 <= k,
        k < spec_encode_op(op).len(),
    ensures
        match spec_decode(spec_encode_op(op).take(k)) {
            Err(err) => names_opcode(err, op_tag(op)),
            Ok(_) => false,
        },
{
    let e = spec_encode_op(op);
    let b = e.take(k);
    lemma_be16_at(b, 0, op_tag(op));
}

/// Truncating an encoded paint-assignment operation inside its payload
/// yields an error naming its opcode.
#[verifier::rlimit(100)]
proof fn lemma_trunc_paint(op: OpV, k: int)
    requires
        wf_op(op),
        0x60 <= op_tag(op) <= 0x7F,
        2 <= k,
        k < spec_encode_op(op).len(),
    ensures
        match spec_decode(spec_encode_op(op).take(k)) {
            Err(err) => names_opcode(err, op_tag(op)),
            Ok(_) => false,
        },
{
    let e = spec_encode_op(op);
    let b = e.take(k);
    lemma_be16_at(b, 0, op_tag(op));
    match op {
        OpV::FillImage(id) => {
            lemma_trunc_id(op_tag(op), id, k);
        },
        OpV::FillStream(id) => {
            lemma_trunc_id(op_tag(op), id, k);
        },
        OpV::StrokeImage(id) => {
            lemma_trunc_id(op_tag(op), id, k);
        },
        OpV::StrokeStream(id) => {
            lemma_trunc_id(op_tag(op), id, k);
        },
        _ => {},
    }
}

/// Truncating an encoded stroke-geometry or text operation inside its
/// payload yields an error naming its opcode.
#[verifier::rlimit(100)]
proof fn lemma_trunc_text(op: OpV, k: int)
    requires
        wf_op(op),
        0x80 <= op_tag(op),
        2 <= k,
        k < spec_encode_op(op).len(),
    ensures
        match spec_decode(spec_encode_op(op).take(k)) {
            Err(err) => names_opcode(err, op_tag(op)),
            Ok(_) => false,
        },
{
    let e = spec_encode_op(op);
    let b = e.take(k);
    lemma_be16_at(b, 0, op_tag(op));
    match op {
        OpV::Font(id) => {
            lemma_trunc_id(op_tag(op), id, k);
        },
        _ => {},
    }
}

/// Truncating any well-formed encoded operation by at least one byte, but
/// keeping its 2-byte tag, yields a decode error naming that opcode.
pub proof fn lemma_truncation(op: OpV, k: int)
    requires
        wf_op(op),
        2 <= k,
        k < spec_encode_op(op).len(),
    ensures
        match spec_decode(spec_encode_op(op).take(k)) {
            Err(err) => names_opcode(err, op_tag(op)),
            Ok(_) => false,
        },
{
    if op_tag(op) <= 0x1F {
        lemma_trunc_draw(op, k);
    } else if op_tag(op) <= 0x3F {
        lemma_trunc_path(op, k);
    } else if op_tag(op) <= 0x5F {
        lemma_trunc_state(op, k);
    } else if op_tag(op) <= 0x7F {
        lemma_trunc_paint(op, k);
    } else {
        lemma_trunc_text(op, k);
    }
}

// ---------------------------------------------------------------------------
// Unrecognized tags and payload sizes
// ---------------------------------------------------------------------------

/// A buffer that opens with an unrecognized 2-byte tag is rejected whole as
/// an unsupported opcode.
pub proof fn lemma_unsupported_opcode(b: Seq<u8>)
    requires
        b.len() >= 2,
        !crate::codec::supported_tag(be16(b, 0)),
    ensures
        spec_decode(b) == Err::<Seq<OpV>, DecodeError>(
            DecodeError::UnsupportedOpcode { tag: be16(b, 0) },
        ),
{
}

/// A string or identifier payload of length `L` spans exactly
/// `L + ((4 - L % 4) % 4)` bytes on the wire, after its 2-byte tag and
/// 2-byte length prefix; decoding consumes exactly that many bytes.
#[verifier::rlimit(100)]
pub proof fn lemma_string_payload_size(op: OpV, t: Seq<u8>)
    requires
        wf_op(op),
        string_payload(op) is Some,
    ensures
        spec_encode_op(op).len() == 4 + string_payload(op).unwrap().len() + pad4(
            string_payload(op).unwrap().len() as int,
        ),
        spec_step(spec_encode_op(op) + t, 0) == StepR::Next(
            op,
            4 + string_payload(op).unwrap().len() + pad4(
                string_payload(op).unwrap().len() as int,
            ),
        ),
{
    let id = string_payload(op).unwrap();
    match op {
        OpV::DrawText(text) => {
            assert(spec_encode_op(op) == enc16(op_tag(op)) + enc_id(text));
        },
        OpV::DrawScript(sid) => {
            assert(spec_encode_op(op) == enc16(op_tag(op)) + enc_id(sid));
        },
        OpV::FillImage(sid) => {
            assert(spec_encode_op(op) == enc16(op_tag(op)) + enc_id(sid));
        },
        OpV::FillStream(sid) => {
            assert(spec_encode_op(op) == enc16(op_tag(op)) + enc_id(sid));
        },
        OpV::StrokeImage(sid) => {
            assert(spec_encode_op(op) == enc16(op_tag(op)) + enc_id(sid));
        },
        OpV::StrokeStream(sid) => {
            assert(spec_encode_op(op) == enc16(op_tag(op)) + enc_id(sid));
        },
        OpV::Font(sid) => {
            assert(spec_encode_op(op) == enc16(op_tag(op)) + enc_id(sid));
        },
        _ => {},
    }
    lemma_id_op_size(op, id, t);
}

/// Helper for [`lemma_string_payload_size`]: the payload arithmetic, given
/// the shape of the encoding.
#[verifier::rlimit(100)]
proof fn lemma_id_op_size(op: OpV, id: Seq<u8>, t: Seq<u8>)
    requires
        wf_op(op),
        string_payload(op) == Some(id),
        spec_encode_op(op) == enc16(op_tag(op)) + enc_id(id),
    ensures
        spec_encode_op(op).len() == 4 + id.len() + pad4(id.len() as int),
        spec_step(spec_encode_op(op) + t, 0) == StepR::Next(
            op,
            4 + id.len() + pad4(id.len() as int),
        ),
{
    lemma_enc_id_len(id);
    lemma_step_of_encode(op, t);
}

} // verus!
