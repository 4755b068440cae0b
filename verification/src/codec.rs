//! The binary script decoder and its wire-format specification.
//!
//! A script is decoded by a single left-to-right scan: read a 2-byte
//! big-endian opcode tag, then an opcode-specific payload.  Every payload
//! begins with two bytes (a reserved field, a fill/stroke flag bitmask, or a
//! length prefix).  Numeric geometry travels as 4-byte big-endian IEEE-754
//! single-precision values, kept here as their raw bit patterns; stroke width
//! and font size as 2-byte quarter-unit fixed point; colors as 4 raw bytes in
//! red/green/blue/alpha order, converted to alpha-first at decode time.
//! Variable-length string payloads carry a 2-byte length prefix, the raw
//! bytes, then zero padding to a multiple of 4 consumed bytes.
//!
//! An unrecognized tag or a buffer that ends inside a declared payload is a
//! hard error for the whole buffer: no partial operation list is returned.
//! A single trailing byte (too short to hold a tag) is ignored, as the scan
//! only proceeds while at least two bytes remain.
//!
//! [`spec_decode`] is the specification of the format; [`parse_script`] is
//! the executable decoder, proved to return exactly what [`spec_decode`]
//! says on every input.

use vstd::prelude::*;
use vstd::string::StringExecFns;

use crate::color::Color;
use crate::ops::{
    ClipMode, OpV, ScriptOp, SpriteCommand, StrokeCap, StrokeJoin, TextAlign, TextBase, ops_view,
};

verus! {

// ---------------------------------------------------------------------------
// Decode errors
// ---------------------------------------------------------------------------

/// Why a buffer was rejected.  Each error names the opcode tag at which
/// decoding failed; [`DecodeError::message`] renders the same descriptions
/// the format has always used.
#[derive(Clone, Copy, Debug, PartialEq, Eq, Structural)]
pub enum DecodeError {
    /// The buffer ended inside an opcode's fixed payload (including the
    /// length prefix of a variable payload).
    TruncatedOpcode { tag: u16 },
    /// The buffer ended inside a declared variable-length payload.
    TruncatedPayload { tag: u16 },
    /// The buffer ended inside a sprite batch's command records.
    TruncatedSpriteData,
    /// A payload held a value outside its enumeration (clip mode, stroke
    /// cap or join, text alignment or baseline).
    InvalidValue { tag: u16 },
    /// The 2-byte tag is not an opcode of the format.
    UnsupportedOpcode { tag: u16 },
}

/// The name of the opcode with the given tag, as its error messages spell
/// it.
pub open spec fn spec_opcode_name(tag: u16) -> Seq<char> {
    match tag {
        0x01u16 => "draw_line"@,
        0x02u16 => "draw_triangle"@,
        0x03u16 => "draw_quad"@,
        0x04u16 => "draw_rect"@,
        0x05u16 => "draw_rrect"@,
        0x06u16 => "draw_arc"@,
        0x07u16 => "draw_sector"@,
        0x08u16 => "draw_circle"@,
        0x09u16 => "draw_ellipse"@,
        0x0Au16 => "draw_text"@,
        0x0Bu16 => "draw_sprites"@,
        0x0Cu16 => "draw_rrectv"@,
        0x0Fu16 => "draw_script"@,
        0x20u16 => "begin_path"@,
        0x21u16 => "close_path"@,
        0x22u16 => "fill_path"@,
        0x23u16 => "stroke_path"@,
        0x26u16 => "move_to"@,
        0x27u16 => "line_to"@,
        0x28u16 => "arc_to"@,
        0x29u16 => "bezier_to"@,
        0x2Au16 => "quadratic_to"@,
        0x2Bu16 => "triangle"@,
        0x2Cu16 => "quad"@,
        0x2Du16 => "rect"@,
        0x2Eu16 => "rrect"@,
        0x2Fu16 => "sector"@,
        0x30u16 => "circle"@,
        0x31u16 => "ellipse"@,
        0x32u16 => "arc"@,
        0x40u16 => "push_state"@,
        0x41u16 => "pop_state"@,
        0x42u16 => "pop_push_state"@,
        0x44u16 => "scissor"@,
        0x45u16 => "clip_path"@,
        0x50u16 => "transform"@,
        0x51u16 => "scale"@,
        0x52u16 => "rotate"@,
        0x53u16 => "translate"@,
        0x60u16 => "fill_color"@,
        0x61u16 => "fill_linear"@,
        0x62u16 => "fill_radial"@,
        0x63u16 => "fill_image"@,
        0x64u16 => "fill_stream"@,
        0x70u16 => "stroke_width"@,
        0x71u16 => "stroke_color"@,
        0x72u16 => "stroke_linear"@,
        0x73u16 => "stroke_radial"@,
        0x74u16 => "stroke_image"@,
        0x75u16 => "stroke_stream"@,
        0x80u16 => "cap"@,
        0x81u16 => "join"@,
        0x82u16 => "miter_limit"@,
        0x90u16 => "font"@,
        0x91u16 => "font_size"@,
        0x92u16 => "text_align"@,
        0x93u16 => "text_base"@,
        _ => "opcode"@,
    }
}

/// One lower-case hexadecimal digit.
pub open spec fn spec_hex_digit(n: u16) -> Seq<char> {
    match n {
        0u16 => "0"@,
        1u16 => "1"@,
        2u16 => "2"@,
        3u16 => "3"@,
        4u16 => "4"@,
        5u16 => "5"@,
        6u16 => "6"@,
        7u16 => "7"@,
        8u16 => "8"@,
        9u16 => "9"@,
        10u16 => "a"@,
        11u16 => "b"@,
        12u16 => "c"@,
        13u16 => "d"@,
        14u16 => "e"@,
        _ => "f"@,
    }
}

/// A tag in lower-case hexadecimal, at least two digits wide.
pub open spec fn spec_hex_tag(tag: u16) -> Seq<char> {
    if tag >= 0x1000 {
        spec_hex_digit(tag / 0x1000) + spec_hex_digit((tag / 0x100) % 16) + spec_hex_digit(
            (tag / 16) % 16,
        ) + spec_hex_digit(tag % 16)
    } else if tag >= 0x100 {
        spec_hex_digit(tag / 0x100) + spec_hex_digit((tag / 16) % 16) + spec_hex_digit(tag % 16)
    } else {
        spec_hex_digit((tag / 16) % 16) + spec_hex_digit(tag % 16)
    }
}

/// The description a decode error carries.
pub open spec fn spec_message(e: DecodeError) -> Seq<char> {
    match e {
        DecodeError::TruncatedOpcode { tag } => spec_opcode_name(tag) + " opcode truncated"@,
        DecodeError::TruncatedPayload { tag } => spec_opcode_name(tag) + " payload truncated"@,
        DecodeError::TruncatedSpriteData => "draw_sprites command data truncated"@,
        DecodeError::InvalidValue { tag } => if tag == 0x45 {
            "clip_path opcode invalid"@
        } else if tag == 0x80 {
            "cap opcode invalid"@
        } else if tag == 0x81 {
            "join opcode invalid"@
        } else if tag == 0x92 {
            "unsupported text_align value"@
        } else if tag == 0x93 {
            "unsupported text_base value"@
        } else {
            "opcode value invalid"@
        },
        DecodeError::UnsupportedOpcode { tag } => "unsupported opcode: 0x"@ + spec_hex_tag(tag),
    }
}

/// Whether a decode error points at the opcode with the given tag.
pub open spec fn names_opcode(e: DecodeError, tag: u16) -> bool {
    match e {
        DecodeError::TruncatedOpcode { tag: t } => t == tag,
        DecodeError::TruncatedPayload { tag: t } => t == tag,
        DecodeError::TruncatedSpriteData => tag == 0x0B,
        DecodeError::InvalidValue { tag: t } => t == tag,
        DecodeError::UnsupportedOpcode { tag: t } => t == tag,
    }
}

/// The name of the opcode with the given tag, as its error messages spell
/// it.
fn opcode_name(tag: u16) -> (r: &'static str)
    ensures
        r@ == spec_opcode_name(tag),
{
    match tag {
        0x01u16 => "draw_line",
        0x02u16 => "draw_triangle",
        0x03u16 => "draw_quad",
        0x04u16 => "draw_rect",
        0x05u16 => "draw_rrect",
        0x06u16 => "draw_arc",
        0x07u16 => "draw_sector",
        0x08u16 => "draw_circle",
        0x09u16 => "draw_ellipse",
        0x0Au16 => "draw_text",
        0x0Bu16 => "draw_sprites",
        0x0Cu16 => "draw_rrectv",
        0x0Fu16 => "draw_script",
        0x20u16 => "begin_path",
        0x21u16 => "close_path",
        0x22u16 => "fill_path",
        0x23u16 => "stroke_path",
        0x26u16 => "move_to",
        0x27u16 => "line_to",
        0x28u16 => "arc_to",
        0x29u16 => "bezier_to",
        0x2Au16 => "quadratic_to",
        0x2Bu16 => "triangle",
        0x2Cu16 => "quad",
        0x2Du16 => "rect",
        0x2Eu16 => "rrect",
        0x2Fu16 => "sector",
        0x30u16 => "circle",
        0x31u16 => "ellipse",
        0x32u16 => "arc",
        0x40u16 => "push_state",
        0x41u16 => "pop_state",
        0x42u16 => "pop_push_state",
        0x44u16 => "scissor",
        0x45u16 => "clip_path",
        0x50u16 => "transform",
        0x51u16 => "scale",
        0x52u16 => "rotate",
        0x53u16 => "translate",
        0x60u16 => "fill_color",
        0x61u16 => "fill_linear",
        0x62u16 => "fill_radial",
        0x63u16 => "fill_image",
        0x64u16 => "fill_stream",
        0x70u16 => "stroke_width",
        0x71u16 => "stroke_color",
        0x72u16 => "stroke_linear",
        0x73u16 => "stroke_radial",
        0x74u16 => "stroke_image",
        0x75u16 => "stroke_stream",
        0x80u16 => "cap",
        0x81u16 => "join",
        0x82u16 => "miter_limit",
        0x90u16 => "font",
        0x91u16 => "font_size",
        0x92u16 => "text_align",
        0x93u16 => "text_base",
        _ => "opcode",
    }
}

/// One lower-case hexadecimal digit.
fn hex_digit(n: u16) -> (r: &'static str)
    ensures
        r@ == spec_hex_digit(n),
{
    match n {
        0u16 => "0",
        1u16 => "1",
        2u16 => "2",
        3u16 => "3",
        4u16 => "4",
        5u16 => "5",
        6u16 => "6",
        7u16 => "7",
        8u16 => "8",
        9u16 => "9",
        10u16 => "a",
        11u16 => "b",
        12u16 => "c",
        13u16 => "d",
        14u16 => "e",
        _ => "f",
    }
}

impl DecodeError {
    /// The description of the error, naming the opcode and the reason.
    pub fn message(&self) -> (r: String)
        ensures
            r@ == spec_message(*self),
    {
        match self {
            DecodeError::TruncatedOpcode { tag } => {
                let mut s = String::from_str(opcode_name(*tag));
                s.append(" opcode truncated");
                s
            },
            DecodeError::TruncatedPayload { tag } => {
                let mut s = String::from_str(opcode_name(*tag));
                s.append(" payload truncated");
                s
            },
            DecodeError::TruncatedSpriteData => String::from_str(
                "draw_sprites command data truncated",
            ),
            DecodeError::InvalidValue { tag } => {
                if *tag == 0x45 {
                    String::from_str("clip_path opcode invalid")
                } else if *tag == 0x80 {
                    String::from_str("cap opcode invalid")
                } else if *tag == 0x81 {
                    String::from_str("join opcode invalid")
                } else if *tag == 0x92 {
                    String::from_str("unsupported text_align value")
                } else if *tag == 0x93 {
                    String::from_str("unsupported text_base value")
                } else {
                    String::from_str("opcode value invalid")
                }
            },
            DecodeError::UnsupportedOpcode { tag } => {
                let mut s = String::from_str("unsupported opcode: 0x");
                if *tag >= 0x1000 {
                    s.append(hex_digit(*tag / 0x1000));
                    s.append(hex_digit((*tag / 0x100) % 16));
                    s.append(hex_digit((*tag / 16) % 16));
                    s.append(hex_digit(*tag % 16));
                } else if *tag >= 0x100 {
                    s.append(hex_digit(*tag / 0x100));
                    s.append(hex_digit((*tag / 16) % 16));
                    s.append(hex_digit(*tag % 16));
                } else {
                    s.append(hex_digit((*tag / 16) % 16));
                    s.append(hex_digit(*tag % 16));
                }
                proof {
                    assert(s@ =~= spec_message(*self));
                }
                s
            },
        }
    }
}

// ---------------------------------------------------------------------------
// Wire-format reading primitives (specification)
// ---------------------------------------------------------------------------

/// The 2-byte big-endian integer at offset `i`.
pub open spec fn be16(b: Seq<u8>, i: int) -> u16 {
    (b[i] * 0x100 + b[i + 1]) as u16
}

/// The 4-byte big-endian integer at offset `i`.
pub open spec fn be32(b: Seq<u8>, i: int) -> u32 {
    (b[i] * 0x1000000 + b[i + 1] * 0x10000 + b[i + 2] * 0x100 + b[i + 3]) as u32
}

/// The color whose wire bytes (red, green, blue, alpha) start at offset `i`,
/// converted to the alpha-first internal order.
pub open spec fn color_at(b: Seq<u8>, i: int) -> Color {
    Color { a: b[i + 3], r: b[i], g: b[i + 1], b: b[i + 2] }
}

/// Zero-padding after a string payload of the given length, so that the
/// length prefix, the bytes and the padding together span a multiple of 4.
pub open spec fn pad4(len: int) -> int {
    (4 - len % 4) % 4
}

/// The sprite command record whose 36 bytes start at offset `j`.
pub open spec fn sprite_at(b: Seq<u8>, j: int) -> SpriteCommand {
    SpriteCommand {
        sx: be32(b, j),
        sy: be32(b, j + 4),
        sw: be32(b, j + 8),
        sh: be32(b, j + 12),
        dx: be32(b, j + 16),
        dy: be32(b, j + 20),
        dw: be32(b, j + 24),
        dh: be32(b, j + 28),
        alpha: be32(b, j + 32),
    }
}

/// Outcome of reading a length-prefixed, padded string payload whose length
/// prefix sits at offset `p`.
pub enum IdStep {
    /// Fewer than 2 bytes remain: not even the length prefix is present.
    NoLen,
    /// The declared bytes plus padding run past the end of the buffer.
    Short,
    /// The payload bytes, and the offset just past the padding.
    Got(Seq<u8>, int),
}

/// Reads a length-prefixed, padded string payload at offset `p`.
pub open spec fn id_at(b: Seq<u8>, p: int) -> IdStep {
    if b.len() - p < 2 {
        IdStep::NoLen
    } else {
        let len = be16(b, p) as int;
        let pad = pad4(len);
        if b.len() - (p + 2) < len + pad {
            IdStep::Short
        } else {
            IdStep::Got(b.subrange(p + 2, p + 2 + len), p + 2 + len + pad)
        }
    }
}

// ---------------------------------------------------------------------------
// One decoding step
// ---------------------------------------------------------------------------

/// Outcome of decoding the single opcode whose tag sits at offset `i`.
pub enum StepR {
    /// The decoded operation and the offset of the next opcode tag.
    Next(OpV, int),
    /// Decoding of the whole buffer fails with this error.
    Fail(DecodeError),
}

/// Decodes the single opcode whose 2-byte tag sits at offset `i`.
/// Meaningful when `i + 2 <= b.len()`.
pub open spec fn spec_step(b: Seq<u8>, i: int) -> StepR {
    let tag = be16(b, i);
    let p = i + 2;
    let rest = b.len() - p;
    match tag {
        0x01u16 => if rest < 18 {
            StepR::Fail(DecodeError::TruncatedOpcode { tag })
        } else {
            StepR::Next(
                OpV::DrawLine {
                    x0: be32(b, p + 2),
                    y0: be32(b, p + 6),
                    x1: be32(b, p + 10),
                    y1: be32(b, p + 14),
                    flag: be16(b, p),
                },
                p + 18,
            )
        },
        0x02u16 => if rest < 26 {
            StepR::Fail(DecodeError::TruncatedOpcode { tag })
        } else {
            StepR::Next(
                OpV::DrawTriangle {
                    x0: be32(b, p + 2),
                    y0: be32(b, p + 6),
                    x1: be32(b, p + 10),
                    y1: be32(b, p + 14),
                    x2: be32(b, p + 18),
                    y2: be32(b, p + 22),
                    flag: be16(b, p),
                },
                p + 26,
            )
        },
        0x03u16 => if rest < 34 {
            StepR::Fail(DecodeError::TruncatedOpcode { tag })
        } else {
            StepR::Next(
                OpV::DrawQuad {
                    x0: be32(b, p + 2),
                    y0: be32(b, p + 6),
                    x1: be32(b, p + 10),
                    y1: be32(b, p + 14),
                    x2: be32(b, p + 18),
                    y2: be32(b, p + 22),
                    x3: be32(b, p + 26),
                    y3: be32(b, p + 30),
                    flag: be16(b, p),
                },
                p + 34,
            )
        },
        0x04u16 => if rest < 10 {
            StepR::Fail(DecodeError::TruncatedOpcode { tag })
        } else {
            StepR::Next(
                OpV::DrawRect {
                    width: be32(b, p + 2),
                    height: be32(b, p + 6),
                    flag: be16(b, p),
                },
                p + 10,
            )
        },
        0x05u16 => if rest < 14 {
            StepR::Fail(DecodeError::TruncatedOpcode { tag })
        } else {
            StepR::Next(
                OpV::DrawRRect {
                    width: be32(b, p + 2),
                    height: be32(b, p + 6),
                    radius: be32(b, p + 10),
                    flag: be16(b, p),
                },
                p + 14,
            )
        },
        0x06u16 => if rest < 10 {
            StepR::Fail(DecodeError::TruncatedOpcode { tag })
        } else {
            StepR::Next(
                OpV::DrawArc {
                    radius: be32(b, p + 2),
                    radians: be32(b, p + 6),
                    flag: be16(b, p),
                },
                p + 10,
            )
        },
        0x07u16 => if rest < 10 {
            StepR::Fail(DecodeError::TruncatedOpcode { tag })
        } else {
            StepR::Next(
                OpV::DrawSector {
                    radius: be32(b, p + 2),
                    radians: be32(b, p + 6),
                    flag: be16(b, p),
                },
                p + 10,
            )
        },
        0x08u16 => if rest < 6 {
            StepR::Fail(DecodeError::TruncatedOpcode { tag })
        } else {
            StepR::Next(
                OpV::DrawCircle { radius: be32(b, p + 2), flag: be16(b, p) },
                p + 6,
            )
        },
        0x09u16 => if rest < 10 {
            StepR::Fail(DecodeError::TruncatedOpcode { tag })
        } else {
            StepR::Next(
                OpV::DrawEllipse {
                    radius0: be32(b, p + 2),
                    radius1: be32(b, p + 6),
                    flag: be16(b, p),
                },
                p + 10,
            )
        },
        0x0Au16 => match id_at(b, p) {
            IdStep::NoLen => StepR::Fail(DecodeError::TruncatedOpcode { tag }),
            IdStep::Short => StepR::Fail(DecodeError::TruncatedPayload { tag }),
            IdStep::Got(text, j) => StepR::Next(OpV::DrawText(text), j),
        },
        0x0Bu16 => if rest < 6 {
            StepR::Fail(DecodeError::TruncatedOpcode { tag })
        } else {
            let len = be16(b, p) as int;
            let count = be32(b, p + 2) as int;
            let pad = pad4(len);
            if b.len() - (p + 6) < len + pad {
                StepR::Fail(DecodeError::TruncatedPayload { tag })
            } else {
                let id = b.subrange(p + 6, p + 6 + len);
                let base = p + 6 + len + pad;
                if b.len() - base < count * 36 {
                    StepR::Fail(DecodeError::TruncatedSpriteData)
                } else {
                    StepR::Next(
                        OpV::DrawSprites {
                            image_id: id,
                            cmds: Seq::new(count as nat, |k: int| sprite_at(b, base + 36 * k)),
                        },
                        base + count * 36,
                    )
                }
            }
        },
        0x0Cu16 => if rest < 26 {
            StepR::Fail(DecodeError::TruncatedOpcode { tag })
        } else {
            StepR::Next(
                OpV::DrawRRectV {
                    width: be32(b, p + 2),
                    height: be32(b, p + 6),
                    ul_radius: be32(b, p + 10),
                    ur_radius: be32(b, p + 14),
                    lr_radius: be32(b, p + 18),
                    ll_radius: be32(b, p + 22),
                    flag: be16(b, p),
                },
                p + 26,
            )
        },
        0x0Fu16 => match id_at(b, p) {
            IdStep::NoLen => StepR::Fail(DecodeError::TruncatedOpcode { tag }),
            IdStep::Short => StepR::Fail(DecodeError::TruncatedPayload { tag }),
            IdStep::Got(id, j) => StepR::Next(OpV::DrawScript(id), j),
        },
        0x20u16 => if rest < 2 {
            StepR::Fail(DecodeError::TruncatedOpcode { tag })
        } else {
            StepR::Next(OpV::BeginPath, p + 2)
        },
        0x21u16 => if rest < 2 {
            StepR::Fail(DecodeError::TruncatedOpcode { tag })
        } else {
            StepR::Next(OpV::ClosePath, p + 2)
        },
        0x22u16 => if rest < 2 {
            StepR::Fail(DecodeError::TruncatedOpcode { tag })
        } else {
            StepR::Next(OpV::FillPath, p + 2)
        },
        0x23u16 => if rest < 2 {
            StepR::Fail(DecodeError::TruncatedOpcode { tag })
        } else {
            StepR::Next(OpV::StrokePath, p + 2)
        },
        0x26u16 => if rest < 10 {
            StepR::Fail(DecodeError::TruncatedOpcode { tag })
        } else {
            StepR::Next(OpV::MoveTo { x: be32(b, p + 2), y: be32(b, p + 6) }, p + 10)
        },
        0x27u16 => if rest < 10 {
            StepR::Fail(DecodeError::TruncatedOpcode { tag })
        } else {
            StepR::Next(OpV::LineTo { x: be32(b, p + 2), y: be32(b, p + 6) }, p + 10)
        },
        0x28u16 => if rest < 22 {
            StepR::Fail(DecodeError::TruncatedOpcode { tag })
        } else {
            StepR::Next(
                OpV::ArcTo {
                    x1: be32(b, p + 2),
                    y1: be32(b, p + 6),
                    x2: be32(b, p + 10),
                    y2: be32(b, p + 14),
                    radius: be32(b, p + 18),
                },
                p + 22,
            )
        },
        0x29u16 => if rest < 26 {
            StepR::Fail(DecodeError::TruncatedOpcode { tag })
        } else {
            StepR::Next(
                OpV::BezierTo {
                    cp1x: be32(b, p + 2),
                    cp1y: be32(b, p + 6),
                    cp2x: be32(b, p + 10),
                    cp2y: be32(b, p + 14),
                    x: be32(b, p + 18),
                    y: be32(b, p + 22),
                },
                p + 26,
            )
        },
        0x2Au16 => if rest < 18 {
            StepR::Fail(DecodeError::TruncatedOpcode { tag })
        } else {
            StepR::Next(
                OpV::QuadraticTo {
                    cpx: be32(b, p + 2),
                    cpy: be32(b, p + 6),
                    x: be32(b, p + 10),
                    y: be32(b, p + 14),
                },
                p + 18,
            )
        },
        0x2Bu16 => if rest < 26 {
            StepR::Fail(DecodeError::TruncatedOpcode { tag })
        } else {
            StepR::Next(
                OpV::PathTriangle {
                    x0: be32(b, p + 2),
                    y0: be32(b, p + 6),
                    x1: be32(b, p + 10),
                    y1: be32(b, p + 14),
                    x2: be32(b, p + 18),
                    y2: be32(b, p + 22),
                },
                p + 26,
            )
        },
        0x2Cu16 => if rest < 34 {
            StepR::Fail(DecodeError::TruncatedOpcode { tag })
        } else {
            StepR::Next(
                OpV::PathQuad {
                    x0: be32(b, p + 2),
                    y0: be32(b, p + 6),
                    x1: be32(b, p + 10),
                    y1: be32(b, p + 14),
                    x2: be32(b, p + 18),
                    y2: be32(b, p + 22),
                    x3: be32(b, p + 26),
                    y3: be32(b, p + 30),
                },
                p + 34,
            )
        },
        0x2Du16 => if rest < 10 {
            StepR::Fail(DecodeError::TruncatedOpcode { tag })
        } else {
            StepR::Next(
                OpV::PathRect { width: be32(b, p + 2), height: be32(b, p + 6) },
                p + 10,
            )
        },
        0x2Eu16 => if rest < 14 {
            StepR::Fail(DecodeError::TruncatedOpcode { tag })
        } else {
            StepR::Next(
                OpV::PathRRect {
                    width: be32(b, p + 2),
                    height: be32(b, p + 6),
                    radius: be32(b, p + 10),
                },
                p + 14,
            )
        },
        0x2Fu16 => if rest < 10 {
            StepR::Fail(DecodeError::TruncatedOpcode { tag })
        } else {
            StepR::Next(
                OpV::PathSector { radius: be32(b, p + 2), radians: be32(b, p + 6) },
                p + 10,
            )
        },
        0x30u16 => if rest < 6 {
            StepR::Fail(DecodeError::TruncatedOpcode { tag })
        } else {
            StepR::Next(OpV::PathCircle { radius: be32(b, p + 2) }, p + 6)
        },
        0x31u16 => if rest < 10 {
            StepR::Fail(DecodeError::TruncatedOpcode { tag })
        } else {
            StepR::Next(
                OpV::PathEllipse { radius0: be32(b, p + 2), radius1: be32(b, p + 6) },
                p + 10,
            )
        },
        0x32u16 => if rest < 26 {
            StepR::Fail(DecodeError::TruncatedOpcode { tag })
        } else {
            StepR::Next(
                OpV::PathArc {
                    cx: be32(b, p + 2),
                    cy: be32(b, p + 6),
                    radius: be32(b, p + 10),
                    start: be32(b, p + 14),
                    end: be32(b, p + 18),
                    dir: be32(b, p + 22),
                },
                p + 26,
            )
        },
        0x40u16 => if rest < 2 {
            StepR::Fail(DecodeError::TruncatedOpcode { tag })
        } else {
            StepR::Next(OpV::PushState, p + 2)
        },
        0x41u16 => if rest < 2 {
            StepR::Fail(DecodeError::TruncatedOpcode { tag })
        } else {
            StepR::Next(OpV::PopState, p + 2)
        },
        0x42u16 => if rest < 2 {
            StepR::Fail(DecodeError::TruncatedOpcode { tag })
        } else {
            StepR::Next(OpV::PopPushState, p + 2)
        },
        0x44u16 => if rest < 10 {
            StepR::Fail(DecodeError::TruncatedOpcode { tag })
        } else {
            StepR::Next(
                OpV::Scissor { width: be32(b, p + 2), height: be32(b, p + 6) },
                p + 10,
            )
        },
        0x45u16 => if rest < 2 {
            StepR::Fail(DecodeError::TruncatedOpcode { tag })
        } else {
            let mode = be16(b, p);
            if mode == 0x00 {
                StepR::Next(OpV::ClipPath(ClipMode::Intersect), p + 2)
            } else if mode == 0x01 {
                StepR::Next(OpV::ClipPath(ClipMode::Difference), p + 2)
            } else {
                StepR::Fail(DecodeError::InvalidValue { tag })
            }
        },
        0x50u16 => if rest < 26 {
            StepR::Fail(DecodeError::TruncatedOpcode { tag })
        } else {
            StepR::Next(
                OpV::Transform {
                    a: be32(b, p + 2),
                    b: be32(b, p + 6),
                    c: be32(b, p + 10),
                    d: be32(b, p + 14),
                    e: be32(b, p + 18),
                    f: be32(b, p + 22),
                },
                p + 26,
            )
        },
        0x51u16 => if rest < 10 {
            StepR::Fail(DecodeError::TruncatedOpcode { tag })
        } else {
            StepR::Next(OpV::Scale(be32(b, p + 2), be32(b, p + 6)), p + 10)
        },
        0x52u16 => if rest < 6 {
            StepR::Fail(DecodeError::TruncatedOpcode { tag })
        } else {
            StepR::Next(OpV::Rotate(be32(b, p + 2)), p + 6)
        },
        0x53u16 => if rest < 10 {
            StepR::Fail(DecodeError::TruncatedOpcode { tag })
        } else {
            StepR::Next(OpV::Translate(be32(b, p + 2), be32(b, p + 6)), p + 10)
        },
        0x60u16 => if rest < 6 {
            StepR::Fail(DecodeError::TruncatedOpcode { tag })
        } else {
            StepR::Next(OpV::FillColor(color_at(b, p + 2)), p + 6)
        },
        0x61u16 => if rest < 26 {
            StepR::Fail(DecodeError::TruncatedOpcode { tag })
        } else {
            StepR::Next(
                OpV::FillLinear {
                    start_x: be32(b, p + 2),
                    start_y: be32(b, p + 6),
                    end_x: be32(b, p + 10),
                    end_y: be32(b, p + 14),
                    start_color: color_at(b, p + 18),
                    end_color: color_at(b, p + 22),
                },
                p + 26,
            )
        },
        0x62u16 => if rest < 26 {
            StepR::Fail(DecodeError::TruncatedOpcode { tag })
        } else {
            StepR::Next(
                OpV::FillRadial {
                    center_x: be32(b, p + 2),
                    center_y: be32(b, p + 6),
                    inner_radius: be32(b, p + 10),
                    outer_radius: be32(b, p + 14),
                    start_color: color_at(b, p + 18),
                    end_color: color_at(b, p + 22),
                },
                p + 26,
            )
        },
        0x63u16 => match id_at(b, p) {
            IdStep::NoLen => StepR::Fail(DecodeError::TruncatedOpcode { tag }),
            IdStep::Short => StepR::Fail(DecodeError::TruncatedPayload { tag }),
            IdStep::Got(id, j) => StepR::Next(OpV::FillImage(id), j),
        },
        0x64u16 => match id_at(b, p) {
            IdStep::NoLen => StepR::Fail(DecodeError::TruncatedOpcode { tag }),
            IdStep::Short => StepR::Fail(DecodeError::TruncatedPayload { tag }),
            IdStep::Got(id, j) => StepR::Next(OpV::FillStream(id), j),
        },
        0x70u16 => if rest < 2 {
            StepR::Fail(DecodeError::TruncatedOpcode { tag })
        } else {
            StepR::Next(OpV::StrokeWidth(be16(b, p)), p + 2)
        },
        0x71u16 => if rest < 6 {
            StepR::Fail(DecodeError::TruncatedOpcode { tag })
        } else {
            StepR::Next(OpV::StrokeColor(color_at(b, p + 2)), p + 6)
        },
        0x72u16 => if rest < 26 {
            StepR::Fail(DecodeError::TruncatedOpcode { tag })
        } else {
            StepR::Next(
                OpV::StrokeLinear {
                    start_x: be32(b, p + 2),
                    start_y: be32(b, p + 6),
                    end_x: be32(b, p + 10),
                    end_y: be32(b, p + 14),
                    start_color: color_at(b, p + 18),
                    end_color: color_at(b, p + 22),
                },
                p + 26,
            )
        },
        0x73u16 => if rest < 26 {
            StepR::Fail(DecodeError::TruncatedOpcode { tag })
        } else {
            StepR::Next(
                OpV::StrokeRadial {
                    center_x: be32(b, p + 2),
                    center_y: be32(b, p + 6),
                    inner_radius: be32(b, p + 10),
                    outer_radius: be32(b, p + 14),
                    start_color: color_at(b, p + 18),
                    end_color: color_at(b, p + 22),
                },
                p + 26,
            )
        },
        0x74u16 => match id_at(b, p) {
            IdStep::NoLen => StepR::Fail(DecodeError::TruncatedOpcode { tag }),
            IdStep::Short => StepR::Fail(DecodeError::TruncatedPayload { tag }),
            IdStep::Got(id, j) => StepR::Next(OpV::StrokeImage(id), j),
        },
        0x75u16 => match id_at(b, p) {
            IdStep::NoLen => StepR::Fail(DecodeError::TruncatedOpcode { tag }),
            IdStep::Short => StepR::Fail(DecodeError::TruncatedPayload { tag }),
            IdStep::Got(id, j) => StepR::Next(OpV::StrokeStream(id), j),
        },
        0x80u16 => if rest < 2 {
            StepR::Fail(DecodeError::TruncatedOpcode { tag })
        } else {
            let cap = be16(b, p);
            if cap == 0x00 {
                StepR::Next(OpV::StrokeCap(StrokeCap::Butt), p + 2)
            } else if cap == 0x01 {
                StepR::Next(OpV::StrokeCap(StrokeCap::Round), p + 2)
            } else if cap == 0x02 {
                StepR::Next(OpV::StrokeCap(StrokeCap::Square), p + 2)
            } else {
                StepR::Fail(DecodeError::InvalidValue { tag })
            }
        },
        0x81u16 => if rest < 2 {
            StepR::Fail(DecodeError::TruncatedOpcode { tag })
        } else {
            let join = be16(b, p);
            if join == 0x00 {
                StepR::Next(OpV::StrokeJoin(StrokeJoin::Bevel), p + 2)
            } else if join == 0x01 {
                StepR::Next(OpV::StrokeJoin(StrokeJoin::Round), p + 2)
            } else if join == 0x02 {
                StepR::Next(OpV::StrokeJoin(StrokeJoin::Miter), p + 2)
            } else {
                StepR::Fail(DecodeError::InvalidValue { tag })
            }
        },
        0x82u16 => if rest < 2 {
            StepR::Fail(DecodeError::TruncatedOpcode { tag })
        } else {
            StepR::Next(OpV::StrokeMiterLimit(be16(b, p)), p + 2)
        },
        0x90u16 => match id_at(b, p) {
            IdStep::NoLen => StepR::Fail(DecodeError::TruncatedOpcode { tag }),
            IdStep::Short => StepR::Fail(DecodeError::TruncatedPayload { tag }),
            IdStep::Got(id, j) => StepR::Next(OpV::Font(id), j),
        },
        0x91u16 => if rest < 2 {
            StepR::Fail(DecodeError::TruncatedOpcode { tag })
        } else {
            StepR::Next(OpV::FontSize(be16(b, p)), p + 2)
        },
        0x92u16 => if rest < 2 {
            StepR::Fail(DecodeError::TruncatedOpcode { tag })
        } else {
            let align = be16(b, p);
            if align == 0x00 {
                StepR::Next(OpV::TextAlign(TextAlign::Left), p + 2)
            } else if align == 0x01 {
                StepR::Next(OpV::TextAlign(TextAlign::Center), p + 2)
            } else if align == 0x02 {
                StepR::Next(OpV::TextAlign(TextAlign::Right), p + 2)
            } else {
                StepR::Fail(DecodeError::InvalidValue { tag })
            }
        },
        0x93u16 => if rest < 2 {
            StepR::Fail(DecodeError::TruncatedOpcode { tag })
        } else {
            let base = be16(b, p);
            if base == 0x00 {
                StepR::Next(OpV::TextBase(TextBase::Top), p + 2)
            } else if base == 0x01 {
                StepR::Next(OpV::TextBase(TextBase::Middle), p + 2)
            } else if base == 0x02 {
                StepR::Next(OpV::TextBase(TextBase::Alphabetic), p + 2)
            } else if base == 0x03 {
                StepR::Next(OpV::TextBase(TextBase::Bottom), p + 2)
            } else {
                StepR::Fail(DecodeError::InvalidValue { tag })
            }
        },
        _ => StepR::Fail(DecodeError::UnsupportedOpcode { tag }),
    }
}

/// A successful step consumes the 2-byte tag plus at least 2 payload bytes
/// and never reads past the end of the buffer.
pub proof fn lemma_step_bounds(b: Seq<u8>, i: int)
    requires
        0 <= i,
        i + 2 <= b.len(),
    ensures
        (spec_step(b, i) matches StepR::Next(op, j) ==> i + 4 <= j <= b.len()),
{
}

// ---------------------------------------------------------------------------
// Decoding a whole buffer
// ---------------------------------------------------------------------------

/// Decodes every opcode from offset `i` to the end of the buffer.
/// The scan stops, successfully, when fewer than 2 bytes remain.
pub open spec fn spec_decode_from(b: Seq<u8>, i: int) -> Result<Seq<OpV>, DecodeError>
    decreases b.len() - i,
        when 0 <= i <= b.len()
        via spec_decode_from_decreases
{
    if b.len() - i < 2 {
        Ok(Seq::empty())
    } else {
        match spec_step(b, i) {
            StepR::Fail(e) => Err(e),
            StepR::Next(op, j) => match spec_decode_from(b, j) {
                Err(e) => Err(e),
                Ok(tail_ops) => Ok(seq![op] + tail_ops),
            },
        }
    }
}

#[via_fn]
proof fn spec_decode_from_decreases(b: Seq<u8>, i: int) {
    if 0 <= i && i + 2 <= b.len() {
        lemma_step_bounds(b, i);
    }
}

/// The wire format: what any byte buffer means, as an ordered operation
/// list or the error that rejects the whole buffer.
pub open spec fn spec_decode(b: Seq<u8>) -> Result<Seq<OpV>, DecodeError> {
    spec_decode_from(b, 0)
}

/// Whether a 2-byte tag is an opcode of the format.
pub open spec fn supported_tag(tag: u16) -> bool {
    match tag {
        0x01u16 | 0x02u16 | 0x03u16 | 0x04u16 | 0x05u16 | 0x06u16 | 0x07u16 | 0x08u16 | 0x09u16
            | 0x0Au16 | 0x0Bu16 | 0x0Cu16 | 0x0Fu16 | 0x20u16 | 0x21u16 | 0x22u16 | 0x23u16
            | 0x26u16 | 0x27u16 | 0x28u16 | 0x29u16 | 0x2Au16 | 0x2Bu16 | 0x2Cu16 | 0x2Du16
            | 0x2Eu16 | 0x2Fu16 | 0x30u16 | 0x31u16 | 0x32u16 | 0x40u16 | 0x41u16 | 0x42u16
            | 0x44u16 | 0x45u16 | 0x50u16 | 0x51u16 | 0x52u16 | 0x53u16 | 0x60u16 | 0x61u16
            | 0x62u16 | 0x63u16 | 0x64u16 | 0x70u16 | 0x71u16 | 0x72u16 | 0x73u16 | 0x74u16
            | 0x75u16 | 0x80u16 | 0x81u16 | 0x82u16 | 0x90u16 | 0x91u16 | 0x92u16 | 0x93u16 =>
            true,
        _ => false,
    }
}

// ---------------------------------------------------------------------------
// Executable reading primitives
// ---------------------------------------------------------------------------

/// Reads the 2-byte big-endian integer at offset `i`.
fn rd_u16(b: &[u8], i: usize) -> (r: u16)
    requires
        i + 2 <= b@.len(),
    ensures
        r == be16(b@, i as int),
{
    (b[i] as u16) * 0x100 + (b[i + 1] as u16)
}

/// Reads the 4-byte big-endian integer at offset `i`.
fn rd_u32(b: &[u8], i: usize) -> (r: u32)
    requires
        i + 4 <= b@.len(),
    ensures
        r == be32(b@, i as int),
{
    (b[i] as u32) * 0x1000000 + (b[i + 1] as u32) * 0x10000 + (b[i + 2] as u32) * 0x100 + (b[i
        + 3] as u32)
}

/// Reads the red/green/blue/alpha bytes at offset `i` as an alpha-first color.
fn rd_color(b: &[u8], i: usize) -> (r: Color)
    requires
        i + 4 <= b@.len(),
        b@.len() <= usize::MAX,
    ensures
        r == color_at(b@, i as int),
{
    Color { a: b[i + 3], r: b[i], g: b[i + 1], b: b[i + 2] }
}

/// Copies `len` bytes starting at offset `i` into a fresh vector.
fn rd_bytes(b: &[u8], i: usize, len: usize) -> (r: Vec<u8>)
    requires
        i + len <= b@.len(),
        b@.len() <= usize::MAX,
    ensures
        r@ == b@.subrange(i as int, i as int + len as int),
{
    let mut r: Vec<u8> = Vec::new();
    let mut k: usize = 0;
    while k < len
        invariant
            k <= len,
            i + len <= b@.len(),
            b@.len() <= usize::MAX,
            r@ == b@.subrange(i as int, i as int + k as int),
        decreases len - k,
    {
        r.push(b[i + k]);
        proof {
            assert(b@.subrange(i as int, i as int + (k + 1) as int) =~= b@.subrange(
                i as int,
                i as int + k as int,
            ).push(b@[i as int + k as int]));
        }
        k += 1;
    }
    r
}

/// Reads the length-prefixed, padded string payload whose length prefix sits
/// at offset `p`.  Returns `None` when the buffer ends inside the payload.
fn rd_id(b: &[u8], p: usize) -> (r: Option<(Vec<u8>, usize)>)
    requires
        p + 2 <= b@.len(),
    ensures
        match r {
            Some(got) => id_at(b@, p as int) == IdStep::Got(got.0@, got.1 as int),
            None => id_at(b@, p as int) is Short,
        },
{
    let n = b.len();
    let len = rd_u16(b, p) as usize;
    let pad = (4 - (len % 4)) % 4;
    if n - (p + 2) < len + pad {
        return None;
    }
    let id = rd_bytes(b, p + 2, len);
    Some((id, p + 2 + len + pad))
}

// ---------------------------------------------------------------------------
// Executable decoder, one opcode group at a time
// ---------------------------------------------------------------------------

/// Decodes one immediate-draw, sprite, text or script-reference opcode
/// (tags up to 0x1F).
fn step_draw(b: &[u8], i: usize, tag: u16) -> (r: Result<(ScriptOp, usize), DecodeError>)
    requires
        i + 2 <= b@.len(),
        tag == be16(b@, i as int),
        tag <= 0x1F,
    ensures
        match r {
            Ok(p) => spec_step(b@, i as int) == StepR::Next(p.0@, p.1 as int),
            Err(e) => spec_step(b@, i as int) == StepR::Fail(e),
        },
{
    let n = b.len();
    match tag {
        0x01u16 => {
            if n - i - 2 < 18 {
                return Err(DecodeError::TruncatedOpcode { tag });
            }
            let flag = rd_u16(b, i + 2);
            let op = ScriptOp::DrawLine {
                x0: rd_u32(b, i + 4),
                y0: rd_u32(b, i + 8),
                x1: rd_u32(b, i + 12),
                y1: rd_u32(b, i + 16),
                flag,
            };
            Ok((op, i + 20))
        },
        0x02u16 => {
            if n - i - 2 < 26 {
                return Err(DecodeError::TruncatedOpcode { tag });
            }
            let flag = rd_u16(b, i + 2);
            let op = ScriptOp::DrawTriangle {
                x0: rd_u32(b, i + 4),
                y0: rd_u32(b, i + 8),
                x1: rd_u32(b, i + 12),
                y1: rd_u32(b, i + 16),
                x2: rd_u32(b, i + 20),
                y2: rd_u32(b, i + 24),
                flag,
            };
            Ok((op, i + 28))
        },
        0x03u16 => {
            if n - i - 2 < 34 {
                return Err(DecodeError::TruncatedOpcode { tag });
            }
            let flag = rd_u16(b, i + 2);
            let op = ScriptOp::DrawQuad {
                x0: rd_u32(b, i + 4),
                y0: rd_u32(b, i + 8),
                x1: rd_u32(b, i + 12),
                y1: rd_u32(b, i + 16),
                x2: rd_u32(b, i + 20),
                y2: rd_u32(b, i + 24),
                x3: rd_u32(b, i + 28),
                y3: rd_u32(b, i + 32),
                flag,
            };
            Ok((op, i + 36))
        },
        0x04u16 => {
            if n - i - 2 < 10 {
                return Err(DecodeError::TruncatedOpcode { tag });
            }
            let flag = rd_u16(b, i + 2);
            let op = ScriptOp::DrawRect {
                width: rd_u32(b, i + 4),
                height: rd_u32(b, i + 8),
                flag,
            };
            Ok((op, i + 12))
        },
        0x05u16 => {
            if n - i - 2 < 14 {
                return Err(DecodeError::TruncatedOpcode { tag });
            }
            let flag = rd_u16(b, i + 2);
            let op = ScriptOp::DrawRRect {
                width: rd_u32(b, i + 4),
                height: rd_u32(b, i + 8),
                radius: rd_u32(b, i + 12),
                flag,
            };
            Ok((op, i + 16))
        },
        0x06u16 => {
            if n - i - 2 < 10 {
                return Err(DecodeError::TruncatedOpcode { tag });
            }
            let flag = rd_u16(b, i + 2);
            let op = ScriptOp::DrawArc {
                radius: rd_u32(b, i + 4),
                radians: rd_u32(b, i + 8),
                flag,
            };
            Ok((op, i + 12))
        },
        0x07u16 => {
            if n - i - 2 < 10 {
                return Err(DecodeError::TruncatedOpcode { tag });
            }
            let flag = rd_u16(b, i + 2);
            let op = ScriptOp::DrawSector {
                radius: rd_u32(b, i + 4),
                radians: rd_u32(b, i + 8),
                flag,
            };
            Ok((op, i + 12))
        },
        0x08u16 => {
            if n - i - 2 < 6 {
                return Err(DecodeError::TruncatedOpcode { tag });
            }
            let flag = rd_u16(b, i + 2);
            let op = ScriptOp::DrawCircle { radius: rd_u32(b, i + 4), flag };
            Ok((op, i + 8))
        },
        0x09u16 => {
            if n - i - 2 < 10 {
                return Err(DecodeError::TruncatedOpcode { tag });
            }
            let flag = rd_u16(b, i + 2);
            let op = ScriptOp::DrawEllipse {
                radius0: rd_u32(b, i + 4),
                radius1: rd_u32(b, i + 8),
                flag,
            };
            Ok((op, i + 12))
        },
        0x0Au16 => {
            if n - i - 2 < 2 {
                return Err(DecodeError::TruncatedOpcode { tag });
            }
            match rd_id(b, i + 2) {
                None => Err(DecodeError::TruncatedPayload { tag }),
                Some((text, j)) => Ok((ScriptOp::DrawText(text), j)),
            }
        },
        0x0Bu16 => step_sprites(b, i, tag),
        0x0Cu16 => {
            if n - i - 2 < 26 {
                return Err(DecodeError::TruncatedOpcode { tag });
            }
            let flag = rd_u16(b, i + 2);
            let op = ScriptOp::DrawRRectV {
                width: rd_u32(b, i + 4),
                height: rd_u32(b, i + 8),
                ul_radius: rd_u32(b, i + 12),
                ur_radius: rd_u32(b, i + 16),
                lr_radius: rd_u32(b, i + 20),
                ll_radius: rd_u32(b, i + 24),
                flag,
            };
            Ok((op, i + 28))
        },
        0x0Fu16 => {
            if n - i - 2 < 2 {
                return Err(DecodeError::TruncatedOpcode { tag });
            }
            match rd_id(b, i + 2) {
                None => Err(DecodeError::TruncatedPayload { tag }),
                Some((id, j)) => Ok((ScriptOp::DrawScript(id), j)),
            }
        },
        _ => Err(DecodeError::UnsupportedOpcode { tag }),
    }
}

/// Decodes one sprite-batch opcode: a string image identifier, a 4-byte
/// record count, then exactly that many 36-byte records.
fn step_sprites(b: &[u8], i: usize, tag: u16) -> (r: Result<(ScriptOp, usize), DecodeError>)
    requires
        i + 2 <= b@.len(),
        tag == be16(b@, i as int),
        tag == 0x0B,
    ensures
        match r {
            Ok(p) => spec_step(b@, i as int) == StepR::Next(p.0@, p.1 as int),
            Err(e) => spec_step(b@, i as int) == StepR::Fail(e),
        },
{
    let n = b.len();
    if n - i - 2 < 6 {
        return Err(DecodeError::TruncatedOpcode { tag });
    }
    let len = rd_u16(b, i + 2) as usize;
    let count = rd_u32(b, i + 4);
    let pad = (4 - (len % 4)) % 4;
    if n - (i + 8) < len + pad {
        return Err(DecodeError::TruncatedPayload { tag });
    }
    let id = rd_bytes(b, i + 8, len);
    let base = i + 8 + len + pad;
    if (count as u64) * 36 > (n - base) as u64 {
        return Err(DecodeError::TruncatedSpriteData);
    }
    let count = count as usize;
    let mut cmds: Vec<SpriteCommand> = Vec::new();
    let mut k: usize = 0;
    while k < count
        invariant
            k <= count,
            n == b@.len(),
            base + count * 36 <= n,
            cmds@.len() == k,
            forall|t: int|
                0 <= t < k ==> cmds@[t] == sprite_at(b@, base as int + 36 * t),
        decreases count - k,
    {
        let off = base + 36 * k;
        let cmd = SpriteCommand {
            sx: rd_u32(b, off),
            sy: rd_u32(b, off + 4),
            sw: rd_u32(b, off + 8),
            sh: rd_u32(b, off + 12),
            dx: rd_u32(b, off + 16),
            dy: rd_u32(b, off + 20),
            dw: rd_u32(b, off + 24),
            dh: rd_u32(b, off + 28),
            alpha: rd_u32(b, off + 32),
        };
        cmds.push(cmd);
        k += 1;
    }
    let op = ScriptOp::DrawSprites { image_id: id, cmds };
    proof {
        assert(cmds@ =~= Seq::new(count as nat, |t: int| sprite_at(b@, base as int + 36 * t)));
    }
    Ok((op, base + count * 36))
}

/// Decodes one path-construction opcode (tags 0x20 through 0x3F).
fn step_path(b: &[u8], i: usize, tag: u16) -> (r: Result<(ScriptOp, usize), DecodeError>)
    requires
        i + 2 <= b@.len(),
        tag == be16(b@, i as int),
        0x20 <= tag <= 0x3F,
    ensures
        match r {
            Ok(p) => spec_step(b@, i as int) == StepR::Next(p.0@, p.1 as int),
            Err(e) => spec_step(b@, i as int) == StepR::Fail(e),
        },
{
    let n = b.len();
    match tag {
        0x20u16 => {
            if n - i - 2 < 2 {
                return Err(DecodeError::TruncatedOpcode { tag });
            }
            Ok((ScriptOp::BeginPath, i + 4))
        },
        0x21u16 => {
            if n - i - 2 < 2 {
                return Err(DecodeError::TruncatedOpcode { tag });
            }
            Ok((ScriptOp::ClosePath, i + 4))
        },
        0x22u16 => {
            if n - i - 2 < 2 {
                return Err(DecodeError::TruncatedOpcode { tag });
            }
            Ok((ScriptOp::FillPath, i + 4))
        },
        0x23u16 => {
            if n - i - 2 < 2 {
                return Err(DecodeError::TruncatedOpcode { tag });
            }
            Ok((ScriptOp::StrokePath, i + 4))
        },
        0x26u16 => {
            if n - i - 2 < 10 {
                return Err(DecodeError::TruncatedOpcode { tag });
            }
            let op = ScriptOp::MoveTo { x: rd_u32(b, i + 4), y: rd_u32(b, i + 8) };
            Ok((op, i + 12))
        },
        0x27u16 => {
            if n - i - 2 < 10 {
                return Err(DecodeError::TruncatedOpcode { tag });
            }
            let op = ScriptOp::LineTo { x: rd_u32(b, i + 4), y: rd_u32(b, i + 8) };
            Ok((op, i + 12))
        },
        0x28u16 => {
            if n - i - 2 < 22 {
                return Err(DecodeError::TruncatedOpcode { tag });
            }
            let op = ScriptOp::ArcTo {
                x1: rd_u32(b, i + 4),
                y1: rd_u32(b, i + 8),
                x2: rd_u32(b, i + 12),
                y2: rd_u32(b, i + 16),
                radius: rd_u32(b, i + 20),
            };
            Ok((op, i + 24))
        },
        0x29u16 => {
            if n - i - 2 < 26 {
                return Err(DecodeError::TruncatedOpcode { tag });
            }
            let op = ScriptOp::BezierTo {
                cp1x: rd_u32(b, i + 4),
                cp1y: rd_u32(b, i + 8),
                cp2x: rd_u32(b, i + 12),
                cp2y: rd_u32(b, i + 16),
                x: rd_u32(b, i + 20),
                y: rd_u32(b, i + 24),
            };
            Ok((op, i + 28))
        },
        0x2Au16 => {
            if n - i - 2 < 18 {
                return Err(DecodeError::TruncatedOpcode { tag });
            }
            let op = ScriptOp::QuadraticTo {
                cpx: rd_u32(b, i + 4),
                cpy: rd_u32(b, i + 8),
                x: rd_u32(b, i + 12),
                y: rd_u32(b, i + 16),
            };
            Ok((op, i + 20))
        },
        0x2Bu16 => {
            if n - i - 2 < 26 {
                return Err(DecodeError::TruncatedOpcode { tag });
            }
            let op = ScriptOp::PathTriangle {
                x0: rd_u32(b, i + 4),
                y0: rd_u32(b, i + 8),
                x1: rd_u32(b, i + 12),
                y1: rd_u32(b, i + 16),
                x2: rd_u32(b, i + 20),
                y2: rd_u32(b, i + 24),
            };
            Ok((op, i + 28))
        },
        0x2Cu16 => {
            if n - i - 2 < 34 {
                return Err(DecodeError::TruncatedOpcode { tag });
            }
            let op = ScriptOp::PathQuad {
                x0: rd_u32(b, i + 4),
                y0: rd_u32(b, i + 8),
                x1: rd_u32(b, i + 12),
                y1: rd_u32(b, i + 16),
                x2: rd_u32(b, i + 20),
                y2: rd_u32(b, i + 24),
                x3: rd_u32(b, i + 28),
                y3: rd_u32(b, i + 32),
            };
            Ok((op, i + 36))
        },
        0x2Du16 => {
            if n - i - 2 < 10 {
                return Err(DecodeError::TruncatedOpcode { tag });
            }
            let op = ScriptOp::PathRect { width: rd_u32(b, i + 4), height: rd_u32(b, i + 8) };
            Ok((op, i + 12))
        },
        0x2Eu16 => {
            if n - i - 2 < 14 {
                return Err(DecodeError::TruncatedOpcode { tag });
            }
            let op = ScriptOp::PathRRect {
                width: rd_u32(b, i + 4),
                height: rd_u32(b, i + 8),
                radius: rd_u32(b, i + 12),
            };
            Ok((op, i + 16))
        },
        0x2Fu16 => {
            if n - i - 2 < 10 {
                return Err(DecodeError::TruncatedOpcode { tag });
            }
            let op = ScriptOp::PathSector {
                radius: rd_u32(b, i + 4),
                radians: rd_u32(b, i + 8),
            };
            Ok((op, i + 12))
        },
        0x30u16 => {
            if n - i - 2 < 6 {
                return Err(DecodeError::TruncatedOpcode { tag });
            }
            Ok((ScriptOp::PathCircle { radius: rd_u32(b, i + 4) }, i + 8))
        },
        0x31u16 => {
            if n - i - 2 < 10 {
                return Err(DecodeError::TruncatedOpcode { tag });
            }
            let op = ScriptOp::PathEllipse {
                radius0: rd_u32(b, i + 4),
                radius1: rd_u32(b, i + 8),
            };
            Ok((op, i + 12))
        },
        0x32u16 => {
            if n - i - 2 < 26 {
                return Err(DecodeError::TruncatedOpcode { tag });
            }
            let op = ScriptOp::PathArc {
                cx: rd_u32(b, i + 4),
                cy: rd_u32(b, i + 8),
                radius: rd_u32(b, i + 12),
                start: rd_u32(b, i + 16),
                end: rd_u32(b, i + 20),
                dir: rd_u32(b, i + 24),
            };
            Ok((op, i + 28))
        },
        _ => Err(DecodeError::UnsupportedOpcode { tag }),
    }
}

/// Decodes one state-stack, clip or transform opcode (tags 0x40 through
/// 0x5F).
fn step_state(b: &[u8], i: usize, tag: u16) -> (r: Result<(ScriptOp, usize), DecodeError>)
    requires
        i + 2 <= b@.len(),
        tag == be16(b@, i as int),
        0x40 <= tag <= 0x5F,
    ensures
        match r {
            Ok(p) => spec_step(b@, i as int) == StepR::Next(p.0@, p.1 as int),
            Err(e) => spec_step(b@, i as int) == StepR::Fail(e),
        },
{
    let n = b.len();
    match tag {
        0x40u16 => {
            if n - i - 2 < 2 {
                return Err(DecodeError::TruncatedOpcode { tag });
            }
            Ok((ScriptOp::PushState, i + 4))
        },
        0x41u16 => {
            if n - i - 2 < 2 {
                return Err(DecodeError::TruncatedOpcode { tag });
            }
            Ok((ScriptOp::PopState, i + 4))
        },
        0x42u16 => {
            if n - i - 2 < 2 {
                return Err(DecodeError::TruncatedOpcode { tag });
            }
            Ok((ScriptOp::PopPushState, i + 4))
        },
        0x44u16 => {
            if n - i - 2 < 10 {
                return Err(DecodeError::TruncatedOpcode { tag });
            }
            let op = ScriptOp::Scissor { width: rd_u32(b, i + 4), height: rd_u32(b, i + 8) };
            Ok((op, i + 12))
        },
        0x45u16 => {
            if n - i - 2 < 2 {
                return Err(DecodeError::TruncatedOpcode { tag });
            }
            let mode = rd_u16(b, i + 2);
            match mode {
                0x00u16 => Ok((ScriptOp::ClipPath(ClipMode::Intersect), i + 4)),
                0x01u16 => Ok((ScriptOp::ClipPath(ClipMode::Difference), i + 4)),
                _ => Err(DecodeError::InvalidValue { tag }),
            }
        },
        0x50u16 => {
            if n - i - 2 < 26 {
                return Err(DecodeError::TruncatedOpcode { tag });
            }
            let op = ScriptOp::Transform {
                a: rd_u32(b, i + 4),
                b: rd_u32(b, i + 8),
                c: rd_u32(b, i + 12),
                d: rd_u32(b, i + 16),
                e: rd_u32(b, i + 20),
                f: rd_u32(b, i + 24),
            };
            Ok((op, i + 28))
        },
        0x51u16 => {
            if n - i - 2 < 10 {
                return Err(DecodeError::TruncatedOpcode { tag });
            }
            Ok((ScriptOp::Scale(rd_u32(b, i + 4), rd_u32(b, i + 8)), i + 12))
        },
        0x52u16 => {
            if n - i - 2 < 6 {
                return Err(DecodeError::TruncatedOpcode { tag });
            }
            Ok((ScriptOp::Rotate(rd_u32(b, i + 4)), i + 8))
        },
        0x53u16 => {
            if n - i - 2 < 10 {
                return Err(DecodeError::TruncatedOpcode { tag });
            }
            Ok((ScriptOp::Translate(rd_u32(b, i + 4), rd_u32(b, i + 8)), i + 12))
        },
        _ => Err(DecodeError::UnsupportedOpcode { tag }),
    }
}

/// Decodes one fill-paint or stroke-paint opcode (tags 0x60 through 0x7F).
fn step_paint(b: &[u8], i: usize, tag: u16) -> (r: Result<(ScriptOp, usize), DecodeError>)
    requires
        i + 2 <= b@.len(),
        tag == be16(b@, i as int),
        0x60 <= tag <= 0x7F,
    ensures
        match r {
            Ok(p) => spec_step(b@, i as int) == StepR::Next(p.0@, p.1 as int),
            Err(e) => spec_step(b@, i as int) == StepR::Fail(e),
        },
{
    let n = b.len();
    match tag {
        0x60u16 => {
            if n - i - 2 < 6 {
                return Err(DecodeError::TruncatedOpcode { tag });
            }
            Ok((ScriptOp::FillColor(rd_color(b, i + 4)), i + 8))
        },
        0x61u16 => {
            if n - i - 2 < 26 {
                return Err(DecodeError::TruncatedOpcode { tag });
            }
            let op = ScriptOp::FillLinear {
                start_x: rd_u32(b, i + 4),
                start_y: rd_u32(b, i + 8),
                end_x: rd_u32(b, i + 12),
                end_y: rd_u32(b, i + 16),
                start_color: rd_color(b, i + 20),
                end_color: rd_color(b, i + 24),
            };
            Ok((op, i + 28))
        },
        0x62u16 => {
            if n - i - 2 < 26 {
                return Err(DecodeError::TruncatedOpcode { tag });
            }
            let op = ScriptOp::FillRadial {
                center_x: rd_u32(b, i + 4),
                center_y: rd_u32(b, i + 8),
                inner_radius: rd_u32(b, i + 12),
                outer_radius: rd_u32(b, i + 16),
                start_color: rd_color(b, i + 20),
                end_color: rd_color(b, i + 24),
            };
            Ok((op, i + 28))
        },
        0x63u16 => {
            if n - i - 2 < 2 {
                return Err(DecodeError::TruncatedOpcode { tag });
            }
            match rd_id(b, i + 2) {
                None => Err(DecodeError::TruncatedPayload { tag }),
                Some((id, j)) => Ok((ScriptOp::FillImage(id), j)),
            }
        },
        0x64u16 => {
            if n - i - 2 < 2 {
                return Err(DecodeError::TruncatedOpcode { tag });
            }
            match rd_id(b, i + 2) {
                None => Err(DecodeError::TruncatedPayload { tag }),
                Some((id, j)) => Ok((ScriptOp::FillStream(id), j)),
            }
        },
        0x70u16 => {
            if n - i - 2 < 2 {
                return Err(DecodeError::TruncatedOpcode { tag });
            }
            Ok((ScriptOp::StrokeWidth(rd_u16(b, i + 2)), i + 4))
        },
        0x71u16 => {
            if n - i - 2 < 6 {
                return Err(DecodeError::TruncatedOpcode { tag });
            }
            Ok((ScriptOp::StrokeColor(rd_color(b, i + 4)), i + 8))
        },
        0x72u16 => {
            if n - i - 2 < 26 {
                return Err(DecodeError::TruncatedOpcode { tag });
            }
            let op = ScriptOp::StrokeLinear {
                start_x: rd_u32(b, i + 4),
                start_y: rd_u32(b, i + 8),
                end_x: rd_u32(b, i + 12),
                end_y: rd_u32(b, i + 16),
                start_color: rd_color(b, i + 20),
                end_color: rd_color(b, i + 24),
            };
            Ok((op, i + 28))
        },
        0x73u16 => {
            if n - i - 2 < 26 {
                return Err(DecodeError::TruncatedOpcode { tag });
            }
            let op = ScriptOp::StrokeRadial {
                center_x: rd_u32(b, i + 4),
                center_y: rd_u32(b, i + 8),
                inner_radius: rd_u32(b, i + 12),
                outer_radius: rd_u32(b, i + 16),
                start_color: rd_color(b, i + 20),
                end_color: rd_color(b, i + 24),
            };
            Ok((op, i + 28))
        },
        0x74u16 => {
            if n - i - 2 < 2 {
                return Err(DecodeError::TruncatedOpcode { tag });
            }
            match rd_id(b, i + 2) {
                None => Err(DecodeError::TruncatedPayload { tag }),
                Some((id, j)) => Ok((ScriptOp::StrokeImage(id), j)),
            }
        },
        0x75u16 => {
            if n - i - 2 < 2 {
                return Err(DecodeError::TruncatedOpcode { tag });
            }
            match rd_id(b, i + 2) {
                None => Err(DecodeError::TruncatedPayload { tag }),
                Some((id, j)) => Ok((ScriptOp::StrokeStream(id), j)),
            }
        },
        _ => Err(DecodeError::UnsupportedOpcode { tag }),
    }
}

/// Decodes one stroke-geometry or text opcode (tags 0x80 and above).
fn step_text(b: &[u8], i: usize, tag: u16) -> (r: Result<(ScriptOp, usize), DecodeError>)
    requires
        i + 2 <= b@.len(),
        tag == be16(b@, i as int),
        0x80 <= tag,
    ensures
        match r {
            Ok(p) => spec_step(b@, i as int) == StepR::Next(p.0@, p.1 as int),
            Err(e) => spec_step(b@, i as int) == StepR::Fail(e),
        },
{
    let n = b.len();
    match tag {
        0x80u16 => {
            if n - i - 2 < 2 {
                return Err(DecodeError::TruncatedOpcode { tag });
            }
            let cap = rd_u16(b, i + 2);
            match cap {
                0x00u16 => Ok((ScriptOp::StrokeCap(StrokeCap::Butt), i + 4)),
                0x01u16 => Ok((ScriptOp::StrokeCap(StrokeCap::Round), i + 4)),
                0x02u16 => Ok((ScriptOp::StrokeCap(StrokeCap::Square), i + 4)),
                _ => Err(DecodeError::InvalidValue { tag }),
            }
        },
        0x81u16 => {
            if n - i - 2 < 2 {
                return Err(DecodeError::TruncatedOpcode { tag });
            }
            let join = rd_u16(b, i + 2);
            match join {
                0x00u16 => Ok((ScriptOp::StrokeJoin(StrokeJoin::Bevel), i + 4)),
                0x01u16 => Ok((ScriptOp::StrokeJoin(StrokeJoin::Round), i + 4)),
                0x02u16 => Ok((ScriptOp::StrokeJoin(StrokeJoin::Miter), i + 4)),
                _ => Err(DecodeError::InvalidValue { tag }),
            }
        },
        0x82u16 => {
            if n - i - 2 < 2 {
                return Err(DecodeError::TruncatedOpcode { tag });
            }
            Ok((ScriptOp::StrokeMiterLimit(rd_u16(b, i + 2)), i + 4))
        },
        0x90u16 => {
            if n - i - 2 < 2 {
                return Err(DecodeError::TruncatedOpcode { tag });
            }
            match rd_id(b, i + 2) {
                None => Err(DecodeError::TruncatedPayload { tag }),
                Some((id, j)) => Ok((ScriptOp::Font(id), j)),
            }
        },
        0x91u16 => {
            if n - i - 2 < 2 {
                return Err(DecodeError::TruncatedOpcode { tag });
            }
            Ok((ScriptOp::FontSize(rd_u16(b, i + 2)), i + 4))
        },
        0x92u16 => {
            if n - i - 2 < 2 {
                return Err(DecodeError::TruncatedOpcode { tag });
            }
            let align = rd_u16(b, i + 2);
            match align {
                0x00u16 => Ok((ScriptOp::TextAlign(TextAlign::Left), i + 4)),
                0x01u16 => Ok((ScriptOp::TextAlign(TextAlign::Center), i + 4)),
                0x02u16 => Ok((ScriptOp::TextAlign(TextAlign::Right), i + 4)),
                _ => Err(DecodeError::InvalidValue { tag }),
            }
        },
        0x93u16 => {
            if n - i - 2 < 2 {
                return Err(DecodeError::TruncatedOpcode { tag });
            }
            let base = rd_u16(b, i + 2);
            match base {
                0x00u16 => Ok((ScriptOp::TextBase(TextBase::Top), i + 4)),
                0x01u16 => Ok((ScriptOp::TextBase(TextBase::Middle), i + 4)),
                0x02u16 => Ok((ScriptOp::TextBase(TextBase::Alphabetic), i + 4)),
                0x03u16 => Ok((ScriptOp::TextBase(TextBase::Bottom), i + 4)),
                _ => Err(DecodeError::InvalidValue { tag }),
            }
        },
        _ => Err(DecodeError::UnsupportedOpcode { tag }),
    }
}

/// Decodes the single opcode whose tag sits at offset `i`, returning the
/// operation and the offset of the next tag.
fn decode_step(b: &[u8], i: usize, tag: u16) -> (r: Result<(ScriptOp, usize), DecodeError>)
    requires
        i + 2 <= b@.len(),
        tag == be16(b@, i as int),
    ensures
        match r {
            Ok(p) => spec_step(b@, i as int) == StepR::Next(p.0@, p.1 as int),
            Err(e) => spec_step(b@, i as int) == StepR::Fail(e),
        },
{
    if tag <= 0x1F {
        step_draw(b, i, tag)
    } else if tag <= 0x3F {
        step_path(b, i, tag)
    } else if tag <= 0x5F {
        step_state(b, i, tag)
    } else if tag <= 0x7F {
        step_paint(b, i, tag)
    } else {
        step_text(b, i, tag)
    }
}

// ---------------------------------------------------------------------------
// The decoder
// ---------------------------------------------------------------------------

/// Decodes a whole script buffer into its ordered operation list, or rejects
/// the whole buffer with the error [`spec_decode`] assigns to it.
pub fn parse_script(script: &[u8]) -> (r: Result<Vec<ScriptOp>, DecodeError>)
    ensures
        match r {
            Ok(v) => spec_decode(script@) == Ok::<Seq<OpV>, DecodeError>(ops_view(v@)),
            Err(e) => spec_decode(script@) == Err::<Seq<OpV>, DecodeError>(e),
        },
{
    let n = script.len();
    let mut i: usize = 0;
    let mut ops: Vec<ScriptOp> = Vec::new();
    proof {
        match spec_decode_from(script@, 0int) {
            Ok(s) => {
                assert(ops_view(ops@) + s =~= s);
            },
            Err(_) => {},
        }
    }
    while n - i >= 2
        invariant
            i <= n,
            n == script@.len(),
            match spec_decode_from(script@, i as int) {
                Ok(s) => spec_decode(script@) == Ok::<Seq<OpV>, DecodeError>(ops_view(ops@) + s),
                Err(e) => spec_decode(script@) == Err::<Seq<OpV>, DecodeError>(e),
            },
        decreases n - i,
    {
        let ghost i0 = i as int;
        let ghost ops0 = ops@;
        let tag = rd_u16(script, i);
        match decode_step(script, i, tag) {
            Err(e) => {
                proof {
                    assert(spec_decode_from(script@, i0) == Err::<Seq<OpV>, DecodeError>(e));
                }
                return Err(e);
            },
            Ok((op, j)) => {
                proof {
                    lemma_step_bounds(script@, i0);
                }
                ops.push(op);
                i = j;
                proof {
                    assert(ops_view(ops@) =~= ops_view(ops0) + seq![op@]);
                    match spec_decode_from(script@, i as int) {
                        Ok(s) => {
                            assert(spec_decode_from(script@, i0) == Ok::<Seq<OpV>, DecodeError>(
                                seq![op@] + s,
                            ));
                            assert(ops_view(ops0) + (seq![op@] + s) =~= ops_view(ops@) + s);
                        },
                        Err(_) => {},
                    }
                }
            },
        }
    }
    proof {
        assert(spec_decode_from(script@, i as int) == Ok::<Seq<OpV>, DecodeError>(Seq::empty()));
        assert(ops_view(ops@) + Seq::<OpV>::empty() =~= ops_view(ops@));
    }
    Ok(ops)
}

} // verus!
