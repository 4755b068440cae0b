use scenic_driver_skia::codec::parse_script;
use scenic_driver_skia::encode::{encode_op, encode_script};
use scenic_driver_skia::color::Color;
use scenic_driver_skia::ops::{ClipMode, ScriptOp, SpriteCommand, StrokeCap, StrokeJoin};

fn push_f32(buf: &mut Vec<u8>, value: f32) {
    buf.extend_from_slice(&value.to_bits().to_be_bytes());
}

fn bits(value: f32) -> u32 {
    value.to_bits()
}

#[test]
fn parse_fill_and_rect() {
    let script: [u8; 20] = [
        0x00, 0x60, 0x00, 0x00, 0xFF, 0x00, 0x00, 0xFF, 0x00, 0x04, 0x00, 0x01, 0x42, 0x20,
        0x00, 0x00, 0x41, 0xA0, 0x00, 0x00,
    ];
    let ops = parse_script(&script).expect("parse_script failed");

    assert_eq!(
        ops,
        vec![
            ScriptOp::FillColor(Color::from_argb(0xFF, 0xFF, 0x00, 0x00)),
            ScriptOp::DrawRect {
                width: bits(40.0),
                height: bits(20.0),
                flag: 0x01,
            }
        ]
    );
}

#[test]
fn parse_rejects_truncated_fill_color() {
    let script: [u8; 4] = [0x00, 0x60, 0x00, 0x00];
    let err = parse_script(&script).unwrap_err();
    assert!(err.message().contains("fill_color opcode truncated"));
}

#[test]
fn parse_rejects_truncated_rect() {
    let script: [u8; 6] = [0x00, 0x04, 0x00, 0x01, 0x00, 0x00];
    let err = parse_script(&script).unwrap_err();
    assert!(err.message().contains("draw_rect opcode truncated"));
}

#[test]
fn parse_rejects_unknown_opcode() {
    let script: [u8; 2] = [0x12, 0x34];
    let err = parse_script(&script).unwrap_err();
    assert!(err.message().contains("unsupported opcode"));
}

#[test]
fn parse_translate_affects_rect() {
    let script: [u8; 40] = [
        0x00, 0x40, 0x00, 0x00, 0x00, 0x53, 0x00, 0x00, 0x42, 0x48, 0x00, 0x00, 0x42, 0x70,
        0x00, 0x00, 0x00, 0x60, 0x00, 0x00, 0x00, 0xFF, 0x00, 0xFF, 0x00, 0x04, 0x00, 0x01,
        0x41, 0x20, 0x00, 0x00, 0x41, 0xA0, 0x00, 0x00, 0x00, 0x41, 0x00, 0x00,
    ];
    let ops = parse_script(&script).expect("parse_script failed");

    assert!(ops.contains(&ScriptOp::Translate(bits(50.0), bits(60.0))));
    assert!(ops.contains(&ScriptOp::DrawRect {
        width: bits(10.0),
        height: bits(20.0),
        flag: 0x01
    }));
}

#[test]
fn parse_includes_draw_script() {
    let mut script: Vec<u8> = vec![0x00, 0x0f, 0x00, 0x04];
    script.extend_from_slice(b"root");
    script.extend_from_slice(&[
        0x00, 0x60, 0x00, 0x00, 0xFF, 0x00, 0x00, 0xFF, 0x00, 0x04, 0x00, 0x01, 0x41, 0x20,
        0x00, 0x00, 0x41, 0xA0, 0x00, 0x00,
    ]);
    let ops = parse_script(&script).expect("parse_script failed");
    assert!(ops.contains(&ScriptOp::DrawScript(b"root".to_vec())));
}

#[test]
fn parse_draw_text() {
    let script: [u8; 8] = [0x00, 0x0A, 0x00, 0x02, b'h', b'i', 0x00, 0x00];
    let ops = parse_script(&script).expect("parse_script failed");
    assert_eq!(ops, vec![ScriptOp::DrawText(b"hi".to_vec())]);
}

#[test]
fn parse_draw_sprites() {
    let mut script: Vec<u8> = Vec::new();
    script.extend_from_slice(&[0x00, 0x0B, 0x00, 0x06]);
    script.extend_from_slice(&[0x00, 0x00, 0x00, 0x01]);
    script.extend_from_slice(b"sprite");
    script.extend_from_slice(&[0x00, 0x00]);
    push_f32(&mut script, 1.0);
    push_f32(&mut script, 2.0);
    push_f32(&mut script, 3.0);
    push_f32(&mut script, 4.0);
    push_f32(&mut script, 5.0);
    push_f32(&mut script, 6.0);
    push_f32(&mut script, 7.0);
    push_f32(&mut script, 8.0);
    push_f32(&mut script, 0.5);

    let ops = parse_script(&script).expect("parse_script failed");
    assert_eq!(
        ops,
        vec![ScriptOp::DrawSprites {
            image_id: b"sprite".to_vec(),
            cmds: vec![SpriteCommand {
                sx: bits(1.0),
                sy: bits(2.0),
                sw: bits(3.0),
                sh: bits(4.0),
                dx: bits(5.0),
                dy: bits(6.0),
                dw: bits(7.0),
                dh: bits(8.0),
                alpha: bits(0.5),
            }]
        }]
    );
}

#[test]
fn parse_clip_path() {
    let script: [u8; 4] = [0x00, 0x45, 0x00, 0x00];
    let ops = parse_script(&script).expect("parse_script failed");
    assert_eq!(ops, vec![ScriptOp::ClipPath(ClipMode::Intersect)]);
}

#[test]
fn parse_draw_line_and_stroke() {
    let script: [u8; 32] = [
        0x00, 0x70, 0x00, 0x08, 0x00, 0x71, 0x00, 0x00, 0x00, 0xFF, 0x00, 0xFF, 0x00, 0x01,
        0x00, 0x02, 0x00, 0x00, 0x00, 0x00, 0x00, 0x00, 0x00, 0x00, 0x41, 0x20, 0x00, 0x00,
        0x41, 0xA0, 0x00, 0x00,
    ];
    let ops = parse_script(&script).expect("parse_script failed");
    // 2.0 units is 8 quarter units on the wire.
    assert!(ops.contains(&ScriptOp::StrokeWidth(8)));
    assert!(ops.contains(&ScriptOp::StrokeColor(Color::from_argb(0xFF, 0x00, 0xFF, 0x00))));
    assert!(ops.contains(&ScriptOp::DrawLine {
        x0: bits(0.0),
        y0: bits(0.0),
        x1: bits(10.0),
        y1: bits(20.0),
        flag: 0x02
    }));
}

#[test]
fn parse_draw_triangle() {
    let script: [u8; 28] = [
        0x00, 0x02, 0x00, 0x03, 0x00, 0x00, 0x00, 0x00, 0x00, 0x00, 0x00, 0x00, 0x41, 0x20,
        0x00, 0x00, 0x00, 0x00, 0x00, 0x00, 0x41, 0x20, 0x00, 0x00, 0x41, 0xA0, 0x00, 0x00,
    ];
    let ops = parse_script(&script).expect("parse_script failed");
    assert_eq!(
        ops,
        vec![ScriptOp::DrawTriangle {
            x0: bits(0.0),
            y0: bits(0.0),
            x1: bits(10.0),
            y1: bits(0.0),
            x2: bits(10.0),
            y2: bits(20.0),
            flag: 0x03
        }]
    );
}

#[test]
fn parse_draw_quad() {
    let script: [u8; 36] = [
        0x00, 0x03, 0x00, 0x03, 0x00, 0x00, 0x00, 0x00, 0x00, 0x00, 0x00, 0x00, 0x41, 0x20,
        0x00, 0x00, 0x00, 0x00, 0x00, 0x00, 0x41, 0x20, 0x00, 0x00, 0x41, 0xA0, 0x00, 0x00,
        0x00, 0x00, 0x00, 0x00, 0x41, 0xA0, 0x00, 0x00,
    ];
    let ops = parse_script(&script).expect("parse_script failed");
    assert_eq!(
        ops,
        vec![ScriptOp::DrawQuad {
            x0: bits(0.0),
            y0: bits(0.0),
            x1: bits(10.0),
            y1: bits(0.0),
            x2: bits(10.0),
            y2: bits(20.0),
            x3: bits(0.0),
            y3: bits(20.0),
            flag: 0x03
        }]
    );
}

#[test]
fn parse_draw_circle() {
    let script: [u8; 8] = [0x00, 0x08, 0x00, 0x03, 0x42, 0x48, 0x00, 0x00];
    let ops = parse_script(&script).expect("parse_script failed");
    assert_eq!(
        ops,
        vec![ScriptOp::DrawCircle {
            radius: bits(50.0),
            flag: 0x03
        }]
    );
}

#[test]
fn parse_draw_arc() {
    let script: [u8; 12] = [
        0x00, 0x06, 0x00, 0x03, 0x42, 0x48, 0x00, 0x00, 0x3F, 0xC9, 0x0F, 0xDB,
    ];
    let ops = parse_script(&script).expect("parse_script failed");
    assert_eq!(
        ops,
        vec![ScriptOp::DrawArc {
            radius: bits(50.0),
            radians: bits(1.5707964),
            flag: 0x03
        }]
    );
}

#[test]
fn parse_draw_sector() {
    let script: [u8; 12] = [
        0x00, 0x07, 0x00, 0x03, 0x42, 0x48, 0x00, 0x00, 0x3F, 0xC9, 0x0F, 0xDB,
    ];
    let ops = parse_script(&script).expect("parse_script failed");
    assert_eq!(
        ops,
        vec![ScriptOp::DrawSector {
            radius: bits(50.0),
            radians: bits(1.5707964),
            flag: 0x03
        }]
    );
}

#[test]
fn parse_draw_ellipse() {
    let script: [u8; 12] = [
        0x00, 0x09, 0x00, 0x03, 0x42, 0x48, 0x00, 0x00, 0x41, 0xC8, 0x00, 0x00,
    ];
    let ops = parse_script(&script).expect("parse_script failed");
    assert_eq!(
        ops,
        vec![ScriptOp::DrawEllipse {
            radius0: bits(50.0),
            radius1: bits(25.0),
            flag: 0x03
        }]
    );
}

#[test]
fn parse_draw_rrect() {
    let script: [u8; 16] = [
        0x00, 0x05, 0x00, 0x03, 0x42, 0x20, 0x00, 0x00, 0x41, 0xA0, 0x00, 0x00, 0x41, 0x20,
        0x00, 0x00,
    ];
    let ops = parse_script(&script).expect("parse_script failed");
    assert_eq!(
        ops,
        vec![ScriptOp::DrawRRect {
            width: bits(40.0),
            height: bits(20.0),
            radius: bits(10.0),
            flag: 0x03
        }]
    );
}

#[test]
fn parse_draw_rrectv() {
    let script: [u8; 28] = [
        0x00, 0x0C, 0x00, 0x03, 0x42, 0x20, 0x00, 0x00, 0x41, 0xA0, 0x00, 0x00, 0x41, 0x20,
        0x00, 0x00, 0x41, 0x00, 0x00, 0x00, 0x41, 0x80, 0x00, 0x00, 0x40, 0x80, 0x00, 0x00,
    ];
    let ops = parse_script(&script).expect("parse_script failed");
    assert_eq!(
        ops,
        vec![ScriptOp::DrawRRectV {
            width: bits(40.0),
            height: bits(20.0),
            ul_radius: bits(10.0),
            ur_radius: bits(8.0),
            lr_radius: bits(16.0),
            ll_radius: bits(4.0),
            flag: 0x03
        }]
    );
}

#[test]
fn parse_stroke_cap_join_miter() {
    let script: [u8; 6] = [
        0x00, 0x80, 0x00, 0x01, 0x00, 0x81, // cap round, join next
    ];
    let script = [script.as_slice(), &[0x00, 0x02, 0x00, 0x82, 0x00, 0x05]].concat();
    let ops = parse_script(&script).expect("parse_script failed");
    assert_eq!(
        ops,
        vec![
            ScriptOp::StrokeCap(StrokeCap::Round),
            ScriptOp::StrokeJoin(StrokeJoin::Miter),
            ScriptOp::StrokeMiterLimit(5)
        ]
    );
}

#[test]
fn parse_path_ops() {
    let mut script: Vec<u8> = Vec::new();
    script.extend_from_slice(&[0x00, 0x20, 0x00, 0x00]);
    script.extend_from_slice(&[0x00, 0x26, 0x00, 0x00]);
    push_f32(&mut script, 1.0);
    push_f32(&mut script, 2.0);
    script.extend_from_slice(&[0x00, 0x27, 0x00, 0x00]);
    push_f32(&mut script, 3.0);
    push_f32(&mut script, 4.0);
    script.extend_from_slice(&[0x00, 0x28, 0x00, 0x00]);
    push_f32(&mut script, 5.0);
    push_f32(&mut script, 6.0);
    push_f32(&mut script, 7.0);
    push_f32(&mut script, 8.0);
    push_f32(&mut script, 9.0);
    script.extend_from_slice(&[0x00, 0x29, 0x00, 0x00]);
    push_f32(&mut script, 1.0);
    push_f32(&mut script, 2.0);
    push_f32(&mut script, 3.0);
    push_f32(&mut script, 4.0);
    push_f32(&mut script, 5.0);
    push_f32(&mut script, 6.0);
    script.extend_from_slice(&[0x00, 0x2A, 0x00, 0x00]);
    push_f32(&mut script, 7.0);
    push_f32(&mut script, 8.0);
    push_f32(&mut script, 9.0);
    push_f32(&mut script, 10.0);
    script.extend_from_slice(&[0x00, 0x21, 0x00, 0x00]);
    script.extend_from_slice(&[0x00, 0x22, 0x00, 0x00]);
    script.extend_from_slice(&[0x00, 0x23, 0x00, 0x00]);
    script.extend_from_slice(&[0x00, 0x44, 0x00, 0x00]);
    push_f32(&mut script, 30.0);
    push_f32(&mut script, 40.0);

    let ops = parse_script(&script).expect("parse_script failed");
    assert_eq!(
        ops,
        vec![
            ScriptOp::BeginPath,
            ScriptOp::MoveTo { x: bits(1.0), y: bits(2.0) },
            ScriptOp::LineTo { x: bits(3.0), y: bits(4.0) },
            ScriptOp::ArcTo {
                x1: bits(5.0),
                y1: bits(6.0),
                x2: bits(7.0),
                y2: bits(8.0),
                radius: bits(9.0)
            },
            ScriptOp::BezierTo {
                cp1x: bits(1.0),
                cp1y: bits(2.0),
                cp2x: bits(3.0),
                cp2y: bits(4.0),
                x: bits(5.0),
                y: bits(6.0)
            },
            ScriptOp::QuadraticTo {
                cpx: bits(7.0),
                cpy: bits(8.0),
                x: bits(9.0),
                y: bits(10.0)
            },
            ScriptOp::ClosePath,
            ScriptOp::FillPath,
            ScriptOp::StrokePath,
            ScriptOp::Scissor {
                width: bits(30.0),
                height: bits(40.0)
            }
        ]
    );
}

#[test]
fn parse_path_shape_ops() {
    let mut script: Vec<u8> = Vec::new();
    script.extend_from_slice(&[0x00, 0x20, 0x00, 0x00]);
    script.extend_from_slice(&[0x00, 0x2B, 0x00, 0x00]);
    push_f32(&mut script, 1.0);
    push_f32(&mut script, 2.0);
    push_f32(&mut script, 3.0);
    push_f32(&mut script, 4.0);
    push_f32(&mut script, 5.0);
    push_f32(&mut script, 6.0);
    script.extend_from_slice(&[0x00, 0x2C, 0x00, 0x00]);
    push_f32(&mut script, 7.0);
    push_f32(&mut script, 8.0);
    push_f32(&mut script, 9.0);
    push_f32(&mut script, 10.0);
    push_f32(&mut script, 11.0);
    push_f32(&mut script, 12.0);
    push_f32(&mut script, 13.0);
    push_f32(&mut script, 14.0);
    script.extend_from_slice(&[0x00, 0x2D, 0x00, 0x00]);
    push_f32(&mut script, 15.0);
    push_f32(&mut script, 16.0);
    script.extend_from_slice(&[0x00, 0x2E, 0x00, 0x00]);
    push_f32(&mut script, 17.0);
    push_f32(&mut script, 18.0);
    push_f32(&mut script, 19.0);
    script.extend_from_slice(&[0x00, 0x2F, 0x00, 0x00]);
    push_f32(&mut script, 20.0);
    push_f32(&mut script, 1.5);
    script.extend_from_slice(&[0x00, 0x30, 0x00, 0x00]);
    push_f32(&mut script, 21.0);
    script.extend_from_slice(&[0x00, 0x31, 0x00, 0x00]);
    push_f32(&mut script, 22.0);
    push_f32(&mut script, 23.0);
    script.extend_from_slice(&[0x00, 0x32, 0x00, 0x00]);
    push_f32(&mut script, 24.0);
    push_f32(&mut script, 25.0);
    push_f32(&mut script, 26.0);
    push_f32(&mut script, 0.1);
    push_f32(&mut script, 0.2);
    script.extend_from_slice(&1u32.to_be_bytes());

    let ops = parse_script(&script).expect("parse_script failed");
    assert_eq!(
        ops,
        vec![
            ScriptOp::BeginPath,
            ScriptOp::PathTriangle {
                x0: bits(1.0),
                y0: bits(2.0),
                x1: bits(3.0),
                y1: bits(4.0),
                x2: bits(5.0),
                y2: bits(6.0),
            },
            ScriptOp::PathQuad {
                x0: bits(7.0),
                y0: bits(8.0),
                x1: bits(9.0),
                y1: bits(10.0),
                x2: bits(11.0),
                y2: bits(12.0),
                x3: bits(13.0),
                y3: bits(14.0),
            },
            ScriptOp::PathRect {
                width: bits(15.0),
                height: bits(16.0)
            },
            ScriptOp::PathRRect {
                width: bits(17.0),
                height: bits(18.0),
                radius: bits(19.0)
            },
            ScriptOp::PathSector {
                radius: bits(20.0),
                radians: bits(1.5)
            },
            ScriptOp::PathCircle { radius: bits(21.0) },
            ScriptOp::PathEllipse {
                radius0: bits(22.0),
                radius1: bits(23.0)
            },
            ScriptOp::PathArc {
                cx: bits(24.0),
                cy: bits(25.0),
                radius: bits(26.0),
                start: bits(0.1),
                end: bits(0.2),
                dir: 1
            }
        ]
    );
}

#[test]
fn parse_linear_gradients() {
    let mut script: Vec<u8> = Vec::new();
    script.extend_from_slice(&[0x00, 0x61, 0x00, 0x00]);
    push_f32(&mut script, 1.0);
    push_f32(&mut script, 2.0);
    push_f32(&mut script, 3.0);
    push_f32(&mut script, 4.0);
    script.extend_from_slice(&[10, 20, 30, 40, 50, 60, 70, 80]);
    script.extend_from_slice(&[0x00, 0x72, 0x00, 0x00]);
    push_f32(&mut script, 5.0);
    push_f32(&mut script, 6.0);
    push_f32(&mut script, 7.0);
    push_f32(&mut script, 8.0);
    script.extend_from_slice(&[1, 2, 3, 4, 5, 6, 7, 8]);

    let ops = parse_script(&script).expect("parse_script failed");
    assert_eq!(
        ops,
        vec![
            ScriptOp::FillLinear {
                start_x: bits(1.0),
                start_y: bits(2.0),
                end_x: bits(3.0),
                end_y: bits(4.0),
                start_color: Color::from_argb(40, 10, 20, 30),
                end_color: Color::from_argb(80, 50, 60, 70),
            },
            ScriptOp::StrokeLinear {
                start_x: bits(5.0),
                start_y: bits(6.0),
                end_x: bits(7.0),
                end_y: bits(8.0),
                start_color: Color::from_argb(4, 1, 2, 3),
                end_color: Color::from_argb(8, 5, 6, 7),
            }
        ]
    );
}

#[test]
fn trailing_single_byte_is_ignored() {
    let script: [u8; 5] = [0x00, 0x20, 0x00, 0x00, 0x7F];
    let ops = parse_script(&script).expect("parse_script failed");
    assert_eq!(ops, vec![ScriptOp::BeginPath]);
}

#[test]
fn invalid_enumerants_are_rejected() {
    assert!(parse_script(&[0x00, 0x45, 0x00, 0x07])
        .unwrap_err()
        .message()
        .contains("clip_path opcode invalid"));
    assert!(parse_script(&[0x00, 0x80, 0x00, 0x07])
        .unwrap_err()
        .message()
        .contains("cap opcode invalid"));
    assert!(parse_script(&[0x00, 0x81, 0x00, 0x07])
        .unwrap_err()
        .message()
        .contains("join opcode invalid"));
    assert!(parse_script(&[0x00, 0x92, 0x00, 0x07])
        .unwrap_err()
        .message()
        .contains("unsupported text_align value"));
    assert!(parse_script(&[0x00, 0x93, 0x00, 0x07])
        .unwrap_err()
        .message()
        .contains("unsupported text_base value"));
}

#[test]
fn truncated_string_payload_is_rejected() {
    // draw_script declares 4 identifier bytes but only 2 follow.
    let script: [u8; 6] = [0x00, 0x0F, 0x00, 0x04, b'r', b'o'];
    let err = parse_script(&script).unwrap_err();
    assert!(err.message().contains("draw_script payload truncated"));
}

#[test]
fn truncated_sprite_records_are_rejected() {
    let mut script: Vec<u8> = Vec::new();
    script.extend_from_slice(&[0x00, 0x0B, 0x00, 0x04]);
    script.extend_from_slice(&[0x00, 0x00, 0x00, 0x02]);
    script.extend_from_slice(b"shee");
    // Two records declared, no record bytes present.
    let err = parse_script(&script).unwrap_err();
    assert!(err.message().contains("draw_sprites command data truncated"));
}

#[test]
fn unsupported_opcode_message_names_the_tag() {
    let err = parse_script(&[0x12, 0x34]).unwrap_err();
    assert_eq!(err.message(), "unsupported opcode: 0x1234");
    let err = parse_script(&[0x00, 0x99]).unwrap_err();
    assert_eq!(err.message(), "unsupported opcode: 0x99");
}

#[test]
fn encode_then_decode_round_trips_each_opcode_kind() {
    let ops = vec![
        ScriptOp::PushState,
        ScriptOp::PopState,
        ScriptOp::PopPushState,
        ScriptOp::Translate(bits(50.0), bits(60.0)),
        ScriptOp::Rotate(bits(1.0)),
        ScriptOp::Scale(bits(2.0), bits(3.0)),
        ScriptOp::Transform {
            a: bits(1.0),
            b: bits(0.0),
            c: bits(0.0),
            d: bits(1.0),
            e: bits(5.0),
            f: bits(6.0),
        },
        ScriptOp::FillColor(Color::from_argb(255, 255, 0, 0)),
        ScriptOp::StrokeColor(Color::from_argb(255, 0, 255, 0)),
        ScriptOp::StrokeWidth(8),
        ScriptOp::FillLinear {
            start_x: bits(1.0),
            start_y: bits(2.0),
            end_x: bits(3.0),
            end_y: bits(4.0),
            start_color: Color::from_argb(40, 10, 20, 30),
            end_color: Color::from_argb(80, 50, 60, 70),
        },
        ScriptOp::FillRadial {
            center_x: bits(1.0),
            center_y: bits(2.0),
            inner_radius: bits(0.0),
            outer_radius: bits(9.0),
            start_color: Color::from_argb(40, 10, 20, 30),
            end_color: Color::from_argb(80, 50, 60, 70),
        },
        ScriptOp::FillImage(b"img".to_vec()),
        ScriptOp::FillStream(b"cam0".to_vec()),
        ScriptOp::StrokeImage(b"img".to_vec()),
        ScriptOp::StrokeStream(b"cam0".to_vec()),
        ScriptOp::StrokeCap(StrokeCap::Round),
        ScriptOp::StrokeJoin(StrokeJoin::Bevel),
        ScriptOp::StrokeMiterLimit(5),
        ScriptOp::ClipPath(ClipMode::Difference),
        ScriptOp::Scissor { width: bits(30.0), height: bits(40.0) },
        ScriptOp::BeginPath,
        ScriptOp::ClosePath,
        ScriptOp::FillPath,
        ScriptOp::StrokePath,
        ScriptOp::MoveTo { x: bits(1.0), y: bits(2.0) },
        ScriptOp::LineTo { x: bits(3.0), y: bits(4.0) },
        ScriptOp::ArcTo {
            x1: bits(5.0),
            y1: bits(6.0),
            x2: bits(7.0),
            y2: bits(8.0),
            radius: bits(9.0),
        },
        ScriptOp::PathRect { width: bits(15.0), height: bits(16.0) },
        ScriptOp::PathCircle { radius: bits(21.0) },
        ScriptOp::DrawLine {
            x0: bits(0.0),
            y0: bits(0.0),
            x1: bits(10.0),
            y1: bits(20.0),
            flag: 2,
        },
        ScriptOp::DrawRect { width: bits(40.0), height: bits(20.0), flag: 1 },
        ScriptOp::DrawSprites {
            image_id: b"sprite".to_vec(),
            cmds: vec![SpriteCommand {
                sx: bits(1.0),
                sy: bits(2.0),
                sw: bits(3.0),
                sh: bits(4.0),
                dx: bits(5.0),
                dy: bits(6.0),
                dw: bits(7.0),
                dh: bits(8.0),
                alpha: bits(0.5),
            }],
        },
        ScriptOp::DrawText(b"hi".to_vec()),
        ScriptOp::Font(b"roboto".to_vec()),
        ScriptOp::FontSize(80),
        ScriptOp::DrawScript(b"root".to_vec()),
    ];
    for op in ops {
        let encoded = encode_op(&op);
        let decoded = parse_script(&encoded).expect("round trip decode failed");
        assert_eq!(decoded, vec![op]);
    }
}

#[test]
fn string_payload_consumes_padded_length() {
    for len in 0..9usize {
        let id: Vec<u8> = std::iter::repeat(b'x').take(len).collect();
        let encoded = encode_op(&ScriptOp::DrawScript(id));
        let pad = (4 - len % 4) % 4;
        assert_eq!(encoded.len(), 4 + len + pad);
    }
}

#[test]
fn truncating_any_payload_names_the_opcode() {
    let encoded = encode_op(&ScriptOp::DrawRect {
        width: bits(40.0),
        height: bits(20.0),
        flag: 1,
    });
    for k in 2..encoded.len() {
        let err = parse_script(&encoded[..k]).unwrap_err();
        assert!(err.message().contains("draw_rect"));
    }
    let encoded = encode_op(&ScriptOp::DrawScript(b"root".to_vec()));
    for k in 2..encoded.len() {
        let err = parse_script(&encoded[..k]).unwrap_err();
        assert!(err.message().contains("draw_script"));
    }
}

#[test]
fn encode_script_round_trips_a_whole_program() {
    let ops = vec![
        ScriptOp::FillColor(Color::from_argb(255, 255, 0, 0)),
        ScriptOp::Translate(bits(50.0), bits(60.0)),
        ScriptOp::DrawRect { width: bits(40.0), height: bits(20.0), flag: 0x01 },
        ScriptOp::DrawScript(b"aux".to_vec()),
    ];
    let buffer = encode_script(&ops);
    let decoded = parse_script(&buffer).expect("round trip decode failed");
    assert_eq!(decoded, ops);
}
