use scenic_driver_skia::canvas::{CanvasCall, Paint, Shader};
use scenic_driver_skia::color::Color;
use scenic_driver_skia::exec::{draw_script, render_frame};
use scenic_driver_skia::ops::ScriptOp;
use scenic_driver_skia::resources::ResourceCaches;
use scenic_driver_skia::state::DrawState;
use scenic_driver_skia::store::RenderState;
use scenic_driver_skia::texture::{TextureError, TextureFormat, texture_to_rgba};

fn bits(value: f32) -> u32 {
    value.to_bits()
}

fn run_root(state: &RenderState, caches: &ResourceCaches) -> Vec<CanvasCall> {
    render_frame(state, caches)
}

fn run_ops(ops: Vec<ScriptOp>) -> (DrawState, Vec<CanvasCall>) {
    let mut state = RenderState::new();
    state.set_script(b"s".to_vec(), ops);
    let caches = ResourceCaches::new();
    let mut ds = DrawState::default();
    let mut stack: Vec<Vec<u8>> = Vec::new();
    let mut out: Vec<CanvasCall> = Vec::new();
    draw_script(&state, &caches, b"s", &mut ds, &mut stack, &mut out);
    (ds, out)
}

#[test]
fn reset_scene_empties_the_store() {
    let mut state = RenderState::new();
    state
        .submit_script(&[0x00, 0x40, 0x00, 0x00])
        .expect("submit failed");
    state
        .submit_script_with_id(b"aux".to_vec(), &[0x00, 0x41, 0x00, 0x00])
        .expect("submit failed");
    assert_eq!(state.script_count(), 2);
    assert!(state.current_root().is_some());

    state.reset_scene();
    assert_eq!(state.script_count(), 0);
    assert!(state.current_root().is_none());
}

#[test]
fn submit_script_installs_the_root_program() {
    let mut state = RenderState::new();
    assert!(state.current_root().is_none());
    state
        .submit_script(&[0x00, 0x40, 0x00, 0x00])
        .expect("submit failed");
    assert_eq!(state.current_root().map(|id| id.clone()), Some(b"_root_".to_vec()));
    assert_eq!(state.script_count(), 1);
}

#[test]
fn rejected_submission_leaves_the_store_unchanged() {
    let mut state = RenderState::new();
    let err = state.submit_script(&[0x00, 0x60, 0x00, 0x00]).unwrap_err();
    assert!(err.message().contains("fill_color opcode truncated"));
    assert_eq!(state.script_count(), 0);
    assert!(state.current_root().is_none());
}

#[test]
fn del_script_clears_the_root_designation() {
    let mut state = RenderState::new();
    state
        .submit_script(&[0x00, 0x40, 0x00, 0x00])
        .expect("submit failed");
    state.del_script(b"_root_");
    assert_eq!(state.script_count(), 0);
    assert!(state.current_root().is_none());
}

#[test]
fn draw_script_of_deleted_identifier_renders_nothing() {
    let mut state = RenderState::new();
    state.set_script(
        b"_root_".to_vec(),
        vec![ScriptOp::DrawScript(b"gone".to_vec())],
    );
    let caches = ResourceCaches::new();
    let calls = run_root(&state, &caches);
    assert_eq!(calls.len(), 1);
    assert!(matches!(calls[0], CanvasCall::Clear { .. }));
}

#[test]
fn cyclic_references_terminate_and_render_once() {
    let mut state = RenderState::new();
    state.set_script(b"a".to_vec(), vec![ScriptOp::DrawScript(b"b".to_vec())]);
    state.set_script(
        b"b".to_vec(),
        vec![
            ScriptOp::FillColor(Color::from_argb(255, 255, 0, 0)),
            ScriptOp::DrawRect { width: bits(40.0), height: bits(20.0), flag: 0x01 },
            ScriptOp::DrawScript(b"a".to_vec()),
        ],
    );
    let caches = ResourceCaches::new();
    let mut ds = DrawState::default();
    let mut stack: Vec<Vec<u8>> = Vec::new();
    let mut out: Vec<CanvasCall> = Vec::new();
    draw_script(&state, &caches, b"a", &mut ds, &mut stack, &mut out);
    let rects = out
        .iter()
        .filter(|c| matches!(c, CanvasCall::DrawRect { .. }))
        .count();
    assert_eq!(rects, 1);
    assert_eq!(out.len(), 1);
    assert!(stack.is_empty());
}

#[test]
fn extra_restores_settle_to_the_default_state() {
    let (ds, calls) = run_ops(vec![
        ScriptOp::PushState,
        ScriptOp::FillColor(Color::from_argb(255, 255, 0, 0)),
        ScriptOp::PushState,
        ScriptOp::StrokeWidth(12),
        ScriptOp::PopState,
        ScriptOp::PopState,
        ScriptOp::PopState,
        ScriptOp::PopState,
    ]);
    let fresh = DrawState::default();
    assert_eq!(ds.fill_color, fresh.fill_color);
    assert_eq!(ds.stroke_width, fresh.stroke_width);
    assert!(ds.stack.is_empty());
    let saves = calls.iter().filter(|c| matches!(c, CanvasCall::Save)).count();
    let restores = calls.iter().filter(|c| matches!(c, CanvasCall::Restore)).count();
    assert_eq!(saves, 2);
    assert_eq!(restores, 2);
}

#[test]
fn rect_fill_flag_emits_exactly_one_fill_call() {
    let (_, calls) = run_ops(vec![ScriptOp::DrawRect {
        width: bits(40.0),
        height: bits(20.0),
        flag: 0x01,
    }]);
    assert_eq!(calls.len(), 1);
    match &calls[0] {
        CanvasCall::DrawRect { paint, .. } => {
            assert!(matches!(paint, Paint::Fill { .. }));
        },
        other => panic!("unexpected call {:?}", other),
    }

    let (_, calls) = run_ops(vec![ScriptOp::DrawRect {
        width: bits(40.0),
        height: bits(20.0),
        flag: 0x03,
    }]);
    assert_eq!(calls.len(), 2);
    assert!(matches!(&calls[0], CanvasCall::DrawRect { paint: Paint::Fill { .. }, .. }));
    assert!(matches!(&calls[1], CanvasCall::DrawRect { paint: Paint::Stroke { .. }, .. }));
}

#[test]
fn flat_fill_color_clears_an_earlier_gradient() {
    let red = Color::from_argb(255, 255, 0, 0);
    let (_, calls) = run_ops(vec![
        ScriptOp::FillLinear {
            start_x: bits(0.0),
            start_y: bits(0.0),
            end_x: bits(10.0),
            end_y: bits(10.0),
            start_color: Color::from_argb(255, 0, 0, 255),
            end_color: Color::from_argb(255, 0, 255, 0),
        },
        ScriptOp::FillColor(red),
        ScriptOp::DrawRect { width: bits(40.0), height: bits(20.0), flag: 0x01 },
    ]);
    assert_eq!(calls.len(), 1);
    match &calls[0] {
        CanvasCall::DrawRect { paint: Paint::Fill { color, shader }, .. } => {
            assert_eq!(*color, red);
            assert!(shader.is_none());
        },
        other => panic!("unexpected call {:?}", other),
    }
}

#[test]
fn gradient_fill_paints_white_under_the_shader() {
    let (_, calls) = run_ops(vec![
        ScriptOp::FillLinear {
            start_x: bits(0.0),
            start_y: bits(0.0),
            end_x: bits(10.0),
            end_y: bits(10.0),
            start_color: Color::from_argb(255, 0, 0, 255),
            end_color: Color::from_argb(255, 0, 255, 0),
        },
        ScriptOp::DrawRect { width: bits(40.0), height: bits(20.0), flag: 0x01 },
    ]);
    match &calls[0] {
        CanvasCall::DrawRect { paint: Paint::Fill { color, shader }, .. } => {
            assert_eq!(*color, Color::from_argb(255, 255, 255, 255));
            assert!(matches!(shader, Some(Shader::Linear { .. })));
        },
        other => panic!("unexpected call {:?}", other),
    }
}

#[test]
fn missing_fill_image_degrades_to_transparent() {
    let (_, calls) = run_ops(vec![
        ScriptOp::FillImage(b"missing".to_vec()),
        ScriptOp::DrawRect { width: bits(40.0), height: bits(20.0), flag: 0x01 },
    ]);
    match &calls[0] {
        CanvasCall::DrawRect { paint: Paint::Fill { color, shader }, .. } => {
            assert_eq!(*color, Color::from_argb(0, 0, 0, 0));
            assert!(shader.is_none());
        },
        other => panic!("unexpected call {:?}", other),
    }
}

#[test]
fn cached_fill_image_becomes_a_shader() {
    let mut state = RenderState::new();
    state.set_script(
        b"s".to_vec(),
        vec![
            ScriptOp::FillImage(b"img".to_vec()),
            ScriptOp::DrawRect { width: bits(40.0), height: bits(20.0), flag: 0x01 },
        ],
    );
    let mut caches = ResourceCaches::new();
    caches.insert_static_image(b"img".to_vec());
    let mut ds = DrawState::default();
    let mut stack: Vec<Vec<u8>> = Vec::new();
    let mut out: Vec<CanvasCall> = Vec::new();
    draw_script(&state, &caches, b"s", &mut ds, &mut stack, &mut out);
    match &out[0] {
        CanvasCall::DrawRect { paint: Paint::Fill { color, shader }, .. } => {
            assert_eq!(*color, Color::from_argb(255, 255, 255, 255));
            assert!(matches!(shader, Some(Shader::Image { .. })));
        },
        other => panic!("unexpected call {:?}", other),
    }
}

#[test]
fn sprite_batch_is_skipped_without_its_image() {
    let cmds = vec![scenic_driver_skia::ops::SpriteCommand {
        sx: bits(0.0),
        sy: bits(0.0),
        sw: bits(8.0),
        sh: bits(8.0),
        dx: bits(0.0),
        dy: bits(0.0),
        dw: bits(8.0),
        dh: bits(8.0),
        alpha: bits(1.0),
    }];
    let (_, calls) = run_ops(vec![ScriptOp::DrawSprites {
        image_id: b"sheet".to_vec(),
        cmds: cmds.clone(),
    }]);
    assert!(calls.is_empty());

    let mut state = RenderState::new();
    state.set_script(
        b"s".to_vec(),
        vec![ScriptOp::DrawSprites { image_id: b"sheet".to_vec(), cmds }],
    );
    let mut caches = ResourceCaches::new();
    caches.insert_static_image(b"sheet".to_vec());
    let mut ds = DrawState::default();
    let mut stack: Vec<Vec<u8>> = Vec::new();
    let mut out: Vec<CanvasCall> = Vec::new();
    draw_script(&state, &caches, b"s", &mut ds, &mut stack, &mut out);
    assert_eq!(out.len(), 1);
    assert!(matches!(&out[0], CanvasCall::DrawImageRect { .. }));
}

#[test]
fn uncached_font_falls_back_to_the_system_font() {
    let (_, calls) = run_ops(vec![
        ScriptOp::Font(b"missing".to_vec()),
        ScriptOp::DrawText(b"hi".to_vec()),
    ]);
    assert_eq!(calls.len(), 1);
    match &calls[0] {
        CanvasCall::DrawText { font_id, .. } => assert!(font_id.is_none()),
        other => panic!("unexpected call {:?}", other),
    }
}

#[test]
fn cached_font_is_selected_for_text() {
    let mut state = RenderState::new();
    state.set_script(
        b"s".to_vec(),
        vec![
            ScriptOp::Font(b"roboto".to_vec()),
            ScriptOp::DrawText(b"hi".to_vec()),
        ],
    );
    let mut caches = ResourceCaches::new();
    caches.insert_font(b"roboto".to_vec());
    let mut ds = DrawState::default();
    let mut stack: Vec<Vec<u8>> = Vec::new();
    let mut out: Vec<CanvasCall> = Vec::new();
    draw_script(&state, &caches, b"s", &mut ds, &mut stack, &mut out);
    match &out[0] {
        CanvasCall::DrawText { font_id, .. } => {
            assert_eq!(font_id.as_deref(), Some(b"roboto".as_slice()));
        },
        other => panic!("unexpected call {:?}", other),
    }
}

#[test]
fn empty_text_draws_nothing() {
    let (_, calls) = run_ops(vec![ScriptOp::DrawText(Vec::new())]);
    assert!(calls.is_empty());
}

#[test]
fn fill_path_keeps_the_path_and_stroke_path_consumes_it() {
    let (ds, calls) = run_ops(vec![
        ScriptOp::BeginPath,
        ScriptOp::MoveTo { x: bits(0.0), y: bits(0.0) },
        ScriptOp::LineTo { x: bits(10.0), y: bits(0.0) },
        ScriptOp::FillPath,
        ScriptOp::FillPath,
        ScriptOp::StrokePath,
        ScriptOp::StrokePath,
    ]);
    // Two fills (path kept), then one stroke (path consumed); the second
    // stroke finds no path and draws nothing.
    assert_eq!(calls.len(), 3);
    assert!(matches!(&calls[0], CanvasCall::DrawPath { paint: Paint::Fill { .. }, .. }));
    assert!(matches!(&calls[1], CanvasCall::DrawPath { paint: Paint::Fill { .. }, .. }));
    assert!(matches!(&calls[2], CanvasCall::DrawPath { paint: Paint::Stroke { .. }, .. }));
    assert!(ds.path.is_none());
}

#[test]
fn render_frame_clears_to_the_background_color() {
    let mut state = RenderState::new();
    state.set_clear_color((10, 20, 30, 40));
    let caches = ResourceCaches::new();
    let calls = run_root(&state, &caches);
    assert_eq!(calls.len(), 1);
    match &calls[0] {
        CanvasCall::Clear { color } => assert_eq!(*color, Color::from_argb(40, 10, 20, 30)),
        other => panic!("unexpected call {:?}", other),
    }
}

#[test]
fn sub_script_state_changes_persist_in_the_parent() {
    let red = Color::from_argb(255, 255, 0, 0);
    let mut state = RenderState::new();
    state.set_script(
        b"parent".to_vec(),
        vec![
            ScriptOp::DrawScript(b"child".to_vec()),
            ScriptOp::DrawRect { width: bits(40.0), height: bits(20.0), flag: 0x01 },
        ],
    );
    state.set_script(b"child".to_vec(), vec![ScriptOp::FillColor(red)]);
    let caches = ResourceCaches::new();
    let mut ds = DrawState::default();
    let mut stack: Vec<Vec<u8>> = Vec::new();
    let mut out: Vec<CanvasCall> = Vec::new();
    draw_script(&state, &caches, b"parent", &mut ds, &mut stack, &mut out);
    match &out[0] {
        CanvasCall::DrawRect { paint: Paint::Fill { color, .. }, .. } => {
            assert_eq!(*color, red);
        },
        other => panic!("unexpected call {:?}", other),
    }
}

#[test]
fn remove_stream_image_forgets_the_texture() {
    let mut caches = ResourceCaches::new();
    caches.insert_stream_image(b"cam0".to_vec());
    assert!(caches.has_stream_image(b"cam0"));
    caches.remove_stream_image(b"cam0");
    assert!(!caches.has_stream_image(b"cam0"));
}

#[test]
fn texture_expansion_per_format() {
    assert_eq!(
        texture_to_rgba(TextureFormat::Gray, 2, 1, &[7, 9]),
        Ok(vec![7, 7, 7, 255, 9, 9, 9, 255])
    );
    assert_eq!(
        texture_to_rgba(TextureFormat::GrayAlpha, 1, 2, &[7, 128, 9, 64]),
        Ok(vec![7, 7, 7, 128, 9, 9, 9, 64])
    );
    assert_eq!(
        texture_to_rgba(TextureFormat::Rgb, 1, 1, &[1, 2, 3]),
        Ok(vec![1, 2, 3, 255])
    );
    assert_eq!(
        texture_to_rgba(TextureFormat::Rgba, 1, 1, &[1, 2, 3, 4]),
        Ok(vec![1, 2, 3, 4])
    );
    assert_eq!(
        texture_to_rgba(TextureFormat::Gray, 2, 1, &[7]),
        Err(TextureError::SizeMismatch)
    );
    assert_eq!(
        texture_to_rgba(TextureFormat::Rgba, u32::MAX, 2, &[]),
        Err(TextureError::DimensionsOverflow)
    );
}

#[test]
fn batch_submission_is_all_or_nothing() {
    let mut state = RenderState::new();
    let good: Vec<u8> = vec![0x00, 0x40, 0x00, 0x00];
    let truncated: Vec<u8> = vec![0x00, 0x60, 0x00, 0x00];
    let err = state
        .submit_scripts(&vec![
            (b"one".to_vec(), good.clone()),
            (b"two".to_vec(), truncated),
        ])
        .unwrap_err();
    assert!(err.message().contains("fill_color opcode truncated"));
    assert_eq!(state.script_count(), 0);

    state
        .submit_scripts(&vec![
            (b"one".to_vec(), good.clone()),
            (b"two".to_vec(), good),
        ])
        .expect("batch submit failed");
    assert_eq!(state.script_count(), 2);
}
