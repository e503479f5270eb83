//! Frame lifecycle behaviour: the recorded command sequence, stage
//! ordering (sets, draws, frees), idempotent unchanged frames, and fatal
//! failures without partial draws.

use blue_engine_egui::{
    BridgeError, DrawCommand, FrameOutput, GuiEvent, HostEvent, Image, ImageDelta, PlatformOutput,
    Rect, Shape, EGUI,
};

fn plain_output(shapes: Vec<Shape>) -> FrameOutput {
    FrameOutput {
        platform_output: PlatformOutput { cursor_icon: 0, copied_text: None },
        textures_set: Vec::new(),
        textures_free: Vec::new(),
        shapes,
    }
}

#[test]
fn single_job_records_one_pipeline_one_group_one_draw() {
    let mut e = EGUI::new(1000, 800, 600, 7);
    assert!(e.renderer.store.apply_set(0, ImageDelta::Full(Image::filled(1, 1, 255))).is_ok());
    let shapes = vec![Shape::Poly {
        clip: Rect { x: 0, y: 0, w: 800, h: 600 },
        texture: 0,
        vertices: 4,
    }];
    e.ui(plain_output(shapes));
    let sub = e.update(800, 600).unwrap().unwrap();
    assert_eq!(
        sub.commands,
        vec![
            DrawCommand::SetPipeline { pipeline: 7 },
            DrawCommand::BindTextureGroup { texture: 0 },
            DrawCommand::SetScissor { x: 0, y: 0, w: 800, h: 600 },
            DrawCommand::SetMeshBuffers { slot: 0 },
            DrawCommand::DrawIndexed {
                first: 0,
                count: 6,
                base_vertex: 0,
                instance_first: 0,
                instance_count: 1,
            },
        ]
    );
    let pipelines = sub
        .commands
        .iter()
        .filter(|c| matches!(c, DrawCommand::SetPipeline { .. }))
        .count();
    let groups = sub
        .commands
        .iter()
        .filter(|c| matches!(c, DrawCommand::BindTextureGroup { .. }))
        .count();
    let draws = sub
        .commands
        .iter()
        .filter(|c| matches!(c, DrawCommand::DrawIndexed { .. }))
        .count();
    assert_eq!(pipelines, 1);
    assert_eq!(groups, 1);
    assert_eq!(draws, 1);
}

#[test]
fn missing_bundle_fails_the_frame_fatally() {
    let mut e = EGUI::new(1000, 800, 600, 7);
    let shapes = vec![Shape::Callback {
        clip: Rect { x: 0, y: 0, w: 100, h: 100 },
        key: 11,
    }];
    e.ui(plain_output(shapes));
    let r = e.update(800, 600);
    assert_eq!(r.err(), Some(BridgeError::BundleMissing(11)));
    // The slot is consumed; the next frame starts clean.
    assert!(e.update(800, 600).unwrap().is_none());
}

#[test]
fn unchanged_frames_record_identical_commands() {
    let mut e = EGUI::new(1000, 800, 600, 3);
    assert!(e.renderer.store.apply_set(0, ImageDelta::Full(Image::filled(1, 1, 1))).is_ok());
    let shapes = || {
        vec![
            Shape::Poly { clip: Rect { x: 0, y: 0, w: 400, h: 300 }, texture: 0, vertices: 3 },
            Shape::Poly { clip: Rect { x: 10, y: 10, w: 40, h: 30 }, texture: 0, vertices: 5 },
        ]
    };
    e.ui(plain_output(shapes()));
    let first = e.update(800, 600).unwrap().unwrap();
    e.ui(plain_output(shapes()));
    let second = e.update(800, 600).unwrap().unwrap();
    assert_eq!(first.commands, second.commands);
}

#[test]
fn sets_apply_before_draws_and_frees_after() {
    let mut e = EGUI::new(1000, 800, 600, 7);
    let out = FrameOutput {
        platform_output: PlatformOutput { cursor_icon: 2, copied_text: None },
        textures_set: vec![(3, ImageDelta::Full(Image::filled(2, 2, 8)))],
        textures_free: vec![3],
        shapes: vec![Shape::Poly {
            clip: Rect { x: 0, y: 0, w: 10, h: 10 },
            texture: 3,
            vertices: 4,
        }],
    };
    e.ui(out);
    // The texture is set before the draw is planned and freed only after:
    // the frame succeeds even though it frees the texture it draws.
    let sub = e.update(800, 600).unwrap().unwrap();
    assert!(sub
        .commands
        .contains(&DrawCommand::BindTextureGroup { texture: 3 }));
    assert_eq!(sub.platform_output.cursor_icon, 2);
    assert!(!e.renderer.store.contains(3));
}

#[test]
fn missing_texture_aborts_without_partial_draw() {
    let mut e = EGUI::new(1000, 800, 600, 7);
    let shapes = vec![Shape::Poly {
        clip: Rect { x: 0, y: 0, w: 10, h: 10 },
        texture: 99,
        vertices: 3,
    }];
    e.ui(plain_output(shapes));
    let r = e.update(800, 600);
    assert_eq!(r.err(), Some(BridgeError::TextureMissing(99)));
}

#[test]
fn update_without_a_run_is_a_no_op() {
    let mut e = EGUI::new(1000, 800, 600, 7);
    assert!(e.update(800, 600).unwrap().is_none());
}

#[test]
fn a_new_run_overwrites_the_output_slot() {
    let mut e = EGUI::new(1000, 800, 600, 7);
    e.ui(plain_output(vec![Shape::Callback {
        clip: Rect { x: 0, y: 0, w: 1, h: 1 },
        key: 5,
    }]));
    // Overwritten before submission: the bad callback never runs.
    e.ui(plain_output(Vec::new()));
    let sub = e.update(800, 600).unwrap().unwrap();
    assert_eq!(sub.commands, vec![DrawCommand::SetPipeline { pipeline: 7 }]);
}

#[test]
fn degenerate_polygons_tessellate_to_nothing() {
    let mut e = EGUI::new(1000, 800, 600, 7);
    let shapes = vec![Shape::Poly {
        clip: Rect { x: 0, y: 0, w: 10, h: 10 },
        texture: 0,
        vertices: 2,
    }];
    e.ui(plain_output(shapes));
    let sub = e.update(800, 600).unwrap().unwrap();
    assert_eq!(sub.commands, vec![DrawCommand::SetPipeline { pipeline: 7 }]);
}

#[test]
fn scissor_scales_with_pixels_per_point_and_clamps() {
    let mut e = EGUI::new(2000, 800, 600, 7);
    assert!(e.renderer.store.apply_set(0, ImageDelta::Full(Image::filled(1, 1, 1))).is_ok());
    let shapes = vec![Shape::Poly {
        clip: Rect { x: 100, y: 50, w: 900, h: 100 },
        texture: 0,
        vertices: 3,
    }];
    e.ui(plain_output(shapes));
    let sub = e.update(800, 600).unwrap().unwrap();
    // x,y scaled by 2; width clamped to the surface remainder.
    assert_eq!(
        sub.commands[2],
        DrawCommand::SetScissor { x: 200, y: 100, w: 600, h: 200 }
    );
}

#[test]
fn per_frame_input_reaches_the_run_through_the_plugin() {
    let mut e = EGUI::new(1000, 640, 480, 7);
    e.update_events(HostEvent::CursorMoved { x: 3, y: 4 });
    e.update_events(HostEvent::Other);
    e.update_events(HostEvent::Key { code: 1, pressed: true });
    let raw = e.take_raw_input();
    assert_eq!(
        raw.events,
        vec![
            GuiEvent::PointerMoved { x: 3, y: 4 },
            GuiEvent::Key { code: 1, pressed: true },
        ]
    );
    assert!(e.platform.events.is_empty());
}
