//! Embedded render bridge behaviour: registration, per-frame preparation,
//! rectangle allocation, and the deferred callback drawing the prepared
//! state.

use blue_engine_egui::{
    BridgeError, DrawCommand, EmbeddedRender, FrameOutput, Image, ImageDelta, ObjectBuffers,
    PlatformOutput, Rect, Registry, Shape, TriangleRenderResources, UiSurface, EGUI,
};

fn bundle() -> TriangleRenderResources {
    TriangleRenderResources {
        shader: 100,
        vertex_buffer: 101,
        index_buffer: 102,
        index_count: 36,
        texture: 103,
        uniform: 104,
        camera_data: 105,
        default_texture: 106,
        default_shader: 107,
        default_uniform: 108,
    }
}

#[test]
fn new_registers_exactly_one_bundle_per_key() {
    let mut reg = Registry::new();
    let handle = EmbeddedRender::new(1, bundle(), &mut reg).unwrap();
    assert_eq!(handle.key, 1);
    assert!(reg.get(1).is_some());
    let again = EmbeddedRender::new(1, bundle(), &mut reg);
    assert_eq!(again, Err(BridgeError::AlreadyRegistered(1)));
}

#[test]
fn prepare_updates_the_entry_in_place() {
    let mut reg = Registry::new();
    let handle = EmbeddedRender::new(1, bundle(), &mut reg).unwrap();
    let fresh = ObjectBuffers {
        vertex_buffer: 201,
        index_buffer: 202,
        index_count: 12,
        uniform: 204,
        shader: 200,
    };
    assert!(handle.prepare(fresh, 205, &mut reg).is_ok());
    let b = reg.get(1).unwrap();
    assert_eq!(b.shader, 200);
    assert_eq!(b.vertex_buffer, 201);
    assert_eq!(b.index_buffer, 202);
    assert_eq!(b.index_count, 12);
    assert_eq!(b.uniform, 204);
    assert_eq!(b.camera_data, 205);
    // The texture group and the backdrop sub-bundle survive.
    assert_eq!(b.texture, 103);
    assert_eq!(b.default_texture, 106);
    assert_eq!(b.default_shader, 107);
    assert_eq!(b.default_uniform, 108);
}

#[test]
fn prepare_without_a_bundle_fails() {
    let mut reg = Registry::new();
    let handle = EmbeddedRender { key: 9 };
    let fresh = ObjectBuffers {
        vertex_buffer: 1,
        index_buffer: 2,
        index_count: 3,
        uniform: 4,
        shader: 5,
    };
    assert_eq!(
        handle.prepare(fresh, 6, &mut reg),
        Err(BridgeError::BundleMissing(9))
    );
}

#[test]
fn paint_allocates_margin_rect_and_registers_the_callback() {
    let handle = EmbeddedRender { key: 4 };
    let mut ui = UiSurface::new(300, 200);
    handle.paint(&mut ui);
    assert_eq!(ui.shapes.len(), 1);
    assert_eq!(
        ui.shapes[0],
        Shape::Callback { clip: Rect { x: 0, y: 0, w: 295, h: 195 }, key: 4 }
    );
    // The cursor advanced past the allocation; the space shrank.
    assert_eq!(ui.cursor_y, 195);
    assert_eq!(ui.avail_h, 5);
    assert_eq!(ui.avail_w, 300);
}

#[test]
fn paint_with_tiny_panel_allocates_an_empty_rect() {
    let handle = EmbeddedRender { key: 4 };
    let mut ui = UiSurface::new(3, 2);
    handle.paint(&mut ui);
    assert_eq!(
        ui.shapes[0],
        Shape::Callback { clip: Rect { x: 0, y: 0, w: 0, h: 0 }, key: 4 }
    );
    assert_eq!(ui.cursor_y, 0);
}

#[test]
fn callback_draws_the_prepared_state_not_a_prior_one() {
    let mut e = EGUI::new(1000, 800, 600, 7);
    let handle = EmbeddedRender::new(1, bundle(), &mut e.registry).unwrap();

    // The rectangle is allocated (and the callback registered) before
    // prepare runs, as authoring code does mid-frame.
    let mut ui = UiSurface::new(100, 100);
    handle.paint(&mut ui);

    let fresh = ObjectBuffers {
        vertex_buffer: 301,
        index_buffer: 302,
        index_count: 9,
        uniform: 304,
        shader: 300,
    };
    assert!(handle.prepare(fresh, 305, &mut e.registry).is_ok());

    e.ui(FrameOutput {
        platform_output: PlatformOutput { cursor_icon: 0, copied_text: None },
        textures_set: Vec::new(),
        textures_free: Vec::new(),
        shapes: ui.shapes,
    });
    let sub = e.update(800, 600).unwrap().unwrap();
    // The deferred callback resolved the bundle as prepare left it.
    assert_eq!(
        sub.commands,
        vec![
            DrawCommand::SetPipeline { pipeline: 7 },
            DrawCommand::BindGroup { index: 0, group: 106 },
            DrawCommand::SetPipeline { pipeline: 107 },
            DrawCommand::BindGroup { index: 1, group: 305 },
            DrawCommand::SetPipeline { pipeline: 300 },
            DrawCommand::BindGroup { index: 0, group: 103 },
            DrawCommand::BindGroup { index: 2, group: 304 },
            DrawCommand::SetVertexBuffer { buffer: 301 },
            DrawCommand::SetIndexBuffer { buffer: 302 },
            DrawCommand::DrawIndexed {
                first: 0,
                count: 9,
                base_vertex: 0,
                instance_first: 0,
                instance_count: 1,
            },
        ]
    );
    // None of the pre-prepare buffers leaked into the draw.
    assert!(!sub
        .commands
        .contains(&DrawCommand::SetVertexBuffer { buffer: 101 }));
}

#[test]
fn mixed_meshes_and_callbacks_keep_list_order_and_slots() {
    let mut e = EGUI::new(1000, 800, 600, 7);
    assert!(e.renderer.store.apply_set(0, ImageDelta::Full(Image::filled(1, 1, 1))).is_ok());
    EmbeddedRender::new(2, bundle(), &mut e.registry).unwrap();
    let shapes = vec![
        Shape::Poly { clip: Rect { x: 0, y: 0, w: 10, h: 10 }, texture: 0, vertices: 3 },
        Shape::Callback { clip: Rect { x: 0, y: 10, w: 10, h: 10 }, key: 2 },
        Shape::Poly { clip: Rect { x: 0, y: 20, w: 10, h: 10 }, texture: 0, vertices: 3 },
    ];
    e.ui(FrameOutput {
        platform_output: PlatformOutput { cursor_icon: 0, copied_text: None },
        textures_set: Vec::new(),
        textures_free: Vec::new(),
        shapes,
    });
    let sub = e.update(800, 600).unwrap().unwrap();
    // The second mesh takes upload slot 1: callbacks consume no slot.
    assert!(sub.commands.contains(&DrawCommand::SetMeshBuffers { slot: 0 }));
    assert!(sub.commands.contains(&DrawCommand::SetMeshBuffers { slot: 1 }));
    // The callback's draw sits between the two mesh draws.
    let vb = sub
        .commands
        .iter()
        .position(|c| *c == DrawCommand::SetVertexBuffer { buffer: 101 })
        .unwrap();
    let m0 = sub
        .commands
        .iter()
        .position(|c| *c == DrawCommand::SetMeshBuffers { slot: 0 })
        .unwrap();
    let m1 = sub
        .commands
        .iter()
        .position(|c| *c == DrawCommand::SetMeshBuffers { slot: 1 })
        .unwrap();
    assert!(m0 < vb && vb < m1);
}
