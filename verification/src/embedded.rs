//! Embedded render bridge: builds and updates the resource bundle of one
//! host-engine object, registers it in the resource registry, and exposes
//! a paint hook that draws it into a rectangle the GUI allocates inside a
//! panel. The handle holds only the registry key, never a GPU handle, so
//! the bundle has exactly one owner and the deferred callback cannot race
//! the per-frame preparation.

use vstd::prelude::*;

use crate::commands::{DrawCommand, Rect};
use crate::error::BridgeError;
use crate::paint::Shape;
use crate::registry::{callback_commands_spec, Registry, TriangleRenderResources};

verus! {

/// Margin in points kept free around an embedded-render rectangle.
pub const EMBED_MARGIN: u32 = 5;

/// The per-frame buffers and pipeline a host object exposes after its
/// geometry, color and transform were recomputed.
#[derive(Clone, Copy, PartialEq, Eq, Structural, Debug)]
pub struct ObjectBuffers {
    /// The object's vertex buffer.
    pub vertex_buffer: u64,
    /// The object's index buffer.
    pub index_buffer: u64,
    /// How many indices the index buffer holds.
    pub index_count: u32,
    /// The object's transform/color uniform bind group.
    pub uniform: u64,
    /// The object's render pipeline.
    pub shader: u64,
}

/// The region of a GUI panel the authoring code is laying widgets into:
/// the layout cursor, the space still available there, and the shape list
/// the panel's painter accumulates.
pub struct UiSurface {
    /// Layout cursor, left edge, in points.
    pub cursor_x: u32,
    /// Layout cursor, top edge, in points.
    pub cursor_y: u32,
    /// Width still available at the cursor, in points.
    pub avail_w: u32,
    /// Height still available at the cursor, in points.
    pub avail_h: u32,
    /// The shapes painted so far this frame, in paint order.
    pub shapes: Vec<Shape>,
}

impl UiSurface {
    /// A fresh panel region at the origin with the given available space
    /// and no shapes.
    pub fn new(avail_w: u32, avail_h: u32) -> (r: Self)
        ensures
            r.cursor_x == 0,
            r.cursor_y == 0,
            r.avail_w == avail_w,
            r.avail_h == avail_h,
            r.shapes@ == Seq::<Shape>::empty(),
    {
        UiSurface { cursor_x: 0, cursor_y: 0, avail_w, avail_h, shapes: Vec::new() }
    }
}

/// The rectangle an embedded render allocates from a panel: the available
/// space shrunk by the margin on each axis, placed at the layout cursor.
pub open spec fn embed_rect_spec(ui: UiSurface) -> Rect {
    Rect {
        x: ui.cursor_x,
        y: ui.cursor_y,
        w: if ui.avail_w >= EMBED_MARGIN {
            (ui.avail_w - EMBED_MARGIN) as u32
        } else {
            0
        },
        h: if ui.avail_h >= EMBED_MARGIN {
            (ui.avail_h - EMBED_MARGIN) as u32
        } else {
            0
        },
    }
}

/// The bundle `prepare` leaves under the handle's key: the object's fresh
/// buffers, pipeline, uniform and the new camera uniform, with the
/// object's texture group and the default backdrop sub-bundle kept.
pub open spec fn prepared_bundle(
    before: TriangleRenderResources,
    object: ObjectBuffers,
    camera_data: u64,
) -> TriangleRenderResources {
    TriangleRenderResources {
        shader: object.shader,
        vertex_buffer: object.vertex_buffer,
        index_buffer: object.index_buffer,
        index_count: object.index_count,
        uniform: object.uniform,
        camera_data,
        texture: before.texture,
        default_texture: before.default_texture,
        default_shader: before.default_shader,
        default_uniform: before.default_uniform,
    }
}

/// An embedded render instance: only the registry key, never a GPU handle.
#[derive(Clone, Copy, PartialEq, Eq, Structural, Debug)]
pub struct EmbeddedRender {
    /// The key of this instance's bundle in the resource registry.
    pub key: u64,
}

impl EmbeddedRender {
    /// Registers a freshly built resource bundle under a caller-chosen
    /// instance key and hands back the handle. Exactly one bundle may sit
    /// under a key: a second registration under the same key fails
    /// without effect.
    pub fn new(key: u64, bundle: TriangleRenderResources, registry: &mut Registry) -> (r: Result<
        EmbeddedRender,
        BridgeError,
    >)
        requires
            old(registry).wf(),
        ensures
            final(registry).wf(),
            if old(registry)@.dom().contains(key) {
                r == Err::<EmbeddedRender, BridgeError>(BridgeError::AlreadyRegistered(key))
                    && final(registry)@ == old(registry)@
            } else {
                r == Ok::<EmbeddedRender, BridgeError>(EmbeddedRender { key }) && final(registry)@
                    == old(registry)@.insert(key, bundle)
            },
    {
        if registry.table.contains(key) {
            Err(BridgeError::AlreadyRegistered(key))
        } else {
            registry.table.insert(key, bundle);
            Ok(EmbeddedRender { key })
        }
    }

    /// Re-derives the registry entry from the object's current buffers
    /// and the frame's camera uniform, in place: after this call the
    /// bundle reflects the object state just handed in, and only the
    /// object's texture group and the default backdrop survive from
    /// before. Fails without effect when no bundle sits under the key.
    pub fn prepare(
        &self,
        object: ObjectBuffers,
        camera_data: u64,
        registry: &mut Registry,
    ) -> (r: Result<(), BridgeError>)
        requires
            old(registry).wf(),
        ensures
            final(registry).wf(),
            if old(registry)@.dom().contains(self.key) {
                r == Ok::<(), BridgeError>(()) && final(registry)@ == old(registry)@.insert(
                    self.key,
                    prepared_bundle(old(registry)@[self.key], object, camera_data),
                )
            } else {
                r == Err::<(), BridgeError>(BridgeError::BundleMissing(self.key))
                    && final(registry)@ == old(registry)@
            },
    {
        match registry.table.take(self.key) {
            None => Err(BridgeError::BundleMissing(self.key)),
            Some(before) => {
                let fresh = TriangleRenderResources {
                    shader: object.shader,
                    vertex_buffer: object.vertex_buffer,
                    index_buffer: object.index_buffer,
                    index_count: object.index_count,
                    uniform: object.uniform,
                    camera_data,
                    texture: before.texture,
                    default_texture: before.default_texture,
                    default_shader: before.default_shader,
                    default_uniform: before.default_uniform,
                };
                registry.table.insert(self.key, fresh);
                proof {
                    assert(registry@ =~= old(registry)@.insert(
                        self.key,
                        prepared_bundle(old(registry)@[self.key], object, camera_data),
                    ));
                }
                Ok(())
            }
        }
    }

    /// Allocates a rectangle from the panel's available space (shrunk by
    /// the margin), advances the layout cursor past it, and registers the
    /// deferred paint callback as a shape. The shape captures only the
    /// registry key; the bundle is looked up when the host's render pass
    /// reaches the rectangle, later in the same frame.
    pub fn paint(&self, ui: &mut UiSurface)
        requires
            old(ui).cursor_y + old(ui).avail_h <= u32::MAX,
        ensures
            final(ui).cursor_x == old(ui).cursor_x,
            final(ui).avail_w == old(ui).avail_w,
            final(ui).cursor_y == old(ui).cursor_y + embed_rect_spec(*old(ui)).h,
            final(ui).avail_h == old(ui).avail_h - embed_rect_spec(*old(ui)).h,
            final(ui).shapes@ == old(ui).shapes@ + seq![
                Shape::Callback { clip: embed_rect_spec(*old(ui)), key: self.key },
            ],
    {
        let w: u32 = if ui.avail_w >= EMBED_MARGIN {
            ui.avail_w - EMBED_MARGIN
        } else {
            0
        };
        let h: u32 = if ui.avail_h >= EMBED_MARGIN {
            ui.avail_h - EMBED_MARGIN
        } else {
            0
        };
        let rect = Rect { x: ui.cursor_x, y: ui.cursor_y, w, h };
        ui.shapes.push(Shape::Callback { clip: rect, key: self.key });
        ui.cursor_y = ui.cursor_y + h;
        ui.avail_h = ui.avail_h - h;
        proof {
            assert(ui.shapes@ =~= old(ui).shapes@ + seq![
                Shape::Callback { clip: embed_rect_spec(*old(ui)), key: self.key },
            ]);
        }
    }
}

/// Ordering: preparing with object state A and then executing the
/// deferred paint callback draws geometry reflecting exactly A, never a
/// prior frame's state — the callback holds only the registry key, so it
/// observes the bundle as `prepare` left it even when the rectangle was
/// allocated before `prepare` ran in program order.
pub proof fn lemma_prepare_then_paint_draws_prepared(
    reg: Map<u64, TriangleRenderResources>,
    key: u64,
    object: ObjectBuffers,
    camera_data: u64,
)
    requires
        reg.dom().contains(key),
    ensures
        ({
            let prepared = prepared_bundle(reg[key], object, camera_data);
            let after = reg.insert(key, prepared);
            &&& callback_commands_spec(after, key) == Ok::<Seq<DrawCommand>, BridgeError>(
                prepared.commands_spec(),
            )
            &&& prepared.shader == object.shader
            &&& prepared.vertex_buffer == object.vertex_buffer
            &&& prepared.index_buffer == object.index_buffer
            &&& prepared.index_count == object.index_count
            &&& prepared.uniform == object.uniform
            &&& prepared.camera_data == camera_data
        }),
{
}

} // verus!
