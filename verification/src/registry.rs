//! Resource registry: a keyed store of GPU resource bundles, one entry per
//! embedded-render instance. Deferred paint callbacks carry only a registry
//! key, never a GPU handle, so the bundle has exactly one owner.

use vstd::prelude::*;

use crate::commands::DrawCommand;
use crate::error::BridgeError;
use crate::table::Table;

verus! {

/// The GPU resources needed to draw one embedded scene: every field names
/// a host-side resource by id. The bundle pairs the object's own pipeline,
/// buffers and bind groups with a default backdrop sub-bundle that keeps
/// the bind-group layout fully populated before real data arrives.
#[derive(Clone, Copy, PartialEq, Eq, Structural, Debug)]
pub struct TriangleRenderResources {
    /// The object's render pipeline.
    pub shader: u64,
    /// The object's vertex buffer.
    pub vertex_buffer: u64,
    /// The object's index buffer.
    pub index_buffer: u64,
    /// How many indices the object's index buffer holds.
    pub index_count: u32,
    /// The object's texture bind group.
    pub texture: u64,
    /// The object's transform/color uniform bind group.
    pub uniform: u64,
    /// The camera uniform bind group.
    pub camera_data: u64,
    /// Backdrop texture bind group of the default sub-bundle.
    pub default_texture: u64,
    /// Backdrop pipeline of the default sub-bundle.
    pub default_shader: u64,
    /// Backdrop uniform buffer of the default sub-bundle (owned, unbound).
    pub default_uniform: u64,
}

impl TriangleRenderResources {
    /// The exact command sequence drawing this bundle records: backdrop
    /// binds first, then the object's pipeline, groups and buffers, then
    /// one indexed draw over the whole index buffer, instance range 0..1.
    pub open spec fn commands_spec(self) -> Seq<DrawCommand> {
        seq![
            DrawCommand::BindGroup { index: 0, group: self.default_texture },
            DrawCommand::SetPipeline { pipeline: self.default_shader },
            DrawCommand::BindGroup { index: 1, group: self.camera_data },
            DrawCommand::SetPipeline { pipeline: self.shader },
            DrawCommand::BindGroup { index: 0, group: self.texture },
            DrawCommand::BindGroup { index: 2, group: self.uniform },
            DrawCommand::SetVertexBuffer { buffer: self.vertex_buffer },
            DrawCommand::SetIndexBuffer { buffer: self.index_buffer },
            DrawCommand::DrawIndexed {
                first: 0,
                count: self.index_count,
                base_vertex: 0,
                instance_first: 0,
                instance_count: 1,
            },
        ]
    }

    /// Records the draw of this bundle into a command list.
    pub fn paint(&self, out: &mut Vec<DrawCommand>)
        ensures
            final(out)@ == old(out)@ + self.commands_spec(),
    {
        out.push(DrawCommand::BindGroup { index: 0, group: self.default_texture });
        out.push(DrawCommand::SetPipeline { pipeline: self.default_shader });
        out.push(DrawCommand::BindGroup { index: 1, group: self.camera_data });
        out.push(DrawCommand::SetPipeline { pipeline: self.shader });
        out.push(DrawCommand::BindGroup { index: 0, group: self.texture });
        out.push(DrawCommand::BindGroup { index: 2, group: self.uniform });
        out.push(DrawCommand::SetVertexBuffer { buffer: self.vertex_buffer });
        out.push(DrawCommand::SetIndexBuffer { buffer: self.index_buffer });
        out.push(DrawCommand::DrawIndexed {
            first: 0,
            count: self.index_count,
            base_vertex: 0,
            instance_first: 0,
            instance_count: 1,
        });
        proof {
            assert(out@ =~= old(out)@ + self.commands_spec());
        }
    }
}

/// The registry: resource bundles keyed by an instance key the caller
/// chooses at creation time. Exactly one bundle may sit under a key.
pub struct Registry {
    /// The key-to-bundle table.
    pub table: Table<TriangleRenderResources>,
}

impl Registry {
    /// The map from instance key to bundle.
    pub open spec fn view(&self) -> Map<u64, TriangleRenderResources> {
        self.table@
    }

    /// Well-formed: keys unique.
    pub open spec fn wf(&self) -> bool {
        self.table.wf()
    }

    /// An empty registry.
    pub fn new() -> (r: Self)
        ensures
            r.wf(),
            r@ == Map::<u64, TriangleRenderResources>::empty(),
    {
        Registry { table: Table::new() }
    }

    /// The bundle under a key, if any.
    pub fn get(&self, key: u64) -> (r: Option<&TriangleRenderResources>)
        requires
            self.wf(),
        ensures
            match r {
                Some(b) => self@.dom().contains(key) && *b == self@[key],
                None => !self@.dom().contains(key),
            },
    {
        self.table.get(key)
    }
}

/// What executing a deferred paint callback yields: the commands of the
/// bundle under the callback's key, or a fatal lookup failure when no
/// bundle sits there.
pub open spec fn callback_commands_spec(reg: Map<u64, TriangleRenderResources>, key: u64) -> Result<
    Seq<DrawCommand>,
    BridgeError,
> {
    if reg.dom().contains(key) {
        Ok(reg[key].commands_spec())
    } else {
        Err(BridgeError::BundleMissing(key))
    }
}

/// Executes a deferred paint callback against the registry: looks the
/// bundle up by key and records its draw, or fails fatally when the key
/// has no bundle.
pub fn execute_callback(reg: &Registry, key: u64, out: &mut Vec<DrawCommand>) -> (r: Result<
    (),
    BridgeError,
>)
    requires
        reg.wf(),
    ensures
        match r {
            Ok(()) => callback_commands_spec(reg@, key) matches Ok(cs) && final(out)@ == old(out)@
                + cs,
            Err(e) => callback_commands_spec(reg@, key) == Err::<Seq<DrawCommand>, BridgeError>(e)
                && final(out)@ == old(out)@,
        },
{
    match reg.get(key) {
        Some(bundle) => {
            bundle.paint(out);
            Ok(())
        }
        None => Err(BridgeError::BundleMissing(key)),
    }
}

} // verus!
