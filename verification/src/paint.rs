//! Tessellation model and the paint-job renderer: shapes become an ordered
//! sequence of paint jobs; each job becomes the commands that draw it,
//! back-to-front in list order, against the textures and the registry.

use vstd::prelude::*;

use crate::commands::{scissor, scissor_spec, DrawCommand, Rect, ScreenDescriptor};
use crate::error::BridgeError;
use crate::registry::{callback_commands_spec, execute_callback, Registry, TriangleRenderResources};
use crate::textures::{Image, TextureStore};

verus! {

/// One untessellated draw primitive of a frame's output.
#[derive(Clone, Copy, PartialEq, Eq, Structural, Debug)]
pub enum Shape {
    /// A filled convex polygon, textured by a GUI texture id; the clip
    /// rectangle is in logical points.
    Poly { clip: Rect, texture: u64, vertices: u16 },
    /// A deferred embedded-render callback, carrying only a registry key.
    Callback { clip: Rect, key: u64 },
}

/// What one tessellated job draws.
#[derive(Clone, Copy, PartialEq, Eq, Structural, Debug)]
pub enum JobKind {
    /// A triangle mesh over an uploaded vertex/index slice pair.
    Mesh { texture: u64, index_count: u32 },
    /// An embedded-render callback resolved through the registry.
    Callback { key: u64 },
}

/// One tessellated, clipped batch, ready for submission. Render order is
/// list order, back to front.
#[derive(Clone, Copy, PartialEq, Eq, Structural, Debug)]
pub struct PaintJob {
    /// Clip rectangle in logical points.
    pub clip: Rect,
    /// What the job draws.
    pub kind: JobKind,
}

/// The jobs one shape tessellates into: a convex polygon of `n >= 3`
/// vertices becomes one fan mesh of `3 * (n - 2)` indices; degenerate
/// polygons vanish; a callback shape passes through.
pub open spec fn shape_jobs(sh: Shape) -> Seq<PaintJob> {
    match sh {
        Shape::Poly { clip, texture, vertices } => if vertices >= 3 {
            seq![
                PaintJob {
                    clip,
                    kind: JobKind::Mesh { texture, index_count: (3 * (vertices - 2)) as u32 },
                },
            ]
        } else {
            Seq::empty()
        },
        Shape::Callback { clip, key } => seq![PaintJob { clip, kind: JobKind::Callback { key } }],
    }
}

/// Tessellation of a shape list, preserving list order.
pub open spec fn tessellate_spec(shapes: Seq<Shape>) -> Seq<PaintJob>
    decreases shapes.len(),
{
    if shapes.len() == 0 {
        Seq::empty()
    } else {
        tessellate_spec(shapes.drop_last()) + shape_jobs(shapes.last())
    }
}

/// Tessellates a frame's shapes into its ordered paint jobs.
pub fn tessellate(shapes: &Vec<Shape>) -> (r: Vec<PaintJob>)
    ensures
        r@ == tessellate_spec(shapes@),
{
    let mut jobs: Vec<PaintJob> = Vec::new();
    let mut i: usize = 0;
    while i < shapes.len()
        invariant
            i <= shapes@.len(),
            jobs@ == tessellate_spec(shapes@.take(i as int)),
        decreases shapes@.len() - i,
    {
        let sh = shapes[i];
        match sh {
            Shape::Poly { clip, texture, vertices } => {
                if vertices >= 3 {
                    let index_count: u32 = 3 * ((vertices as u32) - 2);
                    jobs.push(PaintJob { clip, kind: JobKind::Mesh { texture, index_count } });
                }
            }
            Shape::Callback { clip, key } => {
                jobs.push(PaintJob { clip, kind: JobKind::Callback { key } });
            }
        }
        proof {
            assert(shapes@.take(i + 1).drop_last() =~= shapes@.take(i as int));
            assert(shapes@.take(i + 1).last() == sh);
            assert(jobs@ =~= tessellate_spec(shapes@.take(i as int)) + shape_jobs(sh));
        }
        i += 1;
    }
    proof {
        assert(shapes@.take(shapes@.len() as int) =~= shapes@);
    }
    jobs
}

/// How many mesh jobs a job sequence holds; meshes take upload slots in
/// this order.
pub open spec fn mesh_count(jobs: Seq<PaintJob>) -> int
    decreases jobs.len(),
{
    if jobs.len() == 0 {
        0
    } else {
        mesh_count(jobs.drop_last()) + (if jobs.last().kind is Mesh {
            1int
        } else {
            0int
        })
    }
}

/// The commands one job records. A mesh binds the texture group of its
/// texture id, sets the scaled scissor, binds its uploaded mesh slices and
/// draws its indices over instance range 0..1; a missing texture id is a
/// fatal lookup failure. A callback resolves through the registry.
pub open spec fn job_commands_spec(
    job: PaintJob,
    slot: int,
    screen: ScreenDescriptor,
    tex_dom: Set<u64>,
    reg: Map<u64, TriangleRenderResources>,
) -> Result<Seq<DrawCommand>, BridgeError> {
    match job.kind {
        JobKind::Mesh { texture, index_count } => if tex_dom.contains(texture) {
            let sc = scissor_spec(job.clip, screen);
            Ok(
                seq![
                    DrawCommand::BindTextureGroup { texture },
                    DrawCommand::SetScissor { x: sc.x, y: sc.y, w: sc.w, h: sc.h },
                    DrawCommand::SetMeshBuffers { slot: slot as u64 },
                    DrawCommand::DrawIndexed {
                        first: 0,
                        count: index_count,
                        base_vertex: 0,
                        instance_first: 0,
                        instance_count: 1,
                    },
                ],
            )
        } else {
            Err(BridgeError::TextureMissing(texture))
        },
        JobKind::Callback { key } => callback_commands_spec(reg, key),
    }
}

/// The commands a whole job sequence records, in order; the first failure
/// aborts the frame, yielding no commands at all.
pub open spec fn jobs_commands_spec(
    jobs: Seq<PaintJob>,
    screen: ScreenDescriptor,
    tex_dom: Set<u64>,
    reg: Map<u64, TriangleRenderResources>,
) -> Result<Seq<DrawCommand>, BridgeError>
    decreases jobs.len(),
{
    if jobs.len() == 0 {
        Ok(Seq::empty())
    } else {
        match jobs_commands_spec(jobs.drop_last(), screen, tex_dom, reg) {
            Err(e) => Err(e),
            Ok(cs) => match job_commands_spec(
                jobs.last(),
                mesh_count(jobs.drop_last()),
                screen,
                tex_dom,
                reg,
            ) {
                Err(e) => Err(e),
                Ok(tail) => Ok(cs + tail),
            },
        }
    }
}

/// A full render pass: the GUI pipeline bound once, then every job's
/// commands in job order.
pub open spec fn render_pass_spec(
    pipeline: u64,
    jobs: Seq<PaintJob>,
    screen: ScreenDescriptor,
    tex_dom: Set<u64>,
    reg: Map<u64, TriangleRenderResources>,
) -> Result<Seq<DrawCommand>, BridgeError> {
    match jobs_commands_spec(jobs, screen, tex_dom, reg) {
        Err(e) => Err(e),
        Ok(cs) => Ok(seq![DrawCommand::SetPipeline { pipeline }] + cs),
    }
}

/// The GUI renderer: its one pipeline and the texture store its bind
/// groups are resolved against.
pub struct GuiRenderer {
    /// The GUI render pipeline's resource id.
    pub pipeline: u64,
    /// Texture id to backing image, as the diff manager left it.
    pub store: TextureStore,
}

impl GuiRenderer {
    /// Well-formed: the store is.
    pub open spec fn wf(&self) -> bool {
        self.store.wf()
    }

    /// A fresh renderer with an empty texture store.
    pub fn new(pipeline: u64) -> (r: Self)
        ensures
            r.wf(),
            r.pipeline == pipeline,
            r.store@ == Map::<u64, Image>::empty(),
    {
        GuiRenderer { pipeline, store: TextureStore::new() }
    }

    /// Records the commands of one paint job, given its mesh upload slot.
    pub fn draw(
        &self,
        job: PaintJob,
        slot: u64,
        screen: ScreenDescriptor,
        reg: &Registry,
        out: &mut Vec<DrawCommand>,
    ) -> (r: Result<(), BridgeError>)
        requires
            self.wf(),
            reg.wf(),
        ensures
            match r {
                Ok(()) => job_commands_spec(job, slot as int, screen, self.store@.dom(), reg@)
                    matches Ok(cs) && final(out)@ == old(out)@ + cs,
                Err(e) => job_commands_spec(job, slot as int, screen, self.store@.dom(), reg@)
                    == Err::<Seq<DrawCommand>, BridgeError>(e) && final(out)@ == old(out)@,
            },
    {
        match job.kind {
            JobKind::Mesh { texture, index_count } => {
                if self.store.contains(texture) {
                    let sc = scissor(job.clip, screen);
                    out.push(DrawCommand::BindTextureGroup { texture });
                    out.push(DrawCommand::SetScissor { x: sc.x, y: sc.y, w: sc.w, h: sc.h });
                    out.push(DrawCommand::SetMeshBuffers { slot });
                    out.push(DrawCommand::DrawIndexed {
                        first: 0,
                        count: index_count,
                        base_vertex: 0,
                        instance_first: 0,
                        instance_count: 1,
                    });
                    proof {
                        let cs = job_commands_spec(
                            job,
                            slot as int,
                            screen,
                            self.store@.dom(),
                            reg@,
                        )->Ok_0;
                        assert(out@ =~= old(out)@ + cs);
                    }
                    Ok(())
                } else {
                    Err(BridgeError::TextureMissing(texture))
                }
            }
            JobKind::Callback { key } => execute_callback(reg, key, out),
        }
    }

    /// Records a whole pass: binds the GUI pipeline once, then draws every
    /// job in order. The first failure aborts the pass: no commands are
    /// handed out, so no partial draw can reach the host.
    pub fn render(&self, jobs: &Vec<PaintJob>, screen: ScreenDescriptor, reg: &Registry) -> (r:
        Result<Vec<DrawCommand>, BridgeError>)
        requires
            self.wf(),
            reg.wf(),
        ensures
            match r {
                Ok(cs) => render_pass_spec(self.pipeline, jobs@, screen, self.store@.dom(), reg@)
                    == Ok::<Seq<DrawCommand>, BridgeError>(cs@),
                Err(e) => render_pass_spec(self.pipeline, jobs@, screen, self.store@.dom(), reg@)
                    == Err::<Seq<DrawCommand>, BridgeError>(e),
            },
    {
        let mut body: Vec<DrawCommand> = Vec::new();
        let mut slot: u64 = 0;
        let mut i: usize = 0;
        while i < jobs.len()
            invariant
                self.wf(),
                reg.wf(),
                i <= jobs@.len(),
                slot == mesh_count(jobs@.take(i as int)),
                jobs_commands_spec(jobs@.take(i as int), screen, self.store@.dom(), reg@) == Ok::<
                    Seq<DrawCommand>,
                    BridgeError,
                >(body@),
            decreases jobs@.len() - i,
        {
            let job = jobs[i];
            proof {
                assert(jobs@.take(i + 1).drop_last() =~= jobs@.take(i as int));
                assert(jobs@.take(i + 1).last() == job);
                assert(mesh_count(jobs@.take(i as int)) <= i as int) by {
                    lemma_mesh_count_bound(jobs@.take(i as int));
                }
            }
            let ghost body0 = body@;
            match self.draw(job, slot, screen, reg, &mut body) {
                Ok(()) => {}
                Err(e) => {
                    proof {
                        assert(jobs_commands_spec(jobs@.take(i + 1), screen, self.store@.dom(), reg@)
                            == Err::<Seq<DrawCommand>, BridgeError>(e));
                        lemma_jobs_commands_err_extends(
                            jobs@,
                            i + 1,
                            screen,
                            self.store@.dom(),
                            reg@,
                            e,
                        );
                    }
                    return Err(e);
                }
            }
            if job.kind_is_mesh() {
                slot = slot + 1;
            }
            i += 1;
        }
        proof {
            assert(jobs@.take(jobs@.len() as int) =~= jobs@);
        }
        let mut cs: Vec<DrawCommand> = Vec::new();
        cs.push(DrawCommand::SetPipeline { pipeline: self.pipeline });
        let mut body_tail = body;
        cs.append(&mut body_tail);
        proof {
            assert(cs@ =~= seq![DrawCommand::SetPipeline { pipeline: self.pipeline }] + body@);
        }
        Ok(cs)
    }
}

impl PaintJob {
    /// Whether the job is a mesh (and so takes an upload slot).
    pub fn kind_is_mesh(&self) -> (r: bool)
        ensures
            r == (self.kind is Mesh),
    {
        match self.kind {
            JobKind::Mesh { .. } => true,
            JobKind::Callback { .. } => false,
        }
    }
}

/// Mesh jobs never outnumber jobs.
proof fn lemma_mesh_count_bound(jobs: Seq<PaintJob>)
    ensures
        0 <= mesh_count(jobs) <= jobs.len(),
    decreases jobs.len(),
{
    if jobs.len() > 0 {
        lemma_mesh_count_bound(jobs.drop_last());
    }
}

/// Once a prefix of the job list fails, the whole list fails the same way.
proof fn lemma_jobs_commands_err_extends(
    jobs: Seq<PaintJob>,
    n: int,
    screen: ScreenDescriptor,
    tex_dom: Set<u64>,
    reg: Map<u64, TriangleRenderResources>,
    e: BridgeError,
)
    requires
        0 <= n <= jobs.len(),
        jobs_commands_spec(jobs.take(n), screen, tex_dom, reg) == Err::<Seq<DrawCommand>,
            BridgeError,
        >(e),
    ensures
        jobs_commands_spec(jobs, screen, tex_dom, reg) == Err::<Seq<DrawCommand>, BridgeError>(e),
    decreases jobs.len() - n,
{
    if n < jobs.len() {
        assert(jobs.take(n + 1).drop_last() =~= jobs.take(n));
        lemma_jobs_commands_err_extends(jobs, n + 1, screen, tex_dom, reg, e);
    } else {
        assert(jobs.take(n) =~= jobs);
    }
}

} // verus!
