//! Frame lifecycle controller: one pass per host frame, from collected
//! input through GUI output to a recorded command list. Stage order is
//! fixed — texture additions are applied before any draw command is
//! planned, and texture frees only after every draw, so no job ever
//! references a freed texture. Any failure aborts the remaining stages of
//! the frame; no partial command list reaches the host.

use vstd::prelude::*;

use crate::commands::{DrawCommand, ScreenDescriptor};
use crate::error::BridgeError;
use crate::events::{HostEvent, GuiEvent, PlatformState, RawInput, opt_event_seq, translate_spec};
use crate::paint::{tessellate, tessellate_spec, render_pass_spec, GuiRenderer, Shape};
use crate::registry::{Registry, TriangleRenderResources};
use crate::textures::{delta_wf, is_patched, patch_fits, Image, ImageDelta};

verus! {

/// What the GUI asks of the platform after a frame ran: a cursor icon and
/// an optional clipboard copy.
pub struct PlatformOutput {
    /// The cursor icon the window should show, as a small code.
    pub cursor_icon: u32,
    /// Text the GUI asks the platform to place on the clipboard.
    pub copied_text: Option<String>,
}

/// Everything one GUI frame run produced: the platform requests, the
/// texture delta (additions in order, then ids to free), and the shapes
/// to tessellate. At most one frame output is alive at a time; a new run
/// overwrites it.
pub struct FrameOutput {
    /// Cursor and clipboard requests.
    pub platform_output: PlatformOutput,
    /// Texture additions and patches, keyed by texture id, in order.
    pub textures_set: Vec<(u64, ImageDelta)>,
    /// Texture ids to free once the frame's draws are recorded.
    pub textures_free: Vec<u64>,
    /// The untessellated draw primitives, back to front.
    pub shapes: Vec<Shape>,
}

/// What one frame hands back to the host: the platform requests and the
/// recorded command list to replay into the command encoder.
pub struct FrameSubmission {
    /// Cursor and clipboard requests of the frame.
    pub platform_output: PlatformOutput,
    /// The commands to replay, in order.
    pub commands: Vec<DrawCommand>,
}

/// Well-formed frame output: every texture addition carries a
/// well-formed image.
pub open spec fn frame_output_wf(out: FrameOutput) -> bool {
    forall|i: int|
        0 <= i < out.textures_set@.len() ==> delta_wf((#[trigger] out.textures_set@[i]).1)
}

/// Applying texture additions in order, stopping at the first failure:
/// `sets_apply_rel(m0, sets, m1, e)` holds when starting from store `m0`
/// and applying `sets` front to back can end in store `m1`, with `e` the
/// first failure if one arose (later additions are then not applied, and
/// the failing one has no effect).
pub open spec fn sets_apply_rel(
    m0: Map<u64, Image>,
    sets: Seq<(u64, ImageDelta)>,
    m1: Map<u64, Image>,
    e: Option<BridgeError>,
) -> bool
    decreases sets.len(),
{
    if sets.len() == 0 {
        m1 == m0 && e == None::<BridgeError>
    } else {
        let id = sets[0].0;
        match sets[0].1 {
            ImageDelta::Full(img) => sets_apply_rel(m0.insert(id, img), sets.drop_first(), m1, e),
            ImageDelta::Patch { x, y, image } => if !m0.dom().contains(id) {
                m1 == m0 && e == Some(BridgeError::TextureMissing(id))
            } else if patch_fits(m0[id], x, y, image) {
                exists|p: Image|
                    #[trigger] is_patched(p, m0[id], x as int, y as int, image)
                        && sets_apply_rel(m0.insert(id, p), sets.drop_first(), m1, e)
            } else {
                m1 == m0 && e == Some(BridgeError::PatchOutOfBounds(id))
            },
        }
    }
}

/// The store after freeing a sequence of texture ids, in order; freeing
/// an absent id is a no-op.
pub open spec fn frees_spec(m: Map<u64, Image>, frees: Seq<u64>) -> Map<u64, Image>
    decreases frees.len(),
{
    if frees.len() == 0 {
        m
    } else {
        frees_spec(m, frees.drop_last()).remove(frees.last())
    }
}

/// The GUI plugin: everything the bridge carries across frames.
pub struct EGUI {
    /// Input accumulated between frames.
    pub platform: PlatformState,
    /// The GUI renderer: pipeline and texture store.
    pub renderer: GuiRenderer,
    /// The embedded-render resource registry.
    pub registry: Registry,
    /// The single slot holding the last run's output, if not yet
    /// submitted; overwritten, never accumulated.
    pub full_output: Option<FrameOutput>,
}

impl EGUI {
    /// Well-formed: renderer store and registry are.
    pub open spec fn wf(&self) -> bool {
        &&& self.renderer.wf()
        &&& self.registry.wf()
        &&& (self.full_output matches Some(out) ==> frame_output_wf(out))
    }

    /// Creates the plugin: empty input state, empty texture store, empty
    /// registry, no pending frame output.
    pub fn new(pixels_per_point_milli: u32, width: u32, height: u32, gui_pipeline: u64) -> (r:
        Self)
        ensures
            r.wf(),
            r.platform.events@ == Seq::<GuiEvent>::empty(),
            r.platform.pixels_per_point_milli == pixels_per_point_milli,
            r.platform.width == width,
            r.platform.height == height,
            r.renderer.pipeline == gui_pipeline,
            r.renderer.store@ == Map::<u64, Image>::empty(),
            r.registry@ == Map::<u64, TriangleRenderResources>::empty(),
            r.full_output is None,
    {
        EGUI {
            platform: PlatformState::new(pixels_per_point_milli, width, height),
            renderer: GuiRenderer::new(gui_pipeline),
            registry: Registry::new(),
            full_output: None,
        }
    }

    /// Feeds one host event through the event bridge into the platform
    /// state; everything else is untouched.
    pub fn update_events(&mut self, e: HostEvent)
        requires
            old(self).wf(),
        ensures
            final(self).wf(),
            final(self).platform.events@ == old(self).platform.events@ + opt_event_seq(
                translate_spec(e),
            ),
            final(self).platform.pixels_per_point_milli == (match e {
                HostEvent::ScaleFactorChanged { pixels_per_point_milli } => pixels_per_point_milli,
                _ => old(self).platform.pixels_per_point_milli,
            }),
            final(self).platform.width == (match e {
                HostEvent::Resized { width, .. } => width,
                _ => old(self).platform.width,
            }),
            final(self).platform.height == (match e {
                HostEvent::Resized { height, .. } => height,
                _ => old(self).platform.height,
            }),
            final(self).renderer == old(self).renderer,
            final(self).registry == old(self).registry,
            final(self).full_output == old(self).full_output,
    {
        self.platform.feed(e);
    }

    /// Takes ownership of the input accumulated since the last frame and
    /// resets the pending events to empty, producing the raw input the
    /// frame's GUI run observes.
    pub fn take_raw_input(&mut self) -> (r: RawInput)
        requires
            old(self).wf(),
        ensures
            final(self).wf(),
            r.events@ == old(self).platform.events@,
            r.pixels_per_point_milli == old(self).platform.pixels_per_point_milli,
            r.screen_width == old(self).platform.width,
            r.screen_height == old(self).platform.height,
            final(self).platform.events@ == Seq::<GuiEvent>::empty(),
            final(self).platform.pixels_per_point_milli == old(
                self,
            ).platform.pixels_per_point_milli,
            final(self).platform.width == old(self).platform.width,
            final(self).platform.height == old(self).platform.height,
            final(self).renderer == old(self).renderer,
            final(self).registry == old(self).registry,
            final(self).full_output == old(self).full_output,
    {
        self.platform.take_input()
    }

    /// Stores the output of one GUI frame run into the single slot,
    /// overwriting whatever an unsubmitted earlier run left there.
    pub fn ui(&mut self, output: FrameOutput)
        requires
            old(self).wf(),
            frame_output_wf(output),
        ensures
            final(self).wf(),
            final(self).full_output == Some(output),
            final(self).platform == old(self).platform,
            final(self).renderer == old(self).renderer,
            final(self).registry == old(self).registry,
    {
        self.full_output = Some(output);
    }

    /// Submits the pending frame, if any: applies the texture additions
    /// in order, tessellates the shapes, records the full render pass,
    /// and only then frees the listed texture ids — so no recorded draw
    /// references a freed texture. Any failure aborts the remaining
    /// stages: frees are skipped and no commands are handed out. The
    /// output slot is empty afterwards either way.
    #[verifier::loop_isolation(false)]
    pub fn update(&mut self, width: u32, height: u32) -> (r: Result<
        Option<FrameSubmission>,
        BridgeError,
    >)
        requires
            old(self).wf(),
        ensures
            final(self).wf(),
            final(self).platform == old(self).platform,
            final(self).registry == old(self).registry,
            final(self).renderer.pipeline == old(self).renderer.pipeline,
            final(self).full_output is None,
            match r {
                Ok(opt) => match opt {
                    None => old(self).full_output is None && final(self).renderer.store@ == old(
                        self,
                    ).renderer.store@,
                    Some(sub) => old(self).full_output matches Some(out) && {
                        let screen = ScreenDescriptor {
                            width,
                            height,
                            pixels_per_point_milli: old(self).platform.pixels_per_point_milli,
                        };
                        &&& sub.platform_output == out.platform_output
                        &&& exists|m1: Map<u64, Image>|
                            {
                                &&& #[trigger] sets_apply_rel(
                                    old(self).renderer.store@,
                                    out.textures_set@,
                                    m1,
                                    None,
                                )
                                &&& render_pass_spec(
                                    old(self).renderer.pipeline,
                                    tessellate_spec(out.shapes@),
                                    screen,
                                    m1.dom(),
                                    old(self).registry@,
                                ) == Ok::<Seq<DrawCommand>, BridgeError>(sub.commands@)
                                &&& final(self).renderer.store@ == frees_spec(
                                    m1,
                                    out.textures_free@,
                                )
                            }
                    },
                },
                Err(e) => old(self).full_output matches Some(out) && {
                    let screen = ScreenDescriptor {
                        width,
                        height,
                        pixels_per_point_milli: old(self).platform.pixels_per_point_milli,
                    };
                    ||| sets_apply_rel(
                        old(self).renderer.store@,
                        out.textures_set@,
                        final(self).renderer.store@,
                        Some(e),
                    )
                    ||| (sets_apply_rel(
                        old(self).renderer.store@,
                        out.textures_set@,
                        final(self).renderer.store@,
                        None,
                    ) && render_pass_spec(
                        old(self).renderer.pipeline,
                        tessellate_spec(out.shapes@),
                        screen,
                        final(self).renderer.store@.dom(),
                        old(self).registry@,
                    ) == Err::<Seq<DrawCommand>, BridgeError>(e))
                },
            },
    {
        let mut pending: Option<FrameOutput> = None;
        core::mem::swap(&mut pending, &mut self.full_output);
        match pending {
            None => Ok(None),
            Some(out) => {
                let FrameOutput { platform_output, textures_set, textures_free, shapes } = out;
                let screen = ScreenDescriptor {
                    width,
                    height,
                    pixels_per_point_milli: self.platform.pixels_per_point_milli,
                };
                let ghost m0 = self.renderer.store@;
                let ghost all_sets = textures_set@;

                // Stage: texture additions, in order, before any draw.
                let mut sets = textures_set;
                while sets.len() > 0
                    invariant
                        self.wf(),
                        self.platform == old(self).platform,
                        self.registry == old(self).registry,
                        self.renderer.pipeline == old(self).renderer.pipeline,
                        self.full_output is None,
                        forall|j: int| 0 <= j < sets@.len() ==> delta_wf((#[trigger] sets@[j]).1),
                        forall|m_end: Map<u64, Image>, e: Option<BridgeError>|
                            #[trigger] sets_apply_rel(self.renderer.store@, sets@, m_end, e)
                                ==> sets_apply_rel(m0, all_sets, m_end, e),
                    decreases sets@.len(),
                {
                    let ghost store_before = self.renderer.store@;
                    let ghost sets_before = sets@;
                    let (id, delta) = sets.remove(0);
                    let ghost the_delta = delta;
                    match self.renderer.store.apply_set(id, delta) {
                        Ok(()) => {
                            proof {
                                assert forall|m_end: Map<u64, Image>, e: Option<BridgeError>|
                                    #[trigger] sets_apply_rel(
                                        self.renderer.store@,
                                        sets@,
                                        m_end,
                                        e,
                                    ) implies sets_apply_rel(m0, all_sets, m_end, e) by {
                                    assert(sets_before[0] == (id, the_delta));
                                    assert(sets_before.drop_first() =~= sets@);
                                    assert(sets_apply_rel(store_before, sets_before, m_end, e));
                                }
                            }
                        }
                        Err(e) => {
                            proof {
                                assert(sets_before[0] == (id, the_delta));
                                assert(sets_before.drop_first() =~= sets@);
                                assert(sets_apply_rel(
                                    self.renderer.store@,
                                    sets_before,
                                    self.renderer.store@,
                                    Some(e),
                                ));
                                assert(sets_apply_rel(
                                    m0,
                                    all_sets,
                                    self.renderer.store@,
                                    Some(e),
                                ));
                            }
                            return Err(e);
                        }
                    }
                }

                let ghost m1 = self.renderer.store@;
                proof {
                    assert(sets_apply_rel(m1, sets@, m1, None::<BridgeError>));
                    assert(sets_apply_rel(m0, all_sets, m1, None::<BridgeError>));
                }

                // Stage: tessellation, then the full render pass.
                let jobs = tessellate(&shapes);
                let commands = match self.renderer.render(&jobs, screen, &self.registry) {
                    Ok(cs) => cs,
                    Err(e) => {
                        proof {
                            assert(render_pass_spec(
                                old(self).renderer.pipeline,
                                tessellate_spec(shapes@),
                                screen,
                                m1.dom(),
                                old(self).registry@,
                            ) == Err::<Seq<DrawCommand>, BridgeError>(e));
                        }
                        return Err(e);
                    }
                };

                // Stage: frees, only after every draw was recorded.
                let mut i: usize = 0;
                while i < textures_free.len()
                    invariant
                        self.wf(),
                        self.platform == old(self).platform,
                        self.registry == old(self).registry,
                        self.renderer.pipeline == old(self).renderer.pipeline,
                        self.full_output is None,
                        i <= textures_free@.len(),
                        self.renderer.store@ == frees_spec(m1, textures_free@.take(i as int)),
                    decreases textures_free@.len() - i,
                {
                    let id = textures_free[i];
                    self.renderer.store.apply_free(id);
                    proof {
                        assert(textures_free@.take(i + 1).drop_last() =~= textures_free@.take(
                            i as int,
                        ));
                    }
                    i += 1;
                }
                proof {
                    assert(textures_free@.take(textures_free@.len() as int) =~= textures_free@);
                }

                Ok(Some(FrameSubmission { platform_output, commands }))
            }
        }
    }
}

/// Idempotence: a frame whose texture delta is empty leaves the texture
/// store exactly as it was, and its recorded commands are a function of
/// the jobs, the screen, the store and the registry alone — so two
/// consecutive runs with the same authored output and no texture changes
/// record identical command sequences, rendering identical pixels.
pub proof fn lemma_unchanged_frame_idempotent(
    store: Map<u64, Image>,
    sets: Seq<(u64, ImageDelta)>,
    frees: Seq<u64>,
    m1: Map<u64, Image>,
    pipeline: u64,
    jobs: Seq<crate::paint::PaintJob>,
    screen: ScreenDescriptor,
    reg: Map<u64, TriangleRenderResources>,
)
    requires
        sets.len() == 0,
        frees.len() == 0,
        sets_apply_rel(store, sets, m1, None),
    ensures
        m1 == store,
        frees_spec(m1, frees) == store,
        render_pass_spec(pipeline, jobs, screen, frees_spec(m1, frees).dom(), reg)
            == render_pass_spec(pipeline, jobs, screen, store.dom(), reg),
{
}

} // verus!
