//! The draw-command vocabulary the bridge records into the host's command
//! encoder, and the screen geometry the scissor computation works from.
//! Commands are deferred: the host replays them against its render pass.

use vstd::prelude::*;

verus! {

/// An axis-aligned rectangle; units depend on context (logical points for
/// clip rectangles, physical pixels for scissor regions).
#[derive(Clone, Copy, PartialEq, Eq, Structural, Debug)]
pub struct Rect {
    /// Left edge.
    pub x: u32,
    /// Top edge.
    pub y: u32,
    /// Width.
    pub w: u32,
    /// Height.
    pub h: u32,
}

/// The current surface geometry: physical pixel size plus the
/// points-to-pixels scale, in thousandths (a scale of one is `1000`).
/// Recomputed every frame from the current surface configuration.
#[derive(Clone, Copy, PartialEq, Eq, Structural, Debug)]
pub struct ScreenDescriptor {
    /// Surface width in physical pixels.
    pub width: u32,
    /// Surface height in physical pixels.
    pub height: u32,
    /// Pixels per point, in thousandths.
    pub pixels_per_point_milli: u32,
}

/// One recorded GPU command.
#[derive(Clone, Copy, PartialEq, Eq, Structural, Debug)]
pub enum DrawCommand {
    /// Bind a render pipeline by resource id.
    SetPipeline { pipeline: u64 },
    /// Bind the texture bind group associated with a GUI texture id.
    BindTextureGroup { texture: u64 },
    /// Bind a bind group resource at a bind slot.
    BindGroup { index: u32, group: u64 },
    /// Restrict drawing to a region, in physical pixels.
    SetScissor { x: u32, y: u32, w: u32, h: u32 },
    /// Bind the vertex/index slices uploaded for the mesh in a given
    /// upload slot (meshes are uploaded in paint-job order).
    SetMeshBuffers { slot: u64 },
    /// Bind a vertex buffer by resource id.
    SetVertexBuffer { buffer: u64 },
    /// Bind an index buffer by resource id.
    SetIndexBuffer { buffer: u64 },
    /// Draw `count` indices starting at `first`, over the instance range
    /// `instance_first .. instance_first + instance_count`.
    DrawIndexed { first: u32, count: u32, base_vertex: u32, instance_first: u32, instance_count: u32 },
}

/// The smaller of two mathematical integers.
pub open spec fn min_i(a: int, b: int) -> int {
    if a < b {
        a
    } else {
        b
    }
}

/// A length in points scaled to physical pixels, truncating.
pub open spec fn scale_by_ppp(v: u32, milli: u32) -> int {
    (v * milli) / 1000
}

/// A clip rectangle in points turned into a scissor region in physical
/// pixels: each coordinate scaled by the pixels-per-point factor and
/// clamped so the region lies inside the surface.
pub open spec fn scissor_spec(clip: Rect, s: ScreenDescriptor) -> Rect {
    let sx = min_i(scale_by_ppp(clip.x, s.pixels_per_point_milli), s.width as int);
    let sy = min_i(scale_by_ppp(clip.y, s.pixels_per_point_milli), s.height as int);
    let sw = min_i(scale_by_ppp(clip.w, s.pixels_per_point_milli), s.width - sx);
    let sh = min_i(scale_by_ppp(clip.h, s.pixels_per_point_milli), s.height - sy);
    Rect { x: sx as u32, y: sy as u32, w: sw as u32, h: sh as u32 }
}

/// The product of two values that fit in 32 bits fits in 64 bits.
proof fn lemma_mul_u32_fits(a: int, b: int) by (nonlinear_arith)
    requires
        0 <= a <= u32::MAX,
        0 <= b <= u32::MAX,
    ensures
        0 <= a * b <= u64::MAX,
{
}

/// Computes the scissor region of a clip rectangle on a surface.
pub fn scissor(clip: Rect, s: ScreenDescriptor) -> (r: Rect)
    ensures
        r == scissor_spec(clip, s),
{
    let m: u64 = s.pixels_per_point_milli as u64;
    proof {
        lemma_mul_u32_fits(clip.x as int, m as int);
        lemma_mul_u32_fits(clip.y as int, m as int);
        lemma_mul_u32_fits(clip.w as int, m as int);
        lemma_mul_u32_fits(clip.h as int, m as int);
    }
    let sx64: u64 = (clip.x as u64) * m / 1000;
    let sx: u32 = if sx64 < s.width as u64 {
        sx64 as u32
    } else {
        s.width
    };
    let sy64: u64 = (clip.y as u64) * m / 1000;
    let sy: u32 = if sy64 < s.height as u64 {
        sy64 as u32
    } else {
        s.height
    };
    let avail_w: u32 = s.width - sx;
    let avail_h: u32 = s.height - sy;
    let sw64: u64 = (clip.w as u64) * m / 1000;
    let sw: u32 = if sw64 < avail_w as u64 {
        sw64 as u32
    } else {
        avail_w
    };
    let sh64: u64 = (clip.h as u64) * m / 1000;
    let sh: u32 = if sh64 < avail_h as u64 {
        sh64 as u32
    } else {
        avail_h
    };
    Rect { x: sx, y: sy, w: sw, h: sh }
}

} // verus!
