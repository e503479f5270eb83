//! Texture diff and upload manager: applies incremental texture set/free
//! operations against the store the paint-job renderer reads. A set either
//! installs a full image under an unseen id or patches a sub-region of a
//! known id's backing image; a free is a no-op when the id is absent.

use vstd::prelude::*;

use crate::error::BridgeError;
use crate::table::Table;

verus! {

/// A texture's backing image: one packed value per pixel, rows laid out
/// flat, row by row.
pub struct Image {
    /// Width in pixels.
    pub width: u32,
    /// Height in pixels.
    pub height: u32,
    /// The pixels, row-major: index `y * width + x`.
    pub pixels: Vec<u32>,
}

/// Well-formed: the flat buffer holds exactly one value per pixel.
pub open spec fn image_wf(img: Image) -> bool {
    img.pixels@.len() == img.width * img.height
}

/// The pixel of an image at a coordinate, by row-major index.
pub open spec fn pixel_at(img: Image, x: int, y: int) -> u32 {
    img.pixels@[y * img.width + x]
}

/// A row-major index lies inside the buffer of its image.
proof fn lemma_row_col_index(x: int, y: int, w: int, h: int) by (nonlinear_arith)
    requires
        0 <= x < w,
        0 <= y < h,
    ensures
        0 <= y * w + x < w * h,
{
}

/// Two coordinates with the same row-major index are the same coordinate.
proof fn lemma_row_col_unique(x1: int, y1: int, x2: int, y2: int, w: int) by (nonlinear_arith)
    requires
        0 <= x1 < w,
        0 <= x2 < w,
        0 <= y1,
        0 <= y2,
        y1 * w + x1 == y2 * w + x2,
    ensures
        x1 == x2,
        y1 == y2,
{
}

impl Image {
    /// An image of the given size with every pixel set to one value.
    pub fn filled(width: u32, height: u32, value: u32) -> (r: Image)
        requires
            width * height <= usize::MAX,
        ensures
            image_wf(r),
            r.width == width,
            r.height == height,
            forall|x: int, y: int| 0 <= x < width && 0 <= y < height ==> pixel_at(r, x, y) == value,
    {
        let total: usize = (width as usize) * (height as usize);
        let mut pixels: Vec<u32> = Vec::new();
        let mut i: usize = 0;
        while i < total
            invariant
                i <= total,
                pixels@.len() == i,
                forall|p: int| 0 <= p < i ==> pixels@[p] == value,
            decreases total - i,
        {
            pixels.push(value);
            i += 1;
        }
        let r = Image { width, height, pixels };
        proof {
            assert forall|x: int, y: int| 0 <= x < width && 0 <= y < height
                implies pixel_at(r, x, y) == value by {
                lemma_row_col_index(x, y, width as int, height as int);
            }
        }
        r
    }

    /// Reads one pixel.
    pub fn pixel(&self, x: u32, y: u32) -> (r: u32)
        requires
            image_wf(*self),
            x < self.width,
            y < self.height,
        ensures
            r == pixel_at(*self, x as int, y as int),
    {
        let n: usize = self.pixels.len();
        proof {
            lemma_row_col_index(x as int, y as int, self.width as int, self.height as int);
            assert(y * self.width + x < n);
        }
        let idx: usize = (y as usize) * (self.width as usize) + (x as usize);
        self.pixels[idx]
    }
}

/// Whether a patch placed at an origin lies entirely inside a base image.
pub open spec fn patch_fits(base: Image, px: u32, py: u32, patch: Image) -> bool {
    px + patch.width <= base.width && py + patch.height <= base.height
}

/// What it means for `result` to be `base` with `patch` written at origin
/// `(px, py)`: same size, patched pixels inside the region, the rest kept.
pub open spec fn is_patched(result: Image, base: Image, px: int, py: int, patch: Image) -> bool {
    &&& result.width == base.width
    &&& result.height == base.height
    &&& image_wf(result)
    &&& forall|x: int, y: int|
        0 <= x < base.width && 0 <= y < base.height ==> #[trigger] pixel_at(result, x, y) == (
        if px <= x < px + patch.width && py <= y < py + patch.height {
            pixel_at(patch, x - px, y - py)
        } else {
            pixel_at(base, x, y)
        })
}

/// Writes `patch` into `base` at origin `(px, py)`, pixel by pixel,
/// touching nothing outside the region.
fn patch_in_place(base: &mut Image, px: u32, py: u32, patch: &Image)
    requires
        image_wf(*old(base)),
        image_wf(*patch),
        patch_fits(*old(base), px, py, *patch),
    ensures
        is_patched(*final(base), *old(base), px as int, py as int, *patch),
{
    let bw = base.width;
    let bh = base.height;
    let mut y: u32 = 0;
    while y < patch.height
        invariant
            image_wf(*old(base)),
            image_wf(*patch),
            patch_fits(*old(base), px, py, *patch),
            y <= patch.height,
            base.width == old(base).width,
            base.height == old(base).height,
            bw == base.width,
            bh == base.height,
            image_wf(*base),
            forall|xx: int, yy: int|
                0 <= xx < bw && 0 <= yy < bh ==> #[trigger] pixel_at(*base, xx, yy) == (
                if px <= xx < px + patch.width && py <= yy < py + y {
                    pixel_at(*patch, xx - px, yy - py)
                } else {
                    pixel_at(*old(base), xx, yy)
                }),
        decreases patch.height - y,
    {
        let mut x: u32 = 0;
        while x < patch.width
            invariant
                image_wf(*old(base)),
                image_wf(*patch),
                patch_fits(*old(base), px, py, *patch),
                y < patch.height,
                x <= patch.width,
                base.width == old(base).width,
                base.height == old(base).height,
                bw == base.width,
                bh == base.height,
                image_wf(*base),
                forall|xx: int, yy: int|
                    0 <= xx < bw && 0 <= yy < bh ==> #[trigger] pixel_at(*base, xx, yy) == (
                    if px <= xx < px + patch.width && (yy < py + y || (yy == py + y && px <= xx
                        < px + x)) && py <= yy {
                        pixel_at(*patch, xx - px, yy - py)
                    } else {
                        pixel_at(*old(base), xx, yy)
                    }),
            decreases patch.width - x,
        {
            let row: u32 = py + y;
            let col: u32 = px + x;
            let nb: usize = base.pixels.len();
            let np: usize = patch.pixels.len();
            proof {
                lemma_row_col_index(col as int, row as int, bw as int, bh as int);
                lemma_row_col_index(x as int, y as int, patch.width as int, patch.height as int);
                assert(row * bw + col < nb);
                assert(y * patch.width + x < np);
            }
            let src: u32 = patch.pixels[(y as usize) * (patch.width as usize) + (x as usize)];
            let idx: usize = (row as usize) * (bw as usize) + (col as usize);
            let ghost prev = *base;
            base.pixels[idx] = src;
            proof {
                assert forall|xx: int, yy: int| 0 <= xx < bw && 0 <= yy < bh
                    implies #[trigger] pixel_at(*base, xx, yy) == (
                    if px <= xx < px + patch.width && (yy < py + y || (yy == py + y && px <= xx
                        < px + (x + 1))) && py <= yy {
                        pixel_at(*patch, xx - px, yy - py)
                    } else {
                        pixel_at(*old(base), xx, yy)
                    }) by {
                    lemma_row_col_index(xx, yy, bw as int, bh as int);
                    if yy * bw + xx == idx {
                        lemma_row_col_unique(xx, yy, col as int, row as int, bw as int);
                    } else {
                        assert(pixel_at(*base, xx, yy) == pixel_at(prev, xx, yy));
                    }
                }
            }
            x += 1;
        }
        y += 1;
    }
}

/// One incremental texture operation's payload: a whole image, or a patch
/// of a sub-region at an origin offset.
pub enum ImageDelta {
    /// Replace (or create) the whole backing image.
    Full(Image),
    /// Overwrite the region of the given size at origin `(x, y)`.
    Patch { x: u32, y: u32, image: Image },
}

/// Well-formed: the carried image is well-formed.
pub open spec fn delta_wf(d: ImageDelta) -> bool {
    match d {
        ImageDelta::Full(img) => image_wf(img),
        ImageDelta::Patch { image, .. } => image_wf(image),
    }
}

/// The store of texture backing images the paint-job renderer observes,
/// keyed by texture id.
pub struct TextureStore {
    /// The id-keyed table of images.
    pub table: Table<Image>,
}

impl TextureStore {
    /// The map from texture id to backing image.
    pub open spec fn view(&self) -> Map<u64, Image> {
        self.table@
    }

    /// Well-formed: unique ids, every stored image well-formed.
    pub open spec fn wf(&self) -> bool {
        &&& self.table.wf()
        &&& forall|k: u64| #[trigger] self.table@.dom().contains(k) ==> image_wf(self.table@[k])
    }

    /// An empty store.
    pub fn new() -> (r: Self)
        ensures
            r.wf(),
            r@ == Map::<u64, Image>::empty(),
    {
        TextureStore { table: Table::new() }
    }

    /// Whether an id has a backing image.
    pub fn contains(&self, id: u64) -> (r: bool)
        requires
            self.wf(),
        ensures
            r == self@.dom().contains(id),
    {
        self.table.contains(id)
    }

    /// The backing image under an id, if any.
    pub fn get(&self, id: u64) -> (r: Option<&Image>)
        requires
            self.wf(),
        ensures
            match r {
                Some(img) => self@.dom().contains(id) && *img == self@[id],
                None => !self@.dom().contains(id),
            },
    {
        self.table.get(id)
    }

    /// Applies one texture addition. A full image installs or replaces the
    /// id's backing image. A patch overwrites a sub-region of a known id's
    /// image; it fails without effect when the id is unseen or the region
    /// does not fit.
    pub fn apply_set(&mut self, id: u64, delta: ImageDelta) -> (r: Result<(), BridgeError>)
        requires
            old(self).wf(),
            delta_wf(delta),
        ensures
            final(self).wf(),
            match delta {
                ImageDelta::Full(img) => r == Ok::<(), BridgeError>(())
                    && final(self)@ == old(self)@.insert(id, img),
                ImageDelta::Patch { x, y, image } => {
                    if !old(self)@.dom().contains(id) {
                        r == Err::<(), BridgeError>(BridgeError::TextureMissing(id)) && final(self)@
                            == old(self)@
                    } else if patch_fits(old(self)@[id], x, y, image) {
                        r == Ok::<(), BridgeError>(()) && final(self)@ == old(self)@.insert(
                            id,
                            final(self)@[id],
                        ) && is_patched(final(self)@[id], old(self)@[id], x as int, y as int, image)
                    } else {
                        r == Err::<(), BridgeError>(BridgeError::PatchOutOfBounds(id))
                            && final(self)@ == old(self)@
                    }
                },
            },
    {
        match delta {
            ImageDelta::Full(img) => {
                self.table.insert(id, img);
                Ok(())
            }
            ImageDelta::Patch { x, y, image } => {
                match self.table.take(id) {
                    None => Err(BridgeError::TextureMissing(id)),
                    Some(mut base) => {
                        let fits = (x as u64) + (image.width as u64) <= (base.width as u64) && (y
                            as u64) + (image.height as u64) <= (base.height as u64);
                        if fits {
                            patch_in_place(&mut base, x, y, &image);
                            self.table.insert(id, base);
                            proof {
                                assert(self@ =~= old(self)@.insert(id, self@[id]));
                            }
                            Ok(())
                        } else {
                            self.table.insert(id, base);
                            proof {
                                assert(self@ =~= old(self)@);
                            }
                            Err(BridgeError::PatchOutOfBounds(id))
                        }
                    }
                }
            }
        }
    }

    /// Releases the texture under an id; a no-op (not an error) when the
    /// id is already absent, since double frees carry no ordering
    /// guarantee from the caller.
    pub fn apply_free(&mut self, id: u64)
        requires
            old(self).wf(),
        ensures
            final(self).wf(),
            final(self)@ == old(self)@.remove(id),
    {
        self.table.remove(id);
    }
}

/// Texture diff round trip: installing a full image under an id and then
/// freeing that id leaves the store exactly as freeing alone would — in
/// particular, without the id.
pub proof fn lemma_set_then_free_round_trip(m: Map<u64, Image>, id: u64, img: Image)
    ensures
        m.insert(id, img).remove(id) == m.remove(id),
        !m.insert(id, img).remove(id).dom().contains(id),
{
    assert(m.insert(id, img).remove(id) =~= m.remove(id));
}

/// Installing two full images under the same id in turn: the second
/// payload is the one every later lookup — hence the paint-job renderer —
/// observes.
pub proof fn lemma_set_overwrites(m: Map<u64, Image>, id: u64, first: Image, second: Image)
    ensures
        m.insert(id, first).insert(id, second) == m.insert(id, second),
        m.insert(id, first).insert(id, second)[id] == second,
{
    assert(m.insert(id, first).insert(id, second) =~= m.insert(id, second));
}

} // verus!
