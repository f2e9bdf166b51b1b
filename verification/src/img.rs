//! Plain in-memory images with an exact per-pixel model.
//!
//! The compositor's pixel passes (atlas tiling, mask binarisation,
//! brightness transfer) are verified against the `pixel` and `gray_pixel`
//! model functions below.  Decoding, resampling and the projective warp
//! live outside the library and hand buffers in through these types.

use vstd::prelude::*;
use vstd::pervasive::VecAdditionalExecFns;

verus! {

/// Largest accepted image side, keeping every buffer index inside `usize`.
pub const MAX_DIM: u32 = 16384;

/// An 8-bit RGB image in row-major order, three bytes per pixel.
pub struct ImageRgb {
    pub width: u32,
    pub height: u32,
    pub data: Vec<u8>,
}

/// An 8-bit single-channel image in row-major order.
pub struct ImageGray {
    pub width: u32,
    pub height: u32,
    pub data: Vec<u8>,
}

/// Buffer length and dimension sanity for an RGB image.
pub open spec fn rgb_wf(img: ImageRgb) -> bool {
    &&& img.width <= MAX_DIM
    &&& img.height <= MAX_DIM
    &&& img.data.len() == 3 * ((img.width as int) * (img.height as int))
}

/// Buffer length and dimension sanity for a gray image.
pub open spec fn gray_wf(img: ImageGray) -> bool {
    &&& img.width <= MAX_DIM
    &&& img.height <= MAX_DIM
    &&& img.data.len() == (img.width as int) * (img.height as int)
}

/// Byte offset of a pixel in row-major order.
pub open spec fn rgb_idx(img: ImageRgb, x: int, y: int) -> int {
    3 * (y * (img.width as int) + x)
}

/// The colour of one pixel.
pub open spec fn pixel(img: ImageRgb, x: int, y: int) -> (u8, u8, u8) {
    (
        img.data[rgb_idx(img, x, y)],
        img.data[rgb_idx(img, x, y) + 1],
        img.data[rgb_idx(img, x, y) + 2],
    )
}

/// The value of one gray pixel.
pub open spec fn gray_pixel(img: ImageGray, x: int, y: int) -> u8 {
    img.data[y * (img.width as int) + x]
}

proof fn lemma_row_major_in_range(x: int, y: int, w: int, h: int)
    by (nonlinear_arith)
    requires
        0 <= x < w,
        0 <= y < h,
    ensures
        0 <= y * w + x < w * h,
{
}

proof fn lemma_row_major_distinct(x1: int, y1: int, x2: int, y2: int, w: int)
    by (nonlinear_arith)
    requires
        0 <= x1 < w,
        0 <= x2 < w,
        0 <= y1,
        0 <= y2,
        (x1, y1) != (x2, y2),
    ensures
        y1 * w + x1 != y2 * w + x2,
        y1 * w + x1 < y2 * w + x2 ==> y1 * w + x1 + 1 <= y2 * w + x2,
{
}

impl ImageRgb {
    /// A black image of the given dimensions.
    pub fn new(width: u32, height: u32) -> (r: ImageRgb)
        requires
            width <= MAX_DIM,
            height <= MAX_DIM,
        ensures
            rgb_wf(r),
            r.width == width,
            r.height == height,
            forall|x: int, y: int|
                0 <= x < width && 0 <= y < height ==> #[trigger] pixel(r, x, y) == (0u8, 0u8, 0u8),
    {
        proof {
            crate::geometry::lemma_mul_le(width as int, height as int, MAX_DIM as int, MAX_DIM as int);
        }
        let total: usize = 3 * (width as usize * height as usize);
        let mut data: Vec<u8> = Vec::new();
        let mut i: usize = 0;
        while i < total
            invariant
                total == 3 * ((width as int) * (height as int)),
                i <= total,
                data@.len() == i,
                forall|j: int| 0 <= j < i ==> data@[j] == 0u8,
            decreases total - i,
        {
            data.push(0);
            i = i + 1;
        }
        let r = ImageRgb { width, height, data };
        proof {
            assert forall|x: int, y: int|
                0 <= x < width && 0 <= y < height implies #[trigger] pixel(r, x, y) == (
                0u8,
                0u8,
                0u8,
            ) by {
                lemma_row_major_in_range(x, y, width as int, height as int);
            }
        }
        r
    }

    /// The colour at `(x, y)`.
    pub fn get_pixel(&self, x: u32, y: u32) -> (r: (u8, u8, u8))
        requires
            rgb_wf(*self),
            x < self.width,
            y < self.height,
        ensures
            r == pixel(*self, x as int, y as int),
    {
        proof {
            lemma_row_major_in_range(x as int, y as int, self.width as int, self.height as int);
            crate::geometry::lemma_mul_le(self.width as int, self.height as int, MAX_DIM as int, MAX_DIM as int);
        }
        let base: usize = 3 * (y as usize * self.width as usize + x as usize);
        (self.data[base], self.data[base + 1], self.data[base + 2])
    }

    /// Writes the colour at `(x, y)`, leaving every other pixel unchanged.
    pub fn set_pixel(&mut self, x: u32, y: u32, c: (u8, u8, u8))
        requires
            rgb_wf(*old(self)),
            x < old(self).width,
            y < old(self).height,
        ensures
            rgb_wf(*final(self)),
            final(self).width == old(self).width,
            final(self).height == old(self).height,
            pixel(*final(self), x as int, y as int) == c,
            forall|i: int, j: int|
                0 <= i < final(self).width && 0 <= j < final(self).height && (i, j) != (
                    x as int,
                    y as int,
                ) ==> #[trigger] pixel(*final(self), i, j) == pixel(*old(self), i, j),
    {
        proof {
            lemma_row_major_in_range(x as int, y as int, self.width as int, self.height as int);
            crate::geometry::lemma_mul_le(self.width as int, self.height as int, MAX_DIM as int, MAX_DIM as int);
        }
        let base: usize = 3 * (y as usize * self.width as usize + x as usize);
        self.data.set(base, c.0);
        self.data.set(base + 1, c.1);
        self.data.set(base + 2, c.2);
        proof {
            assert forall|i: int, j: int|
                0 <= i < self.width && 0 <= j < self.height && (i, j) != (x as int, y as int)
                    implies #[trigger] pixel(*self, i, j) == pixel(*old(self), i, j) by {
                lemma_row_major_in_range(i, j, self.width as int, self.height as int);
                lemma_row_major_distinct(i, j, x as int, y as int, self.width as int);
                assert(j * (self.width as int) + i != (y as int) * (self.width as int) + (
                x as int));
            }
        }
    }
}

impl ImageGray {
    /// A black single-channel image of the given dimensions.
    pub fn new(width: u32, height: u32) -> (r: ImageGray)
        requires
            width <= MAX_DIM,
            height <= MAX_DIM,
        ensures
            gray_wf(r),
            r.width == width,
            r.height == height,
            forall|x: int, y: int|
                0 <= x < width && 0 <= y < height ==> #[trigger] gray_pixel(r, x, y) == 0u8,
    {
        proof {
            crate::geometry::lemma_mul_le(width as int, height as int, MAX_DIM as int, MAX_DIM as int);
        }
        let total: usize = width as usize * height as usize;
        let mut data: Vec<u8> = Vec::new();
        let mut i: usize = 0;
        while i < total
            invariant
                total == (width as int) * (height as int),
                i <= total,
                data@.len() == i,
                forall|j: int| 0 <= j < i ==> data@[j] == 0u8,
            decreases total - i,
        {
            data.push(0);
            i = i + 1;
        }
        let r = ImageGray { width, height, data };
        proof {
            assert forall|x: int, y: int|
                0 <= x < width && 0 <= y < height implies #[trigger] gray_pixel(r, x, y)
                == 0u8 by {
                lemma_row_major_in_range(x, y, width as int, height as int);
            }
        }
        r
    }

    /// The value at `(x, y)`.
    pub fn get_pixel(&self, x: u32, y: u32) -> (r: u8)
        requires
            gray_wf(*self),
            x < self.width,
            y < self.height,
        ensures
            r == gray_pixel(*self, x as int, y as int),
    {
        proof {
            lemma_row_major_in_range(x as int, y as int, self.width as int, self.height as int);
            crate::geometry::lemma_mul_le(self.width as int, self.height as int, MAX_DIM as int, MAX_DIM as int);
        }
        self.data[y as usize * self.width as usize + x as usize]
    }

    /// Writes the value at `(x, y)`, leaving every other pixel unchanged.
    pub fn set_pixel(&mut self, x: u32, y: u32, v: u8)
        requires
            gray_wf(*old(self)),
            x < old(self).width,
            y < old(self).height,
        ensures
            gray_wf(*final(self)),
            final(self).width == old(self).width,
            final(self).height == old(self).height,
            gray_pixel(*final(self), x as int, y as int) == v,
            forall|i: int, j: int|
                0 <= i < final(self).width && 0 <= j < final(self).height && (i, j) != (
                    x as int,
                    y as int,
                ) ==> #[trigger] gray_pixel(*final(self), i, j) == gray_pixel(*old(self), i, j),
    {
        proof {
            lemma_row_major_in_range(x as int, y as int, self.width as int, self.height as int);
            crate::geometry::lemma_mul_le(self.width as int, self.height as int, MAX_DIM as int, MAX_DIM as int);
        }
        self.data.set(y as usize * self.width as usize + x as usize, v);
        proof {
            assert forall|i: int, j: int|
                0 <= i < self.width && 0 <= j < self.height && (i, j) != (x as int, y as int)
                    implies #[trigger] gray_pixel(*self, i, j) == gray_pixel(*old(self), i, j) by {
                lemma_row_major_in_range(i, j, self.width as int, self.height as int);
                lemma_row_major_distinct(i, j, x as int, y as int, self.width as int);
            }
        }
    }
}

/// Ceiling of `base * num / den`.
pub open spec fn ceil_mul_div(base: int, num: int, den: int) -> int {
    (base * num + den - 1) / den
}

/// The atlas dimensions for a tile of size `(tw, th)` and the horizontal
/// and vertical tile counts given as exact quotients.
pub fn compute_atlas_dimensions(
    tw: u32,
    th: u32,
    hcount_num: u32,
    hcount_den: u32,
    vcount_num: u32,
    vcount_den: u32,
) -> (r: (u64, u64))
    requires
        1 <= hcount_den,
        1 <= vcount_den,
        tw <= MAX_DIM,
        th <= MAX_DIM,
        hcount_num <= 1048576,
        vcount_num <= 1048576,
    ensures
        r.0 == ceil_mul_div(tw as int, hcount_num as int, hcount_den as int),
        r.1 == ceil_mul_div(th as int, vcount_num as int, vcount_den as int),
{
    proof {
        crate::geometry::lemma_mul_le(tw as int, hcount_num as int, MAX_DIM as int, 1048576);
        crate::geometry::lemma_mul_le(th as int, vcount_num as int, MAX_DIM as int, 1048576);
    }
    let wn: u64 = tw as u64 * hcount_num as u64;
    let hn: u64 = th as u64 * vcount_num as u64;
    let w: u64 = (wn + hcount_den as u64 - 1) / hcount_den as u64;
    let h: u64 = (hn + vcount_den as u64 - 1) / vcount_den as u64;
    (w, h)
}

/// Tiles the pattern across an atlas by modulo-indexed pixel copy: every
/// atlas pixel at `(x, y)` equals the tile pixel at
/// `(x mod tile.width, y mod tile.height)`, so seams are exact periodic
/// repeats with no blending.
pub fn assemble_tiles_image(tile: &ImageRgb, out_width: u32, out_height: u32) -> (r: ImageRgb)
    requires
        rgb_wf(*tile),
        1 <= tile.width,
        1 <= tile.height,
        out_width <= MAX_DIM,
        out_height <= MAX_DIM,
    ensures
        rgb_wf(r),
        r.width == out_width,
        r.height == out_height,
        forall|x: int, y: int|
            0 <= x < out_width && 0 <= y < out_height ==> #[trigger] pixel(r, x, y) == pixel(
                *tile,
                x % (tile.width as int),
                y % (tile.height as int),
            ),
{
    let mut out = ImageRgb::new(out_width, out_height);
    let mut y: u32 = 0;
    while y < out_height
        invariant
            rgb_wf(*tile),
            1 <= tile.width,
            1 <= tile.height,
            rgb_wf(out),
            out.width == out_width,
            out.height == out_height,
            out_width <= MAX_DIM,
            out_height <= MAX_DIM,
            y <= out_height,
            forall|i: int, j: int|
                0 <= i < out_width && 0 <= j < y ==> #[trigger] pixel(out, i, j) == pixel(
                    *tile,
                    i % (tile.width as int),
                    j % (tile.height as int),
                ),
        decreases out_height - y,
    {
        let mut x: u32 = 0;
        while x < out_width
            invariant
                rgb_wf(*tile),
                1 <= tile.width,
                1 <= tile.height,
                rgb_wf(out),
                out.width == out_width,
                out.height == out_height,
                out_width <= MAX_DIM,
                out_height <= MAX_DIM,
                y < out_height,
                x <= out_width,
                forall|i: int, j: int|
                    0 <= i < out_width && 0 <= j < y ==> #[trigger] pixel(out, i, j) == pixel(
                        *tile,
                        i % (tile.width as int),
                        j % (tile.height as int),
                    ),
                forall|i: int|
                    0 <= i < x ==> #[trigger] pixel(out, i, y as int) == pixel(
                        *tile,
                        i % (tile.width as int),
                        (y as int) % (tile.height as int),
                    ),
            decreases out_width - x,
        {
            let sx: u32 = x % tile.width;
            let sy: u32 = y % tile.height;
            let c = tile.get_pixel(sx, sy);
            out.set_pixel(x, y, c);
            x = x + 1;
        }
        y = y + 1;
    }
    out
}

/// Binarises a mask: values strictly above the threshold become 255,
/// everything else 0, so the mask stays strictly binary.
pub fn threshold_mask(mask: &ImageGray, thresh: u8) -> (r: ImageGray)
    requires
        gray_wf(*mask),
    ensures
        gray_wf(r),
        r.width == mask.width,
        r.height == mask.height,
        forall|x: int, y: int|
            0 <= x < mask.width && 0 <= y < mask.height ==> #[trigger] gray_pixel(r, x, y) == (
            if gray_pixel(*mask, x, y) > thresh {
                255u8
            } else {
                0u8
            }),
{
    let mut out = ImageGray::new(mask.width, mask.height);
    let mut y: u32 = 0;
    while y < mask.height
        invariant
            gray_wf(*mask),
            gray_wf(out),
            out.width == mask.width,
            out.height == mask.height,
            y <= mask.height,
            forall|i: int, j: int|
                0 <= i < mask.width && 0 <= j < y ==> #[trigger] gray_pixel(out, i, j) == (
                if gray_pixel(*mask, i, j) > thresh {
                    255u8
                } else {
                    0u8
                }),
        decreases mask.height - y,
    {
        let mut x: u32 = 0;
        while x < mask.width
            invariant
                gray_wf(*mask),
                gray_wf(out),
                out.width == mask.width,
                out.height == mask.height,
                y < mask.height,
                x <= mask.width,
                forall|i: int, j: int|
                    0 <= i < mask.width && 0 <= j < y ==> #[trigger] gray_pixel(out, i, j) == (
                    if gray_pixel(*mask, i, j) > thresh {
                        255u8
                    } else {
                        0u8
                    }),
                forall|i: int|
                    0 <= i < x ==> #[trigger] gray_pixel(out, i, y as int) == (
                    if gray_pixel(*mask, i, y as int) > thresh {
                        255u8
                    } else {
                        0u8
                    }),
            decreases mask.width - x,
        {
            let v = mask.get_pixel(x, y);
            let b: u8 = if v > thresh {
                255
            } else {
                0
            };
            out.set_pixel(x, y, b);
            x = x + 1;
        }
        y = y + 1;
    }
    out
}

/// Whether a pixel lies within `border` of any edge of a `size`-square
/// frame.
pub open spec fn in_border(size: int, border: int, x: int, y: int) -> bool {
    x < border || y < border || x >= size - border || y >= size - border
}

/// A square synthesis mask: black in a border of the given thickness,
/// white elsewhere, so that only the frame of the example is regenerated
/// when making a pattern tileable.
pub fn border_mask(size: u32, border: u32) -> (r: ImageRgb)
    requires
        size <= MAX_DIM,
    ensures
        rgb_wf(r),
        r.width == size,
        r.height == size,
        forall|x: int, y: int|
            0 <= x < size && 0 <= y < size ==> #[trigger] pixel(r, x, y) == (
            if in_border(size as int, border as int, x, y) {
                (0u8, 0u8, 0u8)
            } else {
                (255u8, 255u8, 255u8)
            }),
{
    let mut out = ImageRgb::new(size, size);
    let mut y: u32 = 0;
    while y < size
        invariant
            rgb_wf(out),
            out.width == size,
            out.height == size,
            size <= MAX_DIM,
            y <= size,
            forall|i: int, j: int|
                0 <= i < size && 0 <= j < y ==> #[trigger] pixel(out, i, j) == (
                if in_border(size as int, border as int, i, j) {
                    (0u8, 0u8, 0u8)
                } else {
                    (255u8, 255u8, 255u8)
                }),
        decreases size - y,
    {
        let mut x: u32 = 0;
        while x < size
            invariant
                rgb_wf(out),
                out.width == size,
                out.height == size,
                size <= MAX_DIM,
                y < size,
                x <= size,
                forall|i: int, j: int|
                    0 <= i < size && 0 <= j < y ==> #[trigger] pixel(out, i, j) == (
                    if in_border(size as int, border as int, i, j) {
                        (0u8, 0u8, 0u8)
                    } else {
                        (255u8, 255u8, 255u8)
                    }),
                forall|i: int|
                    0 <= i < x ==> #[trigger] pixel(out, i, y as int) == (
                    if in_border(size as int, border as int, i, y as int) {
                        (0u8, 0u8, 0u8)
                    } else {
                        (255u8, 255u8, 255u8)
                    }),
            decreases size - x,
        {
            let black = x < border || y < border || x + border >= size || y + border >= size;
            let c: (u8, u8, u8) = if black {
                (0, 0, 0)
            } else {
                (255, 255, 255)
            };
            out.set_pixel(x, y, c);
            x = x + 1;
        }
        y = y + 1;
    }
    out
}

/// The uniformly upscaled dimensions when the smaller image side is below
/// the resolution floor: both sides are scaled by `floor / min_side`,
/// truncated.  `None` when the image already meets the floor.
pub fn compute_upscaled_dimensions(width: u32, height: u32, floor_side: u32) -> (r: Option<
    (u32, u32),
>)
    requires
        1 <= width,
        1 <= height,
        floor_side <= MAX_DIM,
    ensures
        ({
            let m = if width <= height {
                width as int
            } else {
                height as int
            };
            if m >= floor_side {
                r is None
            } else {
                r == Some(
                    (
                        ((width as int) * (floor_side as int) / m) as u32,
                        ((height as int) * (floor_side as int) / m) as u32,
                    ),
                )
            }
        }),
{
    let m: u32 = if width <= height {
        width
    } else {
        height
    };
    if m >= floor_side {
        return None;
    }
    proof {
        crate::geometry::lemma_mul_le(width as int, floor_side as int, u32::MAX as int, MAX_DIM as int);
        crate::geometry::lemma_mul_le(height as int, floor_side as int, u32::MAX as int, MAX_DIM as int);
    }
    let w: u64 = width as u64 * floor_side as u64 / m as u64;
    let h: u64 = height as u64 * floor_side as u64 / m as u64;
    proof {
        vstd::arithmetic::div_mod::lemma_div_pos_is_pos((width as int) * (floor_side as int), m as int);
        vstd::arithmetic::div_mod::lemma_div_is_ordered_by_denominator(
            (width as int) * (floor_side as int),
            1,
            m as int,
        );
        vstd::arithmetic::div_mod::lemma_div_pos_is_pos((height as int) * (floor_side as int), m as int);
        vstd::arithmetic::div_mod::lemma_div_is_ordered_by_denominator(
            (height as int) * (floor_side as int),
            1,
            m as int,
        );
    }
    Some((w as u32, h as u32))
}

} // verus!
