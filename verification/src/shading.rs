//! Per-wall shading transfer.
//!
//! Each wall's lighting is matched independently: the wall mask is
//! restricted to the pixels strictly inside the wall's polygon, the mean
//! brightness (HSV value channel, which for 8-bit RGB is the maximum
//! channel) of the photo under that restricted mask becomes the wall's
//! ambient baseline, and every selected warped pixel's value channel is
//! shifted by the photo pixel's brightness minus the baseline, clamped to
//! the byte range.  All of it is exact integer arithmetic, so a zero
//! shift provably leaves the warped pixel unchanged.

use vstd::prelude::*;

use crate::geometry::spt;
use crate::img::ImageGray;
use crate::img::ImageRgb;
use crate::img::gray_pixel;
use crate::img::gray_wf;
use crate::img::pixel;
use crate::img::rgb_wf;
use crate::polygons::WallPolygon;

verus! {

/// Brightness of a pixel: the HSV value channel, which for 8-bit RGB is
/// the largest of the three channels.
pub open spec fn brightness(p: (u8, u8, u8)) -> int {
    let m = if p.0 >= p.1 {
        p.0
    } else {
        p.1
    };
    if m >= p.2 {
        m as int
    } else {
        p.2 as int
    }
}

/// Exec computation of `brightness`.
pub fn pixel_brightness(p: (u8, u8, u8)) -> (r: u8)
    ensures
        r as int == brightness(p),
{
    let m: u8 = if p.0 >= p.1 {
        p.0
    } else {
        p.1
    };
    if m >= p.2 {
        m
    } else {
        p.2
    }
}

/// One step of the even-odd rule: does the edge from `a` to `b` cross a
/// horizontal ray cast from `p` toward positive x?  Edges are half open
/// in y, and the crossing comparison is exact on cross products.
pub open spec fn edge_crosses(a: (int, int), b: (int, int), p: (int, int)) -> bool {
    &&& ((a.1 > p.1) != (b.1 > p.1))
    &&& ({
        let lhs = (p.0 - a.0) * (b.1 - a.1);
        let rhs = (p.1 - a.1) * (b.0 - a.0);
        if b.1 > a.1 {
            lhs < rhs
        } else {
            lhs > rhs
        }
    })
}

/// A point is strictly inside the quadrilateral when a ray from it
/// crosses an odd number of its four edges.
pub open spec fn point_in_polygon_spec(q: WallPolygon, p: (int, int)) -> bool {
    let a = spt(q.top_left);
    let b = spt(q.top_right);
    let c = spt(q.bottom_right);
    let d = spt(q.bottom_left);
    ((edge_crosses(a, b, p) != edge_crosses(b, c, p)) != (edge_crosses(c, d, p) != edge_crosses(
        d,
        a,
        p,
    )))
}

fn edge_test(a: crate::geometry::Point, b: crate::geometry::Point, x: i32, y: i32) -> (r: bool)
    ensures
        r == edge_crosses(spt(a), spt(b), (x as int, y as int)),
{
    let straddles = (a.1 > y) != (b.1 > y);
    if !straddles {
        return false;
    }
    let lx: i128 = (x as i128 - a.0 as i128);
    let ldy: i128 = (b.1 as i128 - a.1 as i128);
    let py: i128 = (y as i128 - a.1 as i128);
    let ldx: i128 = (b.0 as i128 - a.0 as i128);
    proof {
        crate::geometry::lemma_mul_le(lx as int, ldy as int, 4_294_967_296, 4_294_967_296);
        crate::geometry::lemma_mul_le(py as int, ldx as int, 4_294_967_296, 4_294_967_296);
    }
    let lhs: i128 = lx * ldy;
    let rhs: i128 = py * ldx;
    if b.1 > a.1 {
        lhs < rhs
    } else {
        lhs > rhs
    }
}

/// Exec test of `point_in_polygon_spec`.
pub fn point_in_polygon(q: &WallPolygon, x: i32, y: i32) -> (r: bool)
    ensures
        r == point_in_polygon_spec(*q, (x as int, y as int)),
{
    let e1 = edge_test(q.top_left, q.top_right, x, y);
    let e2 = edge_test(q.top_right, q.bottom_right, x, y);
    let e3 = edge_test(q.bottom_right, q.bottom_left, x, y);
    let e4 = edge_test(q.bottom_left, q.top_left, x, y);
    ((e1 != e2) != (e3 != e4))
}

/// A pixel takes part in a wall's shading when the binary mask marks it
/// as wall and it lies strictly inside the wall's polygon.
pub open spec fn wall_sel(mask: ImageGray, poly: WallPolygon, x: int, y: int) -> bool {
    &&& gray_pixel(mask, x, y) == 255
    &&& point_in_polygon_spec(poly, (x, y))
}

/// Brightness sum of the selected pixels of row `y` left of column `x`.
pub open spec fn row_bright_sum(
    photo: ImageRgb,
    mask: ImageGray,
    poly: WallPolygon,
    y: int,
    x: int,
) -> int
    decreases x,
{
    if x <= 0 {
        0
    } else {
        row_bright_sum(photo, mask, poly, y, x - 1) + if wall_sel(mask, poly, x - 1, y) {
            brightness(pixel(photo, x - 1, y))
        } else {
            0
        }
    }
}

/// Number of selected pixels of row `y` left of column `x`.
pub open spec fn row_sel_count(mask: ImageGray, poly: WallPolygon, y: int, x: int) -> int
    decreases x,
{
    if x <= 0 {
        0
    } else {
        row_sel_count(mask, poly, y, x - 1) + if wall_sel(mask, poly, x - 1, y) {
            1int
        } else {
            0int
        }
    }
}

/// Brightness sum of the selected pixels of the first `y` rows.
pub open spec fn grid_bright_sum(photo: ImageRgb, mask: ImageGray, poly: WallPolygon, y: int) -> int
    decreases y,
{
    if y <= 0 {
        0
    } else {
        grid_bright_sum(photo, mask, poly, y - 1) + row_bright_sum(
            photo,
            mask,
            poly,
            y - 1,
            photo.width as int,
        )
    }
}

/// Number of selected pixels of the first `y` rows.
pub open spec fn grid_sel_count(
    photo: ImageRgb,
    mask: ImageGray,
    poly: WallPolygon,
    y: int,
) -> int
    decreases y,
{
    if y <= 0 {
        0
    } else {
        grid_sel_count(photo, mask, poly, y - 1) + row_sel_count(
            mask,
            poly,
            y - 1,
            photo.width as int,
        )
    }
}

/// The wall's ambient baseline: mean brightness of the photo over the
/// restricted mask (meaningful only when some pixel is selected).
pub open spec fn wall_baseline(photo: ImageRgb, mask: ImageGray, poly: WallPolygon) -> int {
    grid_bright_sum(photo, mask, poly, photo.height as int) / grid_sel_count(
        photo,
        mask,
        poly,
        photo.height as int,
    )
}

proof fn lemma_row_sum_bounds(photo: ImageRgb, mask: ImageGray, poly: WallPolygon, y: int, x: int)
    requires
        x >= 0,
    ensures
        0 <= row_sel_count(mask, poly, y, x),
        0 <= row_bright_sum(photo, mask, poly, y, x) <= 255 * row_sel_count(mask, poly, y, x),
    decreases x,
{
    if x > 0 {
        lemma_row_sum_bounds(photo, mask, poly, y, x - 1);
    }
}

proof fn lemma_grid_sum_bounds(photo: ImageRgb, mask: ImageGray, poly: WallPolygon, y: int)
    requires
        y >= 0,
    ensures
        0 <= grid_sel_count(photo, mask, poly, y),
        0 <= grid_bright_sum(photo, mask, poly, y) <= 255 * grid_sel_count(photo, mask, poly, y),
    decreases y,
{
    if y > 0 {
        lemma_grid_sum_bounds(photo, mask, poly, y - 1);
        lemma_row_sum_bounds(photo, mask, poly, y - 1, photo.width as int);
    }
}

/// Mean brightness of the photo under the mask restricted to the polygon;
/// `None` exactly when no pixel is selected, so a zero-area wall never
/// divides by zero.
pub fn compute_wall_brightness_baseline(
    photo: &ImageRgb,
    mask: &ImageGray,
    poly: &WallPolygon,
) -> (r: Option<u64>)
    requires
        rgb_wf(*photo),
        gray_wf(*mask),
        mask.width == photo.width,
        mask.height == photo.height,
    ensures
        ({
            let cnt = grid_sel_count(*photo, *mask, *poly, photo.height as int);
            match r {
                None => cnt == 0,
                Some(b) => cnt > 0 && b as int == wall_baseline(*photo, *mask, *poly) && b <= 255,
            }
        }),
{
    let mut sum: u64 = 0;
    let mut count: u64 = 0;
    let mut y: u32 = 0;
    proof {
        lemma_grid_sum_bounds(*photo, *mask, *poly, photo.height as int);
    }
    while y < photo.height
        invariant
            rgb_wf(*photo),
            gray_wf(*mask),
            mask.width == photo.width,
            mask.height == photo.height,
            y <= photo.height,
            sum as int == grid_bright_sum(*photo, *mask, *poly, y as int),
            count as int == grid_sel_count(*photo, *mask, *poly, y as int),
            count <= (y as int) * (photo.width as int),
            sum <= 255 * ((y as int) * (photo.width as int)),
        decreases photo.height - y,
    {
        let mut x: u32 = 0;
        while x < photo.width
            invariant
                rgb_wf(*photo),
                gray_wf(*mask),
                mask.width == photo.width,
                mask.height == photo.height,
                y < photo.height,
                x <= photo.width,
                sum as int == grid_bright_sum(*photo, *mask, *poly, y as int) + row_bright_sum(
                    *photo,
                    *mask,
                    *poly,
                    y as int,
                    x as int,
                ),
                count as int == grid_sel_count(*photo, *mask, *poly, y as int) + row_sel_count(
                    *mask,
                    *poly,
                    y as int,
                    x as int,
                ),
                count <= (y as int) * (photo.width as int) + x as int,
                sum <= 255 * ((y as int) * (photo.width as int) + x as int),
            decreases photo.width - x,
        {
            proof {
                crate::geometry::lemma_mul_le(
                    y as int,
                    photo.width as int,
                    crate::img::MAX_DIM as int,
                    crate::img::MAX_DIM as int,
                );
            }
            let m = mask.get_pixel(x, y);
            if m == 255 {
                let sx: i32 = x as i32;
                let sy: i32 = y as i32;
                if point_in_polygon(poly, sx, sy) {
                    let b = pixel_brightness(photo.get_pixel(x, y));
                    sum = sum + b as u64;
                    count = count + 1;
                }
            }
            x = x + 1;
        }
        proof {
            crate::geometry::lemma_mul_le(
                y as int + 1,
                photo.width as int,
                crate::img::MAX_DIM as int,
                crate::img::MAX_DIM as int,
            );
            assert(((y as int) + 1) * (photo.width as int) == (y as int) * (photo.width as int)
                + photo.width as int) by (nonlinear_arith);
        }
        y = y + 1;
    }
    if count == 0 {
        return None;
    }
    proof {
        lemma_grid_sum_bounds(*photo, *mask, *poly, photo.height as int);
        vstd::arithmetic::div_mod::lemma_div_pos_is_pos(sum as int, count as int);
        vstd::arithmetic::div_mod::lemma_div_is_ordered(
            sum as int,
            255 * (count as int),
            count as int,
        );
        vstd::arithmetic::mul::lemma_mul_is_commutative(255, count as int);
        vstd::arithmetic::div_mod::lemma_div_multiples_vanish(255, count as int);
    }
    Some(sum / count)
}

/// Clamp a shifted value channel into the byte range.
pub open spec fn clamp_byte(v: int) -> int {
    if v < 0 {
        0
    } else if v > 255 {
        255
    } else {
        v
    }
}

/// The shading-transfer of one pixel: shift its value channel (the
/// maximum) by `delta`, clamp, and rescale the channels proportionally,
/// which is exactly an HSV value shift with hue and saturation kept.
/// A black pixel has no hue, so it becomes the gray of the new value.
pub open spec fn shade_pixel_spec(p: (u8, u8, u8), delta: int) -> (int, int, int) {
    let v = brightness(p);
    let v2 = clamp_byte(v + delta);
    if v == 0 {
        (v2, v2, v2)
    } else {
        ((p.0 as int) * v2 / v, (p.1 as int) * v2 / v, (p.2 as int) * v2 / v)
    }
}

proof fn lemma_shade_channel_range(c: int, v: int, v2: int)
    requires
        0 <= c <= v <= 255,
        0 <= v2 <= 255,
        1 <= v,
    ensures
        0 <= c * v2 / v <= v2,
        0 <= c * v2 <= 65025,
{
    vstd::arithmetic::mul::lemma_mul_inequality(c, v, v2);
    vstd::arithmetic::mul::lemma_mul_is_commutative(c, v2);
    vstd::arithmetic::mul::lemma_mul_is_commutative(v, v2);
    vstd::arithmetic::div_mod::lemma_div_is_ordered(c * v2, v * v2, v);
    vstd::arithmetic::div_mod::lemma_div_multiples_vanish(v2, v);
    vstd::arithmetic::mul::lemma_mul_is_commutative(v2, v);
    vstd::arithmetic::div_mod::lemma_div_pos_is_pos(c * v2, v);
    crate::geometry::lemma_mul_le(c, v2, 255, 255);
}

/// Exec shading of one pixel.
pub fn shade_pixel(p: (u8, u8, u8), delta: i32) -> (r: (u8, u8, u8))
    requires
        -255 <= delta <= 255,
    ensures
        (r.0 as int, r.1 as int, r.2 as int) == shade_pixel_spec(p, delta as int),
{
    let v: u8 = pixel_brightness(p);
    let shifted: i32 = v as i32 + delta;
    let v2: u8 = if shifted < 0 {
        0
    } else if shifted > 255 {
        255
    } else {
        shifted as u8
    };
    if v == 0 {
        (v2, v2, v2)
    } else {
        proof {
            lemma_shade_channel_range(p.0 as int, v as int, v2 as int);
            lemma_shade_channel_range(p.1 as int, v as int, v2 as int);
            lemma_shade_channel_range(p.2 as int, v as int, v2 as int);
        }
        let r0: u32 = p.0 as u32 * v2 as u32 / v as u32;
        let r1: u32 = p.1 as u32 * v2 as u32 / v as u32;
        let r2: u32 = p.2 as u32 * v2 as u32 / v as u32;
        (r0 as u8, r1 as u8, r2 as u8)
    }
}

/// Shading transfer is a no-op when the photo pixel's brightness equals
/// the wall's baseline exactly: with a zero shift, no clamping triggers
/// and every channel is returned unchanged.
pub proof fn lemma_shading_noop(p: (u8, u8, u8))
    ensures
        shade_pixel_spec(p, 0) == (p.0 as int, p.1 as int, p.2 as int),
{
    let v = brightness(p);
    if v == 0 {
        assert(p.0 == 0 && p.1 == 0 && p.2 == 0);
    } else {
        vstd::arithmetic::mul::lemma_mul_is_commutative(p.0 as int, v);
        vstd::arithmetic::div_mod::lemma_div_multiples_vanish(p.0 as int, v);
        vstd::arithmetic::mul::lemma_mul_is_commutative(p.1 as int, v);
        vstd::arithmetic::div_mod::lemma_div_multiples_vanish(p.1 as int, v);
        vstd::arithmetic::mul::lemma_mul_is_commutative(p.2 as int, v);
        vstd::arithmetic::div_mod::lemma_div_multiples_vanish(p.2 as int, v);
    }
}

proof fn lemma_row_count_zero(mask: ImageGray, poly: WallPolygon, y: int, x: int)
    requires
        x >= 0,
        row_sel_count(mask, poly, y, x) == 0,
    ensures
        forall|i: int| 0 <= i < x ==> !wall_sel(mask, poly, i, y),
    decreases x,
{
    if x > 0 {
        lemma_row_count_zero_nonneg(mask, poly, y, x - 1);
        lemma_row_count_zero(mask, poly, y, x - 1);
    }
}

proof fn lemma_row_count_zero_nonneg(mask: ImageGray, poly: WallPolygon, y: int, x: int)
    requires
        x >= 0,
    ensures
        0 <= row_sel_count(mask, poly, y, x),
    decreases x,
{
    if x > 0 {
        lemma_row_count_zero_nonneg(mask, poly, y, x - 1);
    }
}

proof fn lemma_grid_count_zero(photo: ImageRgb, mask: ImageGray, poly: WallPolygon, y: int)
    requires
        y >= 0,
        grid_sel_count(photo, mask, poly, y) == 0,
    ensures
        forall|i: int, j: int|
            0 <= i < photo.width && 0 <= j < y ==> !wall_sel(mask, poly, i, j),
    decreases y,
{
    if y > 0 {
        lemma_grid_sum_bounds(photo, mask, poly, y - 1);
        lemma_row_count_zero_nonneg(mask, poly, y - 1, photo.width as int);
        lemma_grid_count_zero(photo, mask, poly, y - 1);
        lemma_row_count_zero(mask, poly, y - 1, photo.width as int);
    }
}

/// The integer triple of a pixel.
pub open spec fn pix_int(p: (u8, u8, u8)) -> (int, int, int) {
    (p.0 as int, p.1 as int, p.2 as int)
}

/// A fresh image with the same dimensions and pixels.
pub fn copy_image(src: &ImageRgb) -> (r: ImageRgb)
    requires
        rgb_wf(*src),
    ensures
        rgb_wf(r),
        r.width == src.width,
        r.height == src.height,
        r.data@ == src.data@,
        forall|x: int, y: int|
            0 <= x < src.width && 0 <= y < src.height ==> #[trigger] pixel(r, x, y) == pixel(
                *src,
                x,
                y,
            ),
{
    let mut data: Vec<u8> = Vec::new();
    let mut i: usize = 0;
    let n = src.data.len();
    while i < n
        invariant
            n == src.data@.len(),
            i <= n,
            data@.len() == i,
            forall|j: int| 0 <= j < i ==> data@[j] == src.data@[j],
        decreases n - i,
    {
        data.push(src.data[i]);
        i = i + 1;
    }
    proof {
        assert(data@ =~= src.data@);
    }
    ImageRgb { width: src.width, height: src.height, data }
}

/// Checks the compositor's input shapes before any work: the mask must be
/// aligned to the photo pixel for pixel, and the tile must have area.
pub fn validate_preview_inputs(photo: &ImageRgb, mask: &ImageGray, tile: &ImageRgb) -> (r: Result<
    (),
    crate::shares::PreviewError,
>)
    ensures
        r is Ok <==> (mask.width == photo.width && mask.height == photo.height && tile.width >= 1
            && tile.height >= 1),
{
    if mask.width == photo.width && mask.height == photo.height && tile.width >= 1 && tile.height
        >= 1 {
        Ok(())
    } else {
        Err(crate::shares::PreviewError::InputShapeMismatch)
    }
}

/// Composites one wall into the output: every pixel of the restricted
/// wall mask receives the warped pattern pixel shifted by the photo's
/// brightness relative to the wall's ambient baseline; every other pixel
/// is left untouched.  A wall whose restricted mask is empty is skipped
/// entirely.
pub fn composite_wall(
    output: &mut ImageRgb,
    photo: &ImageRgb,
    mask: &ImageGray,
    warped: &ImageRgb,
    poly: &WallPolygon,
)
    requires
        rgb_wf(*old(output)),
        rgb_wf(*photo),
        gray_wf(*mask),
        rgb_wf(*warped),
        old(output).width == photo.width,
        old(output).height == photo.height,
        mask.width == photo.width,
        mask.height == photo.height,
        warped.width == photo.width,
        warped.height == photo.height,
    ensures
        rgb_wf(*final(output)),
        final(output).width == photo.width,
        final(output).height == photo.height,
        forall|x: int, y: int|
            0 <= x < photo.width && 0 <= y < photo.height && !wall_sel(*mask, *poly, x, y)
                ==> #[trigger] pixel(*final(output), x, y) == pixel(*old(output), x, y),
        forall|x: int, y: int|
            0 <= x < photo.width && 0 <= y < photo.height && wall_sel(*mask, *poly, x, y)
                ==> pix_int(#[trigger] pixel(*final(output), x, y)) == shade_pixel_spec(
                pixel(*warped, x, y),
                brightness(pixel(*photo, x, y)) - wall_baseline(*photo, *mask, *poly),
            ),
{
    let baseline = match compute_wall_brightness_baseline(photo, mask, poly) {
        Some(b) => b,
        None => {
            proof {
                lemma_grid_count_zero(*photo, *mask, *poly, photo.height as int);
            }
            return ;
        },
    };
    let mut y: u32 = 0;
    while y < photo.height
        invariant
            rgb_wf(*photo),
            gray_wf(*mask),
            rgb_wf(*warped),
            rgb_wf(*output),
            output.width == photo.width,
            output.height == photo.height,
            mask.width == photo.width,
            mask.height == photo.height,
            warped.width == photo.width,
            warped.height == photo.height,
            baseline <= 255,
            baseline as int == wall_baseline(*photo, *mask, *poly),
            y <= photo.height,
            forall|i: int, j: int|
                0 <= i < photo.width && 0 <= j < photo.height && !(j < y) ==> #[trigger] pixel(
                    *output,
                    i,
                    j,
                ) == pixel(*old(output), i, j),
            forall|i: int, j: int|
                0 <= i < photo.width && 0 <= j < y && !wall_sel(*mask, *poly, i, j)
                    ==> #[trigger] pixel(*output, i, j) == pixel(*old(output), i, j),
            forall|i: int, j: int|
                0 <= i < photo.width && 0 <= j < y && wall_sel(*mask, *poly, i, j) ==> pix_int(
                    #[trigger] pixel(*output, i, j),
                ) == shade_pixel_spec(
                    pixel(*warped, i, j),
                    brightness(pixel(*photo, i, j)) - wall_baseline(*photo, *mask, *poly),
                ),
        decreases photo.height - y,
    {
        let mut x: u32 = 0;
        while x < photo.width
            invariant
                rgb_wf(*photo),
                gray_wf(*mask),
                rgb_wf(*warped),
                rgb_wf(*output),
                output.width == photo.width,
                output.height == photo.height,
                mask.width == photo.width,
                mask.height == photo.height,
                warped.width == photo.width,
                warped.height == photo.height,
                baseline <= 255,
                baseline as int == wall_baseline(*photo, *mask, *poly),
                y < photo.height,
                x <= photo.width,
                forall|i: int, j: int|
                    0 <= i < photo.width && 0 <= j < photo.height && !(j < y || (j == y && i < x))
                        ==> #[trigger] pixel(*output, i, j) == pixel(*old(output), i, j),
                forall|i: int, j: int|
                    0 <= i < photo.width && 0 <= j < photo.height && (j < y || (j == y && i < x))
                        && !wall_sel(*mask, *poly, i, j) ==> #[trigger] pixel(*output, i, j)
                        == pixel(*old(output), i, j),
                forall|i: int, j: int|
                    0 <= i < photo.width && 0 <= j < photo.height && (j < y || (j == y && i < x))
                        && wall_sel(*mask, *poly, i, j) ==> pix_int(
                        #[trigger] pixel(*output, i, j),
                    ) == shade_pixel_spec(
                        pixel(*warped, i, j),
                        brightness(pixel(*photo, i, j)) - wall_baseline(*photo, *mask, *poly),
                    ),
            decreases photo.width - x,
        {
            let m = mask.get_pixel(x, y);
            let mut selected = false;
            if m == 255 {
                if point_in_polygon(poly, x as i32, y as i32) {
                    selected = true;
                }
            }
            if selected {
                let pb = pixel_brightness(photo.get_pixel(x, y));
                let delta: i32 = pb as i32 - baseline as i32;
                let shaded = shade_pixel(warped.get_pixel(x, y), delta);
                output.set_pixel(x, y, shaded);
            }
            x = x + 1;
        }
        y = y + 1;
    }
}

/// Some wall with index strictly between `k` and `upto` also selects the
/// pixel.
pub open spec fn later_wall_selects(
    mask: ImageGray,
    polys: Seq<WallPolygon>,
    k: int,
    upto: int,
    x: int,
    y: int,
) -> bool {
    exists|j: int| k < j < upto && wall_sel(mask, #[trigger] polys[j], x, y)
}

/// Composites every wall over a copy of the photo, one wall after
/// another, each with its own ambient baseline.  A pixel that no wall's
/// restricted mask selects is bit-identical to the photo; a selected
/// pixel carries the shading-adjusted warped colour of the last wall
/// whose restricted mask selects it.
pub fn composite_preview(
    photo: &ImageRgb,
    mask: &ImageGray,
    warped_layers: &Vec<ImageRgb>,
    polygons: &Vec<WallPolygon>,
) -> (out: ImageRgb)
    requires
        rgb_wf(*photo),
        gray_wf(*mask),
        mask.width == photo.width,
        mask.height == photo.height,
        warped_layers@.len() == polygons@.len(),
        forall|k: int|
            0 <= k < warped_layers@.len() ==> rgb_wf(#[trigger] warped_layers@[k])
                && warped_layers@[k].width == photo.width && warped_layers@[k].height
                == photo.height,
    ensures
        rgb_wf(out),
        out.width == photo.width,
        out.height == photo.height,
        forall|x: int, y: int|
            0 <= x < photo.width && 0 <= y < photo.height && (forall|k: int|
                0 <= k < polygons@.len() ==> !wall_sel(*mask, #[trigger] polygons@[k], x, y))
                ==> #[trigger] pixel(out, x, y) == pixel(*photo, x, y),
        forall|x: int, y: int, k: int|
            0 <= x < photo.width && 0 <= y < photo.height && 0 <= k < polygons@.len()
                && #[trigger] wall_sel(*mask, polygons@[k], x, y) && !later_wall_selects(
                *mask,
                polygons@,
                k,
                polygons@.len() as int,
                x,
                y,
            ) ==> pix_int(pixel(out, x, y)) == shade_pixel_spec(
                pixel(warped_layers@[k], x, y),
                brightness(pixel(*photo, x, y)) - wall_baseline(*photo, *mask, polygons@[k]),
            ),
{
    let mut out = copy_image(photo);
    let mut k: usize = 0;
    let n = polygons.len();
    while k < n
        invariant
            rgb_wf(*photo),
            gray_wf(*mask),
            mask.width == photo.width,
            mask.height == photo.height,
            n == polygons@.len(),
            warped_layers@.len() == polygons@.len(),
            forall|j: int|
                0 <= j < warped_layers@.len() ==> rgb_wf(#[trigger] warped_layers@[j])
                    && warped_layers@[j].width == photo.width && warped_layers@[j].height
                    == photo.height,
            k <= n,
            rgb_wf(out),
            out.width == photo.width,
            out.height == photo.height,
            forall|x: int, y: int|
                0 <= x < photo.width && 0 <= y < photo.height && (forall|j: int|
                    0 <= j < k ==> !wall_sel(*mask, #[trigger] polygons@[j], x, y))
                    ==> #[trigger] pixel(out, x, y) == pixel(*photo, x, y),
            forall|x: int, y: int, k2: int|
                0 <= x < photo.width && 0 <= y < photo.height && 0 <= k2 < k
                    && #[trigger] wall_sel(*mask, polygons@[k2], x, y) && !later_wall_selects(
                    *mask,
                    polygons@,
                    k2,
                    k as int,
                    x,
                    y,
                ) ==> pix_int(pixel(out, x, y)) == shade_pixel_spec(
                    pixel(warped_layers@[k2], x, y),
                    brightness(pixel(*photo, x, y)) - wall_baseline(*photo, *mask, polygons@[k2]),
                ),
        decreases n - k,
    {
        let ghost out0 = out;
        composite_wall(&mut out, photo, mask, &warped_layers[k], &polygons[k]);
        proof {
            assert forall|x: int, y: int|
                0 <= x < photo.width && 0 <= y < photo.height && (forall|j: int|
                    0 <= j < k + 1 ==> !wall_sel(*mask, #[trigger] polygons@[j], x, y))
                    implies #[trigger] pixel(out, x, y) == pixel(*photo, x, y) by {
                assert(!wall_sel(*mask, polygons@[k as int], x, y));
                assert(pixel(out, x, y) == pixel(out0, x, y));
            }
            assert forall|x: int, y: int, k2: int|
                0 <= x < photo.width && 0 <= y < photo.height && 0 <= k2 < k + 1
                    && #[trigger] wall_sel(*mask, polygons@[k2], x, y) && !later_wall_selects(
                    *mask,
                    polygons@,
                    k2,
                    k as int + 1,
                    x,
                    y,
                ) implies pix_int(pixel(out, x, y)) == shade_pixel_spec(
                    pixel(warped_layers@[k2], x, y),
                    brightness(pixel(*photo, x, y)) - wall_baseline(*photo, *mask, polygons@[k2]),
                ) by {
                if k2 == k as int {
                    assert(pix_int(pixel(out, x, y)) == shade_pixel_spec(
                        pixel(warped_layers@[k2], x, y),
                        brightness(pixel(*photo, x, y)) - wall_baseline(
                            *photo,
                            *mask,
                            polygons@[k2],
                        ),
                    ));
                } else {
                    assert(!wall_sel(*mask, polygons@[k as int], x, y)) by {
                        if wall_sel(*mask, polygons@[k as int], x, y) {
                            assert(later_wall_selects(
                                *mask,
                                polygons@,
                                k2,
                                k as int + 1,
                                x,
                                y,
                            ));
                        }
                    }
                    assert(!later_wall_selects(*mask, polygons@, k2, k as int, x, y)) by {
                        if later_wall_selects(*mask, polygons@, k2, k as int, x, y) {
                            let j = choose|j: int|
                                k2 < j < k as int && wall_sel(*mask, #[trigger] polygons@[j], x, y);
                            assert(wall_sel(*mask, polygons@[j], x, y));
                            assert(later_wall_selects(
                                *mask,
                                polygons@,
                                k2,
                                k as int + 1,
                                x,
                                y,
                            ));
                        }
                    }
                    assert(pixel(out, x, y) == pixel(out0, x, y));
                }
            }
        }
        k = k + 1;
    }
    out
}

} // verus!
