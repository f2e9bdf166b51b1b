//! Pattern width allocation across the visible walls.
//!
//! Every wall polygon receives a share of the assembled pattern's width,
//! kept as an exact fraction over one common denominator, so the shares
//! sum to exactly one: with one polygon the single wall takes everything;
//! with two, each wall's share is proportional to its top-edge length;
//! with three, the foreshortened side walls split a fixed reduced share
//! and the centre wall takes the remainder.

use vstd::prelude::*;

use crate::geometry::spt;
use crate::polygons::WallPolygon;

verus! {

/// Physical and resolution constants of the preview pipeline, overridable
/// as one value.  Lengths are in centimetres; the visible wall count is
/// the exact quotient `visible_walls_num / visible_walls_den`.
#[derive(Clone, Copy, Debug)]
pub struct PreviewConfig {
    pub wall_width_cm: u32,
    pub wall_height_cm: u32,
    pub tile_width_cm: u32,
    pub tile_height_cm: u32,
    pub visible_walls_num: u32,
    pub visible_walls_den: u32,
    pub min_image_side: u32,
    pub reference_resolution: u32,
    pub mask_threshold: u8,
}

/// The tuned constants of the reference pipeline: 3.6 m by 2.4 m walls,
/// 0.53 m square tiles, 1.2 walls visible, a 2056-pixel resolution floor
/// and a 512-pixel polygon reference frame.
pub open spec fn default_preview_config() -> PreviewConfig {
    PreviewConfig {
        wall_width_cm: 360,
        wall_height_cm: 240,
        tile_width_cm: 53,
        tile_height_cm: 53,
        visible_walls_num: 6,
        visible_walls_den: 5,
        min_image_side: 2056,
        reference_resolution: 512,
        mask_threshold: 50,
    }
}

/// Sanity bounds on a configuration: positive lengths, more than one wall
/// visible but not absurdly many, and frame sizes within image limits.
pub open spec fn config_wf(c: PreviewConfig) -> bool {
    &&& 1 <= c.wall_width_cm <= 100000
    &&& 1 <= c.wall_height_cm <= 100000
    &&& 1 <= c.tile_width_cm <= 100000
    &&& 1 <= c.tile_height_cm <= 100000
    &&& 1 <= c.visible_walls_den < c.visible_walls_num <= 1000
    &&& 1 <= c.min_image_side <= crate::img::MAX_DIM
    &&& 1 <= c.reference_resolution <= crate::img::MAX_DIM
}

impl Default for PreviewConfig {
    /// The reference pipeline's constants.
    fn default() -> (r: PreviewConfig)
        ensures
            r == default_preview_config(),
            config_wf(r),
    {
        PreviewConfig {
            wall_width_cm: 360,
            wall_height_cm: 240,
            tile_width_cm: 53,
            tile_height_cm: 53,
            visible_walls_num: 6,
            visible_walls_den: 5,
            min_image_side: 2056,
            reference_resolution: 512,
            mask_threshold: 50,
        }
    }
}

/// `r` is the integer square root of `n`.
pub open spec fn is_isqrt(n: int, r: int) -> bool {
    &&& 0 <= r
    &&& r * r <= n
    &&& n < (r + 1) * (r + 1)
}

/// The square of an integer.
pub open spec fn sq(v: int) -> int {
    v * v
}

/// Floor of the square root, by bisection.
pub fn integer_sqrt(n: u128) -> (r: u64)
    ensures
        is_isqrt(n as int, r as int),
{
    if n == 0 {
        return 0;
    }
    let mut lo: u128 = 0;
    let mut hi: u128 = 1u128 << 64;
    proof {
        assert((1u128 << 64) == 0x10000000000000000u128) by (bit_vector);
        assert((0x10000000000000000 as int) * (0x10000000000000000 as int) > u128::MAX as int);
    }
    while hi - lo > 1
        invariant
            lo < hi,
            hi <= 0x10000000000000000u128,
            (lo as int) * (lo as int) <= n as int,
            (n as int) < (hi as int) * (hi as int),
        decreases hi - lo,
    {
        let mid: u128 = lo + (hi - lo) / 2;
        proof {
            crate::geometry::lemma_mul_le(
                mid as int,
                mid as int,
                0xffffffffffffffff,
                0xffffffffffffffff,
            );
        }
        let sqv: u128 = mid * mid;
        if sqv <= n {
            lo = mid;
        } else {
            hi = mid;
        }
    }
    proof {
        assert((lo as int) * (lo as int) <= n as int);
        assert((n as int) < (lo + 1) * (lo + 1));
        assert(lo < 0x10000000000000000u128);
    }
    lo as u64
}

/// Euclidean length of a polygon's top edge, truncated to an integer.
pub fn pythagorean_distance(from: crate::geometry::Point, to: crate::geometry::Point) -> (r: u64)
    ensures
        is_isqrt(sq(spt(to).0 - spt(from).0) + sq(spt(to).1 - spt(from).1), r as int),
        r <= 6_100_000_000,
{
    let dx: i128 = to.0 as i128 - from.0 as i128;
    let dy: i128 = to.1 as i128 - from.1 as i128;
    proof {
        crate::geometry::lemma_mul_le(dx as int, dx as int, 4_294_967_296, 4_294_967_296);
        crate::geometry::lemma_mul_le(dy as int, dy as int, 4_294_967_296, 4_294_967_296);
        crate::geometry::lemma_square_nonneg(dx as int);
        crate::geometry::lemma_square_nonneg(dy as int);
    }
    let n: i128 = dx * dx + dy * dy;
    let r = integer_sqrt(n as u128);
    proof {
        assert(r as int <= 6_100_000_000) by (nonlinear_arith)
            requires
                is_isqrt(n as int, r as int),
                n as int <= 2 * (4_294_967_296 * 4_294_967_296),
        ;
    }
    r
}

/// The top-edge lengths of the given polygons, in order.
pub fn polygon_top_widths(polygons: &Vec<WallPolygon>) -> (r: Vec<u64>)
    ensures
        r@.len() == polygons@.len(),
        forall|i: int|
            0 <= i < polygons@.len() ==> is_isqrt(
                sq(spt(polygons@[i].top_right).0 - spt(polygons@[i].top_left).0) + sq(
                    spt(polygons@[i].top_right).1 - spt(polygons@[i].top_left).1,
                ),
                #[trigger] r@[i] as int,
            ),
        forall|i: int| 0 <= i < polygons@.len() ==> #[trigger] r@[i] <= 6_100_000_000,
{
    let mut out: Vec<u64> = Vec::new();
    let mut i: usize = 0;
    while i < polygons.len()
        invariant
            i <= polygons@.len(),
            out@.len() == i,
            forall|j: int|
                0 <= j < i ==> is_isqrt(
                    sq(spt(polygons@[j].top_right).0 - spt(polygons@[j].top_left).0) + sq(
                        spt(polygons@[j].top_right).1 - spt(polygons@[j].top_left).1,
                    ),
                    #[trigger] out@[j] as int,
                ),
            forall|j: int| 0 <= j < i ==> #[trigger] out@[j] <= 6_100_000_000,
        decreases polygons@.len() - i,
    {
        let p = &polygons[i];
        out.push(pythagorean_distance(p.top_left, p.top_right));
        i = i + 1;
    }
    out
}

/// Why the compositor rejected its inputs.
#[derive(Clone, Copy, Debug, PartialEq, Eq, Structural)]
pub enum PreviewError {
    /// Only 1, 2 or 3 wall polygons are supported.
    InvalidPolygonCount,
    /// Photo, mask and warped layers must share their pixel dimensions.
    InputShapeMismatch,
}

/// Pattern width shares over one common denominator: wall `i` takes
/// `nums[i] / den` of the assembled pattern's width.
#[derive(Debug)]
pub struct WidthShares {
    pub nums: Vec<u64>,
    pub den: u64,
}

/// Sum of a sequence of shares.
pub open spec fn sum_seq(s: Seq<u64>) -> int
    decreases s.len(),
{
    if s.len() == 0 {
        0
    } else {
        sum_seq(s.drop_last()) + s.last()
    }
}

/// A valid allocation: a positive denominator that the numerators sum to,
/// so the shares sum to exactly one.
pub open spec fn shares_wf(ws: WidthShares) -> bool {
    &&& 1 <= ws.den <= 100_000_000_000_000
    &&& sum_seq(ws.nums@) == ws.den
    &&& forall|i: int| 0 <= i < ws.nums@.len() ==> #[trigger] ws.nums@[i] <= ws.den
}

/// Sum of the first `i` shares.
pub open spec fn prefix_sum(s: Seq<u64>, i: int) -> int
    recommends
        0 <= i <= s.len(),
{
    sum_seq(s.take(i))
}

proof fn lemma_prefix_step(s: Seq<u64>, i: int)
    requires
        0 <= i < s.len(),
    ensures
        prefix_sum(s, i + 1) == prefix_sum(s, i) + s[i],
{
    assert(s.take(i + 1).drop_last() =~= s.take(i));
    assert(s.take(i + 1).last() == s[i]);
}

proof fn lemma_prefix_le_total(s: Seq<u64>, i: int)
    requires
        0 <= i <= s.len(),
    ensures
        prefix_sum(s, i) <= sum_seq(s),
    decreases s.len() - i,
{
    if i == s.len() {
        assert(s.take(i) =~= s);
    } else {
        lemma_prefix_step(s, i);
        lemma_prefix_le_total(s, i + 1);
    }
}

/// The exact allocation for the given top-edge lengths:
/// one wall takes the full share; two walls split in proportion to their
/// top edges; of three walls, the sides split the visible-wall surplus
/// (`visible_walls - 1`) in proportion to their top edges and the centre
/// wall keeps `1 / visible_walls`.  Zero total top length falls back to
/// equal side lengths instead of dividing by zero.
pub open spec fn width_shares_model(widths: Seq<u64>, vn: int, vd: int) -> (Seq<int>, int)
    recommends
        1 <= widths.len() <= 3,
{
    if widths.len() == 1 {
        (seq![1int], 1int)
    } else if widths.len() == 2 {
        let w0 = widths[0] as int;
        let w1 = widths[1] as int;
        if w0 + w1 > 0 {
            (seq![w0, w1], w0 + w1)
        } else {
            (seq![1int, 1int], 2int)
        }
    } else {
        let w0 = if widths[0] + widths[2] > 0 {
            widths[0] as int
        } else {
            1int
        };
        let w2 = if widths[0] + widths[2] > 0 {
            widths[2] as int
        } else {
            1int
        };
        let s = w0 + w2;
        (seq![(vn - vd) * w0, vd * s, (vn - vd) * w2], vn * s)
    }
}

/// Allocates the pattern width across 1-3 walls; shares always sum to
/// exactly one (the numerators sum to the common denominator).
pub fn compute_polygon_width_shares(widths: &Vec<u64>, config: &PreviewConfig) -> (r: Result<
    WidthShares,
    PreviewError,
>)
    requires
        config_wf(*config),
        forall|i: int| 0 <= i < widths@.len() ==> #[trigger] widths@[i] <= 10_000_000_000,
    ensures
        ({
            match r {
                Ok(ws) => {
                    &&& 1 <= widths@.len() <= 3
                    &&& shares_wf(ws)
                    &&& ws.nums@.len() == widths@.len()
                    &&& ({
                        let m = width_shares_model(
                            widths@,
                            config.visible_walls_num as int,
                            config.visible_walls_den as int,
                        );
                        &&& ws.den == m.1
                        &&& ws.nums@.len() == m.0.len()
                        &&& forall|i: int|
                            0 <= i < m.0.len() ==> #[trigger] ws.nums@[i] as int == m.0[i]
                    })
                },
                Err(PreviewError::InvalidPolygonCount) => !(1 <= widths@.len() <= 3),
                Err(_) => false,
            }
        }),
{
    if widths.len() == 1 {
        let nums: Vec<u64> = vec![1];
        proof {
            assert(nums@ =~= seq![1u64]);
            assert(seq![1u64].drop_last() =~= Seq::<u64>::empty());
            assert(sum_seq(Seq::<u64>::empty()) == 0);
            assert(sum_seq(seq![1u64]) == 1);
        }
        let ws = WidthShares { nums, den: 1 };
        proof {
            assert(shares_wf(ws));
            assert(ws.nums@.len() == 1);
            assert(ws.nums@[0] == 1u64);
        }
        Ok(ws)
    } else if widths.len() == 2 {
        let w0: u64 = widths[0];
        let w1: u64 = widths[1];
        if w0 + w1 > 0 {
            let nums: Vec<u64> = vec![w0, w1];
            proof {
                assert(nums@ =~= seq![w0, w1]);
                assert(seq![w0, w1].drop_last() =~= seq![w0]);
                assert(seq![w0].drop_last() =~= Seq::<u64>::empty());
                assert(sum_seq(Seq::<u64>::empty()) == 0);
                assert(sum_seq(seq![w0]) == w0);
                assert(sum_seq(seq![w0, w1]) == w0 + w1);
            }
            let ws = WidthShares { nums, den: w0 + w1 };
            proof {
                assert(shares_wf(ws));
            }
            Ok(ws)
        } else {
            let nums: Vec<u64> = vec![1, 1];
            proof {
                assert(nums@ =~= seq![1u64, 1u64]);
                assert(seq![1u64, 1u64].drop_last() =~= seq![1u64]);
                assert(seq![1u64].drop_last() =~= Seq::<u64>::empty());
                assert(sum_seq(Seq::<u64>::empty()) == 0);
                assert(sum_seq(seq![1u64]) == 1);
                assert(sum_seq(seq![1u64, 1u64]) == 2);
            }
            let ws = WidthShares { nums, den: 2 };
            proof {
                assert(shares_wf(ws));
            }
            Ok(ws)
        }
    } else if widths.len() == 3 {
        let s0: u64 = widths[0];
        let s2: u64 = widths[2];
        let (w0, w2): (u64, u64) = if s0 + s2 > 0 {
            (s0, s2)
        } else {
            (1, 1)
        };
        let s: u64 = w0 + w2;
        let vn: u64 = config.visible_walls_num as u64;
        let vd: u64 = config.visible_walls_den as u64;
        proof {
            crate::geometry::lemma_mul_le(vn as int - vd as int, w0 as int, 1000, 10_000_000_000);
            crate::geometry::lemma_mul_le(vd as int, s as int, 1000, 20_000_000_000);
            crate::geometry::lemma_mul_le(vn as int - vd as int, w2 as int, 1000, 10_000_000_000);
            crate::geometry::lemma_mul_le(vn as int, s as int, 1000, 20_000_000_000);
        }
        let n0: u64 = (vn - vd) * w0;
        let n1: u64 = vd * s;
        let n2: u64 = (vn - vd) * w2;
        let den: u64 = vn * s;
        let nums: Vec<u64> = vec![n0, n1, n2];
        proof {
            assert(nums@ =~= seq![n0, n1, n2]);
            assert(seq![n0, n1, n2].drop_last() =~= seq![n0, n1]);
            assert(seq![n0, n1].drop_last() =~= seq![n0]);
            assert(seq![n0].drop_last() =~= Seq::<u64>::empty());
            assert(sum_seq(Seq::<u64>::empty()) == 0);
            assert(sum_seq(seq![n0]) == n0);
            assert(sum_seq(seq![n0, n1]) == n0 + n1);
            assert(sum_seq(seq![n0, n1, n2]) == n0 + n1 + n2);
            assert(1 <= den) by (nonlinear_arith)
                requires
                    den as int == (vn as int) * (s as int),
                    1 <= vn,
                    1 <= s,
            ;
            assert((vn as int - vd as int) * (w0 as int) + (vd as int) * (s as int) + (vn as int
                - vd as int) * (w2 as int) == (vn as int) * (s as int)) by (nonlinear_arith)
                requires
                    s == w0 + w2,
            ;
            assert(n0 as int <= den as int && n1 as int <= den as int && n2 as int
                <= den as int) by (nonlinear_arith)
                requires
                    s == w0 + w2,
                    1 <= vd < vn,
                    n0 as int == (vn as int - vd as int) * (w0 as int),
                    n1 as int == (vd as int) * (s as int),
                    n2 as int == (vn as int - vd as int) * (w2 as int),
                    den as int == (vn as int) * (s as int),
                    n0 as int + n1 as int + n2 as int == den as int,
            ;
        }
        let ws = WidthShares { nums, den };
        proof {
            assert(shares_wf(ws));
            assert(ws.nums@.len() == 3);
        }
        Ok(ws)
    } else {
        Err(PreviewError::InvalidPolygonCount)
    }
}

/// The horizontal tile count as an exact quotient: visible pattern width
/// over tile width.  With a single wall only that wall is visible; with
/// more, the configured visible wall count widens the pattern.
pub fn horizontal_tile_count(config: &PreviewConfig, num_polygons: usize) -> (r: (u32, u32))
    requires
        config_wf(*config),
    ensures
        1 <= r.1,
        r.0 <= 100_000_000,
        num_polygons == 1 ==> r == (config.wall_width_cm, config.tile_width_cm),
        num_polygons != 1 ==> r.0 == config.wall_width_cm * config.visible_walls_num && r.1
            == config.tile_width_cm * config.visible_walls_den,
{
    if num_polygons == 1 {
        (config.wall_width_cm, config.tile_width_cm)
    } else {
        proof {
            crate::geometry::lemma_mul_le(
                config.wall_width_cm as int,
                config.visible_walls_num as int,
                100000,
                1000,
            );
            crate::geometry::lemma_mul_le(
                config.tile_width_cm as int,
                config.visible_walls_den as int,
                100000,
                1000,
            );
        }
        let num: u32 = config.wall_width_cm * config.visible_walls_num;
        let den: u32 = config.tile_width_cm * config.visible_walls_den;
        proof {
            assert(1 <= den) by (nonlinear_arith)
                requires
                    den as int == (config.tile_width_cm as int) * (config.visible_walls_den as int),
                    1 <= config.tile_width_cm,
                    1 <= config.visible_walls_den,
            ;
        }
        (num, den)
    }
}

/// The vertical tile count as an exact quotient: wall height over tile
/// height.
pub fn vertical_tile_count(config: &PreviewConfig) -> (r: (u32, u32))
    requires
        config_wf(*config),
    ensures
        1 <= r.1,
        r.0 <= 100_000_000,
        r == (config.wall_height_cm, config.tile_height_cm),
{
    (config.wall_height_cm, config.tile_height_cm)
}

/// Cuts the assembled pattern's width into one contiguous horizontal
/// strip per wall: strip `i` runs from
/// `atlas_width * prefix_sum(nums, i) / den` to
/// `atlas_width * prefix_sum(nums, i + 1) / den`, so adjoining walls
/// continue the pattern across their shared edge and the strips exactly
/// cover the atlas.
pub fn compute_wallpaper_strips(atlas_width: u32, shares: &WidthShares) -> (r: Vec<(u32, u32)>)
    requires
        shares_wf(*shares),
        atlas_width <= crate::img::MAX_DIM,
    ensures
        r@.len() == shares.nums@.len(),
        forall|i: int|
            0 <= i < r@.len() ==> #[trigger] r@[i].0 as int == (atlas_width as int) * prefix_sum(
                shares.nums@,
                i,
            ) / (shares.den as int),
        forall|i: int|
            0 <= i < r@.len() ==> #[trigger] r@[i].1 as int == (atlas_width as int) * prefix_sum(
                shares.nums@,
                i + 1,
            ) / (shares.den as int),
        forall|i: int| 0 <= i < r@.len() ==> #[trigger] r@[i].0 <= r@[i].1,
        forall|i: int| 0 <= i < r@.len() ==> #[trigger] r@[i].1 <= atlas_width,
        r@.len() > 0 ==> r@[0].0 == 0 && r@[r@.len() - 1].1 == atlas_width,
{
    let n = shares.nums.len();
    let mut out: Vec<(u32, u32)> = Vec::new();
    let mut acc: u64 = 0;
    let mut prev: u32 = 0;
    proof {
        assert(shares.nums@.take(0) =~= Seq::<u64>::empty());
    }
    let mut i: usize = 0;
    while i < n
        invariant
            shares_wf(*shares),
            atlas_width <= crate::img::MAX_DIM,
            n == shares.nums@.len(),
            i <= n,
            out@.len() == i,
            acc as int == prefix_sum(shares.nums@, i as int),
            acc <= shares.den,
            prev as int == (atlas_width as int) * (acc as int) / (shares.den as int),
            prev <= atlas_width,
            forall|j: int|
                0 <= j < i ==> #[trigger] out@[j].0 as int == (atlas_width as int) * prefix_sum(
                    shares.nums@,
                    j,
                ) / (shares.den as int),
            forall|j: int|
                0 <= j < i ==> #[trigger] out@[j].1 as int == (atlas_width as int) * prefix_sum(
                    shares.nums@,
                    j + 1,
                ) / (shares.den as int),
            forall|j: int| 0 <= j < i ==> #[trigger] out@[j].0 <= out@[j].1,
            forall|j: int| 0 <= j < i ==> #[trigger] out@[j].1 <= atlas_width,
            i > 0 ==> out@[0].0 == 0 && out@[i - 1].1 == prev,
        decreases n - i,
    {
        proof {
            lemma_prefix_step(shares.nums@, i as int);
            lemma_prefix_le_total(shares.nums@, i as int + 1);
        }
        let acc2: u64 = acc + shares.nums[i];
        proof {
            crate::geometry::lemma_mul_le(
                atlas_width as int,
                acc2 as int,
                crate::img::MAX_DIM as int,
                100_000_000_000_000,
            );
            vstd::arithmetic::mul::lemma_mul_inequality(
                acc as int,
                acc2 as int,
                atlas_width as int,
            );
            vstd::arithmetic::mul::lemma_mul_inequality(
                acc2 as int,
                shares.den as int,
                atlas_width as int,
            );
            vstd::arithmetic::mul::lemma_mul_is_commutative(acc as int, atlas_width as int);
            vstd::arithmetic::mul::lemma_mul_is_commutative(acc2 as int, atlas_width as int);
            vstd::arithmetic::mul::lemma_mul_is_commutative(shares.den as int, atlas_width as int);
            vstd::arithmetic::div_mod::lemma_div_is_ordered(
                (atlas_width as int) * (acc as int),
                (atlas_width as int) * (acc2 as int),
                shares.den as int,
            );
            vstd::arithmetic::div_mod::lemma_div_is_ordered(
                (atlas_width as int) * (acc2 as int),
                (atlas_width as int) * (shares.den as int),
                shares.den as int,
            );
            vstd::arithmetic::div_mod::lemma_div_multiples_vanish(
                atlas_width as int,
                shares.den as int,
            );
            vstd::arithmetic::mul::lemma_mul_is_commutative(
                shares.den as int,
                atlas_width as int,
            );
        }
        let endp: u64 = atlas_width as u64 * acc2 / shares.den;
        let end32: u32 = endp as u32;
        out.push((prev, end32));
        prev = end32;
        acc = acc2;
        i = i + 1;
    }
    proof {
        if n > 0 {
            assert(shares.nums@.take(n as int) =~= shares.nums@);
            assert(acc == shares.den);
            vstd::arithmetic::mul::lemma_mul_is_commutative(shares.den as int, atlas_width as int);
            vstd::arithmetic::div_mod::lemma_div_multiples_vanish(
                atlas_width as int,
                shares.den as int,
            );
        }
    }
    out
}

} // verus!
