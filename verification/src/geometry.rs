//! Exact line algebra for wall reconstruction.
//!
//! A boundary line fitted through two integer pixels has a rational slope, so
//! every quantity the reconstruction needs (slopes, intercepts, mirrored
//! angles, intersections) is kept as a quotient of integers and computed
//! exactly in `i128`.  A line is stored as the triple `(a, b, d)` with
//! `d >= 1`, meaning the set of real points `(x, y)` with `y * d == a * x + b`.
//! Angle mirroring (`2*theta_c - theta_o`) and the fixed angular offset used
//! for single-edge room shapes are evaluated through tangent addition
//! formulas, which are exact on slope quotients.

use vstd::prelude::*;

verus! {

/// An image-space pixel coordinate, origin top left, y growing downward.
pub type Point = (i32, i32);

/// A detected boundary segment; the endpoint order is meaningful downstream.
pub type Line = ((i32, i32), (i32, i32));

/// Largest coordinate value the reconstruction accepts.  Inputs live in the
/// reference frame of the layout estimator (512 pixels on a side, with a
/// little slack); the bound also keeps every intermediate product inside
/// `i128`.
pub const MAX_COORD: i32 = 1023;

/// Largest image height the reconstruction accepts.
pub const MAX_HEIGHT: i32 = 1024;

/// Far edge of the reference frame in which synthetic border lines are
/// anchored (the reconstruction frame is 512 pixels on a side).
pub const REF_MAX: i32 = 511;

/// Reciprocal of the perturbation applied to one endpoint of a vertical
/// segment before fitting, so that its slope is very large but finite.
pub const VERTICAL_PAD: i128 = 100000;

/// Tangent of the tuned angular offset applied to the perpendicular of a
/// lone wall edge, as the quotient `OFFSET_TAN_NUM / OFFSET_TAN_DEN`.
pub const OFFSET_TAN_NUM: i128 = 57735;

/// See `OFFSET_TAN_NUM`.
pub const OFFSET_TAN_DEN: i128 = 100000;

/// A line in slope-intercept form over a common denominator:
/// `y = (a * x + b) / d`, with `d >= 1`.
#[derive(Clone, Copy, Debug)]
pub struct LineEq {
    pub a: i128,
    pub b: i128,
    pub d: i128,
}

impl View for LineEq {
    type V = (int, int, int);

    open spec fn view(&self) -> (int, int, int) {
        (self.a as int, self.b as int, self.d as int)
    }
}

/// The integer pair of a pixel coordinate.
pub open spec fn spt(p: Point) -> (int, int) {
    (p.0 as int, p.1 as int)
}

/// The integer endpoints of a segment.
pub open spec fn sln(l: Line) -> ((int, int), (int, int)) {
    (spt(l.0), spt(l.1))
}

/// Reflection of the y coordinate used to move between image space (y down)
/// and the geometric frame (y up); it is its own inverse.
pub open spec fn geo_pt(p: (int, int), h: int) -> (int, int) {
    (p.0, h - 1 - p.1)
}

/// `geo_pt` applied to both endpoints.
pub open spec fn geo_ln(l: ((int, int), (int, int)), h: int) -> ((int, int), (int, int)) {
    (geo_pt(l.0, h), geo_pt(l.1, h))
}

/// Slope of the line through two points, as a quotient with positive
/// denominator.  A vertical segment is perturbed by `1 / VERTICAL_PAD`
/// before fitting, which yields the huge but finite slope below.
pub open spec fn slope_through(p1: (int, int), p2: (int, int)) -> (int, int) {
    if p1.0 == p2.0 {
        ((VERTICAL_PAD as int) * (p2.1 - p1.1) + 1, 1)
    } else if p2.0 > p1.0 {
        (p2.1 - p1.1, p2.0 - p1.0)
    } else {
        (p1.1 - p2.1, p1.0 - p2.0)
    }
}

/// The line with slope `s` through point `p`: its intercept over the same
/// denominator is `p.1 * s.1 - s.0 * p.0`.
pub open spec fn line_with_slope(s: (int, int), p: (int, int)) -> (int, int, int) {
    (s.0, p.1 * s.1 - s.0 * p.0, s.1)
}

/// The degree-1 fit through the two endpoints of a segment.
pub open spec fn fitted_line(l: ((int, int), (int, int))) -> (int, int, int) {
    line_with_slope(slope_through(l.0, l.1), l.0)
}

/// Flip signs so the denominator is nonnegative.
pub open spec fn norm_slope(s: (int, int)) -> (int, int) {
    if s.1 < 0 {
        (-s.0, -s.1)
    } else {
        s
    }
}

/// Tangent of `2*theta_c - theta_o` where `c` and `o` are the slopes
/// `tan(theta_c)` and `tan(theta_o)`, by the tangent double-angle and
/// difference formulas.  A zero denominator means the mirrored edge is
/// vertical, which the caller treats as degenerate.
pub open spec fn mirror_slope(c: (int, int), o: (int, int)) -> (int, int) {
    let sq = c.1 * c.1 - c.0 * c.0;
    let db = 2 * c.0 * c.1;
    norm_slope((db * o.1 - o.0 * sq, o.1 * sq + db * o.0))
}

/// The perpendicular direction `-1/s`, left un-normalised (the denominator
/// may be zero or negative; `offset_slope` absorbs it).
pub open spec fn perp_slope(s: (int, int)) -> (int, int) {
    (-s.1, s.0)
}

/// Tangent of `atan(-1/s) + delta` (or `- delta`), where `tan(delta)` is
/// `OFFSET_TAN_NUM / OFFSET_TAN_DEN`, by the tangent addition formula.
/// A zero denominator is degenerate.
pub open spec fn offset_slope(s: (int, int), plus: bool) -> (int, int) {
    let c = perp_slope(s);
    if plus {
        norm_slope(
            (
                c.0 * (OFFSET_TAN_DEN as int) + (OFFSET_TAN_NUM as int) * c.1,
                c.1 * (OFFSET_TAN_DEN as int) - c.0 * (OFFSET_TAN_NUM as int),
            ),
        )
    } else {
        norm_slope(
            (
                c.0 * (OFFSET_TAN_DEN as int) - (OFFSET_TAN_NUM as int) * c.1,
                c.1 * (OFFSET_TAN_DEN as int) + c.0 * (OFFSET_TAN_NUM as int),
            ),
        )
    }
}

/// Truncating (toward zero) division for a positive divisor.
pub open spec fn tdiv(n: int, d: int) -> int {
    if n >= 0 {
        n / d
    } else {
        -((-n) / d)
    }
}

/// Truncating division for any nonzero divisor.
pub open spec fn tdiv2(n: int, d: int) -> int {
    if d < 0 {
        tdiv(-n, -d)
    } else {
        tdiv(n, d)
    }
}

/// Saturation into the `i32` range, as a cast from a wide value would do.
pub open spec fn clamp_i32(v: int) -> int {
    if v < i32::MIN as int {
        i32::MIN as int
    } else if v > i32::MAX as int {
        i32::MAX as int
    } else {
        v
    }
}

/// Intersection of two lines, rounded toward zero and saturated into the
/// `i32` range.  `None` exactly when the lines are parallel.
pub open spec fn intersect_pt(l1: (int, int, int), l2: (int, int, int)) -> Option<(int, int)> {
    let det = l2.0 * l1.2 - l1.0 * l2.2;
    if det == 0 {
        None
    } else {
        Some(
            (
                clamp_i32(tdiv2(l1.1 * l2.2 - l2.1 * l1.2, det)),
                clamp_i32(tdiv2(l2.0 * l1.1 - l1.0 * l2.1, det)),
            ),
        )
    }
}

/// Intersection of a line with the genuine vertical border `x = v`:
/// always defined, since a line in this form is never vertical.  The y
/// coordinate is rounded toward zero and saturated like every other
/// corner.
pub open spec fn vertical_cut(l: (int, int, int), v: int) -> (int, int) {
    (v, clamp_i32(tdiv(l.0 * v + l.1, l.2)))
}

/// Synthetic border at the left image edge: the given slope anchored at the
/// nearest reference-frame corner, chosen by the slope's sign.
pub open spec fn left_border(s: (int, int)) -> (int, int, int) {
    if s.0 >= 0 {
        line_with_slope(s, (0, REF_MAX as int))
    } else {
        line_with_slope(s, (0, 0))
    }
}

/// Synthetic border at the right image edge, the mirror arrangement of
/// `left_border`.
pub open spec fn right_border(s: (int, int)) -> (int, int, int) {
    if s.0 >= 0 {
        line_with_slope(s, (REF_MAX as int, 0))
    } else {
        line_with_slope(s, (REF_MAX as int, REF_MAX as int))
    }
}

/// A coordinate the reconstruction accepts.
pub open spec fn coord_ok(v: int) -> bool {
    0 <= v <= MAX_COORD as int
}

/// A point within the accepted frame.
pub open spec fn point_in_frame(p: Point) -> bool {
    coord_ok(p.0 as int) && coord_ok(p.1 as int)
}

/// A segment within the accepted frame.
pub open spec fn line_in_frame(l: Line) -> bool {
    point_in_frame(l.0) && point_in_frame(l.1)
}

/// A point of the geometric frame (the y reflection may be negative).
pub open spec fn gpoint_ok(p: Point) -> bool {
    coord_ok(p.0 as int) && -(MAX_COORD as int) <= p.1 as int <= MAX_COORD as int
}

/// A segment of the geometric frame.
pub open spec fn gline_ok(l: Line) -> bool {
    gpoint_ok(l.0) && gpoint_ok(l.1)
}

/// Bounds met by directly fitted lines and by perpendicular borders; small
/// enough to intersect with any `wide` line without overflow.
pub open spec fn narrow(l: (int, int, int)) -> bool {
    &&& -210_000_000 <= l.0 <= 210_000_000
    &&& -500_000_000_000 <= l.1 <= 500_000_000_000
    &&& 1 <= l.2 <= 210_000_000
}

/// Bounds met by every line the reconstruction builds, including mirrored
/// and offset edges.
pub open spec fn wide(l: (int, int, int)) -> bool {
    &&& -10_000_000_000_000_000_000_000_000 <= l.0 <= 10_000_000_000_000_000_000_000_000
    &&& -11_000_000_000_000_000_000_000_000_000 <= l.1 <= 11_000_000_000_000_000_000_000_000_000
    &&& 1 <= l.2 <= 150_000_000_000_000_000_000
}

/// Bounds met by the slope quotient of a directly fitted segment.
pub open spec fn fit_slope_ok(s: (int, int)) -> bool {
    &&& -210_000_000 <= s.0 <= 210_000_000
    &&& 1 <= s.1 <= 1024
}

/// Bounds met by a fitted slope or by the normalised perpendicular of one.
pub open spec fn narrow_slope_ok(s: (int, int)) -> bool {
    &&& -210_000_000 <= s.0 <= 210_000_000
    &&& 1 <= s.1 <= 210_000_000
}

/// Bounds met by every slope the reconstruction derives.
pub open spec fn wide_slope_ok(s: (int, int)) -> bool {
    &&& -10_000_000_000_000_000_000_000_000 <= s.0 <= 10_000_000_000_000_000_000_000_000
    &&& 1 <= s.1 <= 150_000_000_000_000_000_000
}

pub proof fn lemma_mul_le(x: int, y: int, bx: int, by: int)
    by (nonlinear_arith)
    requires
        -bx <= x <= bx,
        -by <= y <= by,
        0 <= bx,
        0 <= by,
    ensures
        -(bx * by) <= x * y <= bx * by,
{
}

/// A square is never negative.
pub proof fn lemma_square_nonneg(x: int)
    by (nonlinear_arith)
    ensures
        x * x >= 0,
{
}

/// Exact conversion of a segment between image space and the geometric
/// frame; the same reflection in both directions.
pub fn convert_line_coords_image_geo(line: Line, height: i32) -> (r: Line)
    requires
        1 <= height <= MAX_HEIGHT as int,
        gline_ok(line),
    ensures
        sln(r) == geo_ln(sln(line), height as int),
        line_in_frame(line) ==> gline_ok(r),
{
    (
        (line.0.0, height - 1 - line.0.1),
        (line.1.0, height - 1 - line.1.1),
    )
}

/// `convert_line_coords_image_geo` over a whole list.
pub fn convert_lines_coords_image_geo(lines: &Vec<Line>, height: i32) -> (r: Vec<Line>)
    requires
        1 <= height <= MAX_HEIGHT as int,
        forall|i: int| 0 <= i < lines@.len() ==> gline_ok(#[trigger] lines@[i]),
    ensures
        r@.len() == lines@.len(),
        forall|i: int|
            0 <= i < lines@.len() ==> sln(#[trigger] r@[i]) == geo_ln(sln(lines@[i]), height as int),
        forall|i: int|
            0 <= i < lines@.len() && line_in_frame(lines@[i]) ==> gline_ok(#[trigger] r@[i]),
{
    let mut out: Vec<Line> = Vec::new();
    let mut i: usize = 0;
    while i < lines.len()
        invariant
            1 <= height <= MAX_HEIGHT as int,
            forall|j: int| 0 <= j < lines@.len() ==> gline_ok(#[trigger] lines@[j]),
            i <= lines@.len(),
            out@.len() == i,
            forall|j: int|
                0 <= j < i ==> sln(#[trigger] out@[j]) == geo_ln(sln(lines@[j]), height as int),
            forall|j: int|
                0 <= j < i && line_in_frame(lines@[j]) ==> gline_ok(#[trigger] out@[j]),
        decreases lines@.len() - i,
    {
        let l = lines[i];
        out.push(convert_line_coords_image_geo(l, height));
        i = i + 1;
    }
    out
}

/// Applying the image/geo reflection twice with the same height returns the
/// original point.
pub proof fn lemma_geo_involution(p: (int, int), h: int)
    ensures
        geo_pt(geo_pt(p, h), h) == p,
{
}

/// Applying the image/geo reflection twice with the same height returns the
/// original segment, exactly.
pub proof fn lemma_geo_line_involution(l: ((int, int), (int, int)), h: int)
    ensures
        geo_ln(geo_ln(l, h), h) == l,
{
}

/// Applying the image/geo reflection twice with the same height returns
/// the original segment list, element for element.
pub proof fn lemma_geo_lines_involution(ls: Seq<((int, int), (int, int))>, h: int)
    ensures
        forall|i: int| 0 <= i < ls.len() ==> geo_ln(geo_ln(#[trigger] ls[i], h), h) == ls[i],
{
}

/// Slope quotient of the fit through a segment's endpoints.
fn line_slope(line: Line) -> (s: (i128, i128))
    requires
        gline_ok(line),
    ensures
        (s.0 as int, s.1 as int) == slope_through(sln(line).0, sln(line).1),
        fit_slope_ok((s.0 as int, s.1 as int)),
{
    let x1: i128 = line.0.0 as i128;
    let y1: i128 = line.0.1 as i128;
    let x2: i128 = line.1.0 as i128;
    let y2: i128 = line.1.1 as i128;
    if x1 == x2 {
        (VERTICAL_PAD * (y2 - y1) + 1, 1)
    } else if x2 > x1 {
        (y2 - y1, x2 - x1)
    } else {
        (y1 - y2, x1 - x2)
    }
}

/// Slope and intercept of the degree-1 fit through a segment's endpoints,
/// over a common denominator.
pub fn compute_line_params(line: Line) -> (l: LineEq)
    requires
        gline_ok(line),
    ensures
        l@ == fitted_line(sln(line)),
        narrow(l@),
        fit_slope_ok((l.a as int, l.d as int)),
{
    let s = line_slope(line);
    compute_line_intercept_at_point(s.0, s.1, line.0)
}

/// The line with the given slope quotient through the given point.
pub fn compute_line_intercept_at_point(sn: i128, sd: i128, p: Point) -> (l: LineEq)
    requires
        -10_000_000_000_000_000_000_000_000 <= sn as int <= 10_000_000_000_000_000_000_000_000,
        1 <= sd as int <= 150_000_000_000_000_000_000,
        gpoint_ok(p),
    ensures
        l@ == line_with_slope((sn as int, sd as int), spt(p)),
        wide(l@),
        l.a == sn,
        l.d == sd,
        narrow_slope_ok((sn as int, sd as int)) ==> narrow(l@),
        fit_slope_ok((sn as int, sd as int)) ==> narrow(l@),
{
    proof {
        lemma_mul_le(p.1 as int, sd as int, 1024, 150_000_000_000_000_000_000);
        lemma_mul_le(sn as int, p.0 as int, 10_000_000_000_000_000_000_000_000, 1024);
        if narrow_slope_ok((sn as int, sd as int)) || fit_slope_ok((sn as int, sd as int)) {
            lemma_mul_le(p.1 as int, sd as int, 1024, 210_000_000);
            lemma_mul_le(sn as int, p.0 as int, 210_000_000, 1024);
        }
    }
    let b: i128 = p.1 as i128 * sd - sn * p.0 as i128;
    LineEq { a: sn, b, d: sd }
}

/// Truncating division, `d >= 1`.
pub(crate) fn div_trunc(n: i128, d: i128) -> (r: i128)
    requires
        1 <= d,
    ensures
        r as int == tdiv(n as int, d as int),
{
    let q = n.checked_div(d);
    proof {
        let na: int = if n < 0 { -(n as int) } else { n as int };
        vstd::arithmetic::div_mod::lemma_div_pos_is_pos(na, d as int);
        vstd::arithmetic::div_mod::lemma_div_nonincreasing(na, d as int);
    }
    match q {
        Some(v) => v,
        None => 0,
    }
}

/// Intersection of a line with the genuine vertical border `x = v`.
pub fn compute_vertical_border_intersection(l: &LineEq, v: i32) -> (r: Point)
    requires
        narrow(l@),
        0 <= v <= 1024,
    ensures
        spt(r) == vertical_cut(l@, v as int),
{
    proof {
        lemma_mul_le(l.a as int, v as int, 210_000_000, 1024);
    }
    let num: i128 = l.a * v as i128 + l.b;
    let y: i128 = div_trunc(num, l.d);
    (v, clamp_to_i32(y))
}

/// Intersection point of two lines, truncated toward zero and saturated to
/// the `i32` range; `None` exactly for parallel lines.
pub fn compute_lines_intersection_point(l1: &LineEq, l2: &LineEq) -> (r: Option<Point>)
    requires
        narrow(l1@),
        wide(l2@),
    ensures
        ({
            let m = intersect_pt(l1@, l2@);
            match r {
                None => m is None,
                Some(p) => m == Some(spt(p)),
            }
        }),
{
    proof {
        lemma_mul_le(
            l2.a as int,
            l1.d as int,
            10_000_000_000_000_000_000_000_000,
            210_000_000,
        );
        lemma_mul_le(l1.a as int, l2.d as int, 210_000_000, 150_000_000_000_000_000_000);
        lemma_mul_le(l1.b as int, l2.d as int, 500_000_000_000, 150_000_000_000_000_000_000);
        lemma_mul_le(
            l2.b as int,
            l1.d as int,
            11_000_000_000_000_000_000_000_000_000,
            210_000_000,
        );
        lemma_mul_le(
            l2.a as int,
            l1.b as int,
            10_000_000_000_000_000_000_000_000,
            500_000_000_000,
        );
        lemma_mul_le(
            l1.a as int,
            l2.b as int,
            210_000_000,
            11_000_000_000_000_000_000_000_000_000,
        );
    }
    let det: i128 = l2.a * l1.d - l1.a * l2.d;
    if det == 0 {
        return None;
    }
    let xn: i128 = l1.b * l2.d - l2.b * l1.d;
    let yn: i128 = l2.a * l1.b - l1.a * l2.b;
    let (xn, yn, dd): (i128, i128, i128) = if det < 0 {
        (-xn, -yn, -det)
    } else {
        (xn, yn, det)
    };
    let x: i128 = div_trunc(xn, dd);
    let y: i128 = div_trunc(yn, dd);
    Some((clamp_to_i32(x), clamp_to_i32(y)))
}

/// Slope of the edge obtained by reflecting the angle of `o` about the
/// angle of the divider `c`; `None` exactly when the mirrored edge is
/// vertical.
pub fn compute_mirrored_slope(c: &LineEq, o: &LineEq) -> (r: Option<(i128, i128)>)
    requires
        fit_slope_ok((c.a as int, c.d as int)),
        fit_slope_ok((o.a as int, o.d as int)),
    ensures
        ({
            let m = mirror_slope((c.a as int, c.d as int), (o.a as int, o.d as int));
            match r {
                None => m.1 == 0,
                Some(s) => {
                    &&& m.1 != 0
                    &&& (s.0 as int, s.1 as int) == m
                    &&& wide_slope_ok((s.0 as int, s.1 as int))
                },
            }
        }),
{
    proof {
        lemma_mul_le(c.d as int, c.d as int, 1024, 1024);
        lemma_mul_le(c.a as int, c.a as int, 210_000_000, 210_000_000);
        lemma_mul_le(2 * (c.a as int), c.d as int, 420_000_000, 1024);
    }
    let sq: i128 = c.d * c.d - c.a * c.a;
    let db: i128 = 2 * c.a * c.d;
    proof {
        lemma_mul_le(db as int, o.d as int, 430_080_000_000, 1024);
        lemma_mul_le(o.a as int, sq as int, 210_000_000, 44_100_000_001_048_576);
        lemma_mul_le(o.d as int, sq as int, 1024, 44_100_000_001_048_576);
        lemma_mul_le(db as int, o.a as int, 430_080_000_000, 210_000_000);
    }
    let num: i128 = db * o.d - o.a * sq;
    let den: i128 = o.d * sq + db * o.a;
    if den == 0 {
        None
    } else if den < 0 {
        Some((-num, -den))
    } else {
        Some((num, den))
    }
}

/// The normalised perpendicular `-1/s` of a fitted slope; `None` exactly
/// when the source edge is horizontal, so its perpendicular is vertical.
pub fn compute_perp_slope(l: &LineEq) -> (r: Option<(i128, i128)>)
    requires
        fit_slope_ok((l.a as int, l.d as int)),
    ensures
        ({
            let m = norm_slope(perp_slope((l.a as int, l.d as int)));
            match r {
                None => m.1 == 0,
                Some(s) => {
                    &&& m.1 != 0
                    &&& (s.0 as int, s.1 as int) == m
                    &&& narrow_slope_ok((s.0 as int, s.1 as int))
                },
            }
        }),
{
    if l.a == 0 {
        None
    } else if l.a < 0 {
        Some((l.d, -l.a))
    } else {
        Some((-l.d, l.a))
    }
}

/// The perpendicular of a fitted slope rotated by the tuned angular offset
/// (`plus` chooses the rotation direction); `None` exactly when the result
/// is vertical.
pub fn compute_offset_slope(l: &LineEq, plus: bool) -> (r: Option<(i128, i128)>)
    requires
        fit_slope_ok((l.a as int, l.d as int)),
    ensures
        ({
            let m = offset_slope((l.a as int, l.d as int), plus);
            match r {
                None => m.1 == 0,
                Some(s) => {
                    &&& m.1 != 0
                    &&& (s.0 as int, s.1 as int) == m
                    &&& wide_slope_ok((s.0 as int, s.1 as int))
                },
            }
        }),
{
    let c0: i128 = -l.d;
    let c1: i128 = l.a;
    let num: i128 = if plus {
        c0 * OFFSET_TAN_DEN + OFFSET_TAN_NUM * c1
    } else {
        c0 * OFFSET_TAN_DEN - OFFSET_TAN_NUM * c1
    };
    let den: i128 = if plus {
        c1 * OFFSET_TAN_DEN - c0 * OFFSET_TAN_NUM
    } else {
        c1 * OFFSET_TAN_DEN + c0 * OFFSET_TAN_NUM
    };
    if den == 0 {
        None
    } else if den < 0 {
        Some((-num, -den))
    } else {
        Some((num, den))
    }
}

/// Saturate a wide value into the `i32` range.
pub(crate) fn clamp_to_i32(v: i128) -> (r: i32)
    ensures
        r as int == clamp_i32(v as int),
{
    if v < i32::MIN as i128 {
        i32::MIN
    } else if v > i32::MAX as i128 {
        i32::MAX
    } else {
        v as i32
    }
}

} // verus!
