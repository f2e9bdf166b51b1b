//! Reconstruction of 1-3 wall quadrilaterals from an ordered list of
//! detected boundary lines and a room-shape code.
//!
//! Eleven fixed procedures, one per room shape, share a common pattern:
//! convert the lines to the geometric (y-up) frame, fit the wall dividers
//! directly, complete partially visible edges by border projection or by
//! mirroring a known angle about the divider, intersect each completed edge
//! with a synthetic border line, and convert the corners back to image
//! space.  Every procedure is specified exactly by a model function over
//! unbounded integers; `DegenerateGeometry` is returned precisely when the
//! model meets a parallel intersection or a vertical mirrored edge.

use vstd::prelude::*;

use crate::geometry::LineEq;
use crate::geometry::Line;
use crate::geometry::Point;
use crate::geometry::MAX_HEIGHT;
use crate::geometry::REF_MAX;
use crate::geometry::clamp_i32;
use crate::geometry::compute_line_intercept_at_point;
use crate::geometry::compute_line_params;
use crate::geometry::compute_lines_intersection_point;
use crate::geometry::convert_lines_coords_image_geo;
use crate::geometry::fitted_line;
use crate::geometry::geo_ln;
use crate::geometry::intersect_pt;
use crate::geometry::left_border;
use crate::geometry::line_in_frame;
use crate::geometry::line_with_slope;
use crate::geometry::mirror_slope;
use crate::geometry::norm_slope;
use crate::geometry::offset_slope;
use crate::geometry::perp_slope;
use crate::geometry::right_border;
use crate::geometry::sln;
use crate::geometry::spt;

verus! {

/// Why a reconstruction request was rejected.
#[derive(Clone, Copy, Debug, PartialEq, Eq, Structural)]
pub enum LayoutError {
    /// The room-shape code is outside the known range.
    InvalidRoomType,
    /// The line list's length does not match the shape's fixed expectation.
    MalformedLineSet,
    /// A completed edge was parallel to its border, or a mirrored edge came
    /// out vertical, so no finite corner exists.
    DegenerateGeometry,
}

/// One wall quadrilateral in image-space pixels, corners in cyclic order.
/// Vertices may lie outside the image bounds (extrapolated edges).
#[derive(Clone, Copy, Debug)]
pub struct WallPolygon {
    pub top_left: Point,
    pub top_right: Point,
    pub bottom_right: Point,
    pub bottom_left: Point,
}

/// The integer quadruple of a polygon's corners, in declared order.
pub open spec fn wpv(p: WallPolygon) -> ((int, int), (int, int), (int, int), (int, int)) {
    (spt(p.top_left), spt(p.top_right), spt(p.bottom_right), spt(p.bottom_left))
}

impl WallPolygon {
    /// The four edges of the polygon, in cyclic order starting at the top.
    pub fn lines(&self) -> (r: [Line; 4])
        ensures
            r@ == seq![
                (self.top_left, self.top_right),
                (self.top_right, self.bottom_right),
                (self.bottom_right, self.bottom_left),
                (self.bottom_left, self.top_left),
            ],
    {
        [
            (self.top_left, self.top_right),
            (self.top_right, self.bottom_right),
            (self.bottom_right, self.bottom_left),
            (self.bottom_left, self.top_left),
        ]
    }
}

/// The geometric-frame image of a detected line.
pub open spec fn gline(l: Line, h: int) -> ((int, int), (int, int)) {
    geo_ln(sln(l), h)
}

/// Conversion of a geometric-frame point back to image space; the corner
/// may sit far outside the frame, so the y reflection saturates.
pub open spec fn img_pt(p: (int, int), h: int) -> (int, int) {
    (p.0, clamp_i32(h - 1 - p.1))
}

/// How many lines each room shape expects.
pub open spec fn expected_line_count(room_type: u8) -> int {
    if room_type == 0 {
        8
    } else if room_type == 1 || room_type == 2 || room_type == 5 {
        5
    } else if room_type == 3 || room_type == 4 {
        3
    } else if room_type == 6 || room_type == 7 {
        2
    } else {
        1
    }
}

/// How many wall polygons each room shape produces.
pub open spec fn polygon_count(room_type: u8) -> int {
    if room_type == 0 || room_type == 1 || room_type == 2 || room_type == 7 {
        3
    } else if room_type == 3 || room_type == 4 || room_type == 5 || room_type == 10 {
        2
    } else {
        1
    }
}

/// Exact conversion of a geometric-frame corner back to image space.
fn geo_point_to_image(p: Point, height: i32) -> (r: Point)
    requires
        1 <= height <= MAX_HEIGHT as int,
    ensures
        spt(r) == img_pt(spt(p), height as int),
{
    let y: i64 = height as i64 - 1 - p.1 as i64;
    let yc: i32 = if y < i32::MIN as i64 {
        i32::MIN
    } else if y > i32::MAX as i64 {
        i32::MAX
    } else {
        y as i32
    };
    (p.0, yc)
}

/// Border projection in the geometric frame: the slope of `divider`
/// anchored at the nearest left reference corner.
fn border_left(divider: &LineEq) -> (l: LineEq)
    requires
        crate::geometry::fit_slope_ok((divider.a as int, divider.d as int))
            || crate::geometry::narrow_slope_ok((divider.a as int, divider.d as int)),
    ensures
        l@ == left_border((divider.a as int, divider.d as int)),
        crate::geometry::narrow(l@),
{
    if divider.a >= 0 {
        compute_line_intercept_at_point(divider.a, divider.d, (0, REF_MAX))
    } else {
        compute_line_intercept_at_point(divider.a, divider.d, (0, 0))
    }
}

/// Border projection at the right reference edge.
fn border_right(divider: &LineEq) -> (l: LineEq)
    requires
        crate::geometry::fit_slope_ok((divider.a as int, divider.d as int))
            || crate::geometry::narrow_slope_ok((divider.a as int, divider.d as int)),
    ensures
        l@ == right_border((divider.a as int, divider.d as int)),
        crate::geometry::narrow(l@),
{
    if divider.a >= 0 {
        compute_line_intercept_at_point(divider.a, divider.d, (REF_MAX, 0))
    } else {
        compute_line_intercept_at_point(divider.a, divider.d, (REF_MAX, REF_MAX))
    }
}

/// Model of the two-wall corner shape: a centre divider with two directly
/// observed ceiling and two floor edges, each extended to a synthetic
/// border sharing the divider's slope.
pub open spec fn room5_model(lines: Seq<Line>, h: int) -> Option<Seq<WallPolygon>>
    recommends
        lines.len() == 5,
{
    let lc = gline(lines[2], h);
    let cpar = fitted_line(lc);
    let sc = (cpar.0, cpar.2);
    let lb = left_border(sc);
    let rb = right_border(sc);
    let p_lt = intersect_pt(lb, fitted_line(gline(lines[0], h)));
    let p_lb = intersect_pt(lb, fitted_line(gline(lines[3], h)));
    let p_rt = intersect_pt(rb, fitted_line(gline(lines[1], h)));
    let p_rb = intersect_pt(rb, fitted_line(gline(lines[4], h)));
    if p_lt is None || p_lb is None || p_rt is None || p_rb is None {
        None
    } else {
        let c0 = img_pt(lc.0, h);
        let c1 = img_pt(lc.1, h);
        let left = WallPolygon {
            top_left: ipt(img_pt(p_lt.unwrap(), h)),
            top_right: ipt(c0),
            bottom_right: ipt(c1),
            bottom_left: ipt(img_pt(p_lb.unwrap(), h)),
        };
        let right = WallPolygon {
            top_left: ipt(c0),
            top_right: ipt(img_pt(p_rt.unwrap(), h)),
            bottom_right: ipt(img_pt(p_rb.unwrap(), h)),
            bottom_left: ipt(c1),
        };
        Some(seq![left, right])
    }
}

/// An integer pair as a pixel; exact whenever both components fit in `i32`,
/// which every model value does by construction.
pub open spec fn ipt(p: (int, int)) -> Point {
    (p.0 as i32, p.1 as i32)
}

/// Two visible walls meeting at a centre corner: `lines[2]` is the divider,
/// `lines[0]`/`lines[3]` bound the left wall, `lines[1]`/`lines[4]` the
/// right wall.  The walls share the divider as their common edge.
pub fn compute_wall_polygons_for_room_type_5(lines: &Vec<Line>, image_height: i32) -> (r: Result<
    [WallPolygon; 2],
    LayoutError,
>)
    requires
        1 <= image_height <= MAX_HEIGHT as int,
        forall|i: int| 0 <= i < lines@.len() ==> line_in_frame(#[trigger] lines@[i]),
    ensures
        ({
            let m = room5_model(lines@, image_height as int);
            match r {
                Ok(ps) => lines@.len() == 5 && m == Some(ps@),
                Err(LayoutError::MalformedLineSet) => lines@.len() != 5,
                Err(LayoutError::DegenerateGeometry) => lines@.len() == 5 && m is None,
                Err(_) => false,
            }
        }),
        r matches Ok(ps) ==> ps[0].top_right == ps[1].top_left && ps[0].bottom_right
            == ps[1].bottom_left,
{
    if lines.len() != 5 {
        return Err(LayoutError::MalformedLineSet);
    }
    let lines_geo = convert_lines_coords_image_geo(lines, image_height);

    let line_center = lines_geo[2];
    let line_center_params = compute_line_params(line_center);

    let line_left_border = border_left(&line_center_params);
    let line_right_border = border_right(&line_center_params);

    let line_left_top = lines_geo[0];
    let line_params = compute_line_params(line_left_top);
    let p_lt = match compute_lines_intersection_point(&line_left_border, &line_params) {
        Some(p) => p,
        None => {
            return Err(LayoutError::DegenerateGeometry);
        },
    };

    let line_left_bottom = lines_geo[3];
    let line_params = compute_line_params(line_left_bottom);
    let p_lb = match compute_lines_intersection_point(&line_left_border, &line_params) {
        Some(p) => p,
        None => {
            return Err(LayoutError::DegenerateGeometry);
        },
    };

    let line_right_top = lines_geo[1];
    let line_params = compute_line_params(line_right_top);
    let p_rt = match compute_lines_intersection_point(&line_right_border, &line_params) {
        Some(p) => p,
        None => {
            return Err(LayoutError::DegenerateGeometry);
        },
    };

    let line_right_bottom = lines_geo[4];
    let line_params = compute_line_params(line_right_bottom);
    let p_rb = match compute_lines_intersection_point(&line_right_border, &line_params) {
        Some(p) => p,
        None => {
            return Err(LayoutError::DegenerateGeometry);
        },
    };

    let c0 = geo_point_to_image(line_center.0, image_height);
    let c1 = geo_point_to_image(line_center.1, image_height);

    let left_wall_polygon = WallPolygon {
        top_left: geo_point_to_image(p_lt, image_height),
        top_right: c0,
        bottom_right: c1,
        bottom_left: geo_point_to_image(p_lb, image_height),
    };
    let right_wall_polygon = WallPolygon {
        top_left: c0,
        top_right: geo_point_to_image(p_rt, image_height),
        bottom_right: geo_point_to_image(p_rb, image_height),
        bottom_left: c1,
    };

    Ok([left_wall_polygon, right_wall_polygon])
}

/// Model of the three-wall shape with both dividers fully visible:
/// `lines[4]` and `lines[6]` are the dividers, the four partially visible
/// ceiling/floor edges are extended to the side borders.
pub open spec fn room0_model(lines: Seq<Line>, h: int) -> Option<Seq<WallPolygon>>
    recommends
        lines.len() == 8,
{
    let g4 = gline(lines[4], h);
    let c4 = fitted_line(g4);
    let lb = left_border((c4.0, c4.2));
    let g6 = gline(lines[6], h);
    let c6 = fitted_line(g6);
    let rb = right_border((c6.0, c6.2));
    let p_lt = intersect_pt(lb, fitted_line(gline(lines[0], h)));
    let p_lb = intersect_pt(lb, fitted_line(gline(lines[1], h)));
    let p_rt = intersect_pt(rb, fitted_line(gline(lines[3], h)));
    let p_rb = intersect_pt(rb, fitted_line(gline(lines[2], h)));
    if p_lt is None || p_lb is None || p_rt is None || p_rb is None {
        None
    } else {
        let left = WallPolygon {
            top_left: ipt(img_pt(p_lt.unwrap(), h)),
            top_right: ipt(img_pt(g4.0, h)),
            bottom_right: ipt(img_pt(g4.1, h)),
            bottom_left: ipt(img_pt(p_lb.unwrap(), h)),
        };
        let center = WallPolygon {
            top_left: ipt(img_pt(g4.0, h)),
            top_right: ipt(img_pt(g6.1, h)),
            bottom_right: ipt(img_pt(g6.0, h)),
            bottom_left: ipt(img_pt(g4.1, h)),
        };
        let right = WallPolygon {
            top_left: ipt(img_pt(g6.1, h)),
            top_right: ipt(img_pt(p_rt.unwrap(), h)),
            bottom_right: ipt(img_pt(p_rb.unwrap(), h)),
            bottom_left: ipt(img_pt(g6.0, h)),
        };
        Some(seq![left, center, right])
    }
}

/// Three visible walls with both corner dividers observed: `lines[4]` and
/// `lines[6]` are the left and right dividers, `lines[0]`/`lines[1]` the
/// left wall's ceiling and floor edges, `lines[3]`/`lines[2]` the right
/// wall's.
pub fn compute_wall_polygons_for_room_type_0(lines: &Vec<Line>, image_height: i32) -> (r: Result<
    [WallPolygon; 3],
    LayoutError,
>)
    requires
        1 <= image_height <= MAX_HEIGHT as int,
        forall|i: int| 0 <= i < lines@.len() ==> line_in_frame(#[trigger] lines@[i]),
    ensures
        ({
            let m = room0_model(lines@, image_height as int);
            match r {
                Ok(ps) => lines@.len() == 8 && m == Some(ps@),
                Err(LayoutError::MalformedLineSet) => lines@.len() != 8,
                Err(LayoutError::DegenerateGeometry) => lines@.len() == 8 && m is None,
                Err(_) => false,
            }
        }),
        r matches Ok(ps) ==> ps[0].top_right == ps[1].top_left && ps[0].bottom_right
            == ps[1].bottom_left && ps[1].top_right == ps[2].top_left && ps[1].bottom_right
            == ps[2].bottom_left,
{
    if lines.len() != 8 {
        return Err(LayoutError::MalformedLineSet);
    }
    let lines_geo = convert_lines_coords_image_geo(lines, image_height);

    let line_center_left = lines_geo[4];
    let cl_params = compute_line_params(line_center_left);
    let line_left_border = border_left(&cl_params);

    let line_center_right = lines_geo[6];
    let cr_params = compute_line_params(line_center_right);
    let line_right_border = border_right(&cr_params);

    let line_params = compute_line_params(lines_geo[0]);
    let p_lt = match compute_lines_intersection_point(&line_left_border, &line_params) {
        Some(p) => p,
        None => {
            return Err(LayoutError::DegenerateGeometry);
        },
    };
    let line_params = compute_line_params(lines_geo[1]);
    let p_lb = match compute_lines_intersection_point(&line_left_border, &line_params) {
        Some(p) => p,
        None => {
            return Err(LayoutError::DegenerateGeometry);
        },
    };
    let line_params = compute_line_params(lines_geo[3]);
    let p_rt = match compute_lines_intersection_point(&line_right_border, &line_params) {
        Some(p) => p,
        None => {
            return Err(LayoutError::DegenerateGeometry);
        },
    };
    let line_params = compute_line_params(lines_geo[2]);
    let p_rb = match compute_lines_intersection_point(&line_right_border, &line_params) {
        Some(p) => p,
        None => {
            return Err(LayoutError::DegenerateGeometry);
        },
    };

    let cl0 = geo_point_to_image(line_center_left.0, image_height);
    let cl1 = geo_point_to_image(line_center_left.1, image_height);
    let cr0 = geo_point_to_image(line_center_right.0, image_height);
    let cr1 = geo_point_to_image(line_center_right.1, image_height);

    let left_wall_polygon = WallPolygon {
        top_left: geo_point_to_image(p_lt, image_height),
        top_right: cl0,
        bottom_right: cl1,
        bottom_left: geo_point_to_image(p_lb, image_height),
    };
    let center_wall_polygon = WallPolygon {
        top_left: cl0,
        top_right: cr1,
        bottom_right: cr0,
        bottom_left: cl1,
    };
    let right_wall_polygon = WallPolygon {
        top_left: cr1,
        top_right: geo_point_to_image(p_rt, image_height),
        bottom_right: geo_point_to_image(p_rb, image_height),
        bottom_left: cr0,
    };

    Ok([left_wall_polygon, center_wall_polygon, right_wall_polygon])
}

/// Model of the single full wall spanning the frame: the observed top and
/// bottom edges are cut directly by genuine vertical borders fixed at
/// `x = 0` and `x = w`, without angle mirroring.  A vertical border can
/// never be parallel to a fitted edge, so this shape has no degenerate
/// case.
pub open spec fn room6_model(lines: Seq<Line>, w: int, h: int) -> Option<Seq<WallPolygon>>
    recommends
        lines.len() == 2,
{
    let top = fitted_line(gline(lines[0], h));
    let bottom = fitted_line(gline(lines[1], h));
    let p_tl = crate::geometry::vertical_cut(top, 0);
    let p_tr = crate::geometry::vertical_cut(top, w);
    let p_bl = crate::geometry::vertical_cut(bottom, 0);
    let p_br = crate::geometry::vertical_cut(bottom, w);
    Some(
        seq![
            WallPolygon {
                top_left: ipt(img_pt(p_tl, h)),
                top_right: ipt(img_pt(p_tr, h)),
                bottom_right: ipt(img_pt(p_br, h)),
                bottom_left: ipt(img_pt(p_bl, h)),
            },
        ],
    )
}

/// One wall filling the frame between genuine image edges: `lines[0]` is
/// the ceiling edge and `lines[1]` the floor edge, each cut by the true
/// vertical borders at `x = 0` and `x = image_width`.
pub fn compute_wall_polygon_for_room_type_6(
    lines: &Vec<Line>,
    image_width: i32,
    image_height: i32,
) -> (r: Result<[WallPolygon; 1], LayoutError>)
    requires
        1 <= image_height <= MAX_HEIGHT as int,
        1 <= image_width <= crate::geometry::MAX_COORD as int,
        forall|i: int| 0 <= i < lines@.len() ==> line_in_frame(#[trigger] lines@[i]),
    ensures
        ({
            let m = room6_model(lines@, image_width as int, image_height as int);
            match r {
                Ok(ps) => lines@.len() == 2 && m == Some(ps@),
                Err(LayoutError::MalformedLineSet) => lines@.len() != 2,
                Err(_) => false,
            }
        }),
        r matches Ok(ps) ==> ps[0].top_left.0 == 0 && ps[0].bottom_left.0 == 0
            && ps[0].top_right.0 == image_width && ps[0].bottom_right.0 == image_width,
{
    if lines.len() != 2 {
        return Err(LayoutError::MalformedLineSet);
    }
    let lines_geo = convert_lines_coords_image_geo(lines, image_height);

    let top_params = compute_line_params(lines_geo[0]);
    let bottom_params = compute_line_params(lines_geo[1]);

    let p_tl = crate::geometry::compute_vertical_border_intersection(&top_params, 0);
    let p_tr = crate::geometry::compute_vertical_border_intersection(&top_params, image_width);
    let p_bl = crate::geometry::compute_vertical_border_intersection(&bottom_params, 0);
    let p_br = crate::geometry::compute_vertical_border_intersection(&bottom_params, image_width);

    Ok(
        [
            WallPolygon {
                top_left: geo_point_to_image(p_tl, image_height),
                top_right: geo_point_to_image(p_tr, image_height),
                bottom_right: geo_point_to_image(p_br, image_height),
                bottom_left: geo_point_to_image(p_bl, image_height),
            },
        ],
    )
}

/// Model of the lone-ceiling shape: the observed top edge is duplicated at
/// a bottom reference corner, and both are cut by borders perpendicular to
/// the edge.  Degenerate when the edge is horizontal (vertical borders
/// would be needed).
pub open spec fn room8_model(lines: Seq<Line>, h: int) -> Option<Seq<WallPolygon>>
    recommends
        lines.len() == 1,
{
    let top = fitted_line(gline(lines[0], h));
    let s = (top.0, top.2);
    let bottom = if s.0 >= 0 {
        line_with_slope(s, (REF_MAX as int, 0))
    } else {
        line_with_slope(s, (0, 0))
    };
    let ps = norm_slope(perp_slope(s));
    if ps.1 == 0 {
        None
    } else {
        let lb = left_border(ps);
        let rb = right_border(ps);
        let p_tl = intersect_pt(lb, top);
        let p_tr = intersect_pt(rb, top);
        let p_br = intersect_pt(rb, bottom);
        let p_bl = intersect_pt(lb, bottom);
        if p_tl is None || p_tr is None || p_br is None || p_bl is None {
            None
        } else {
            Some(
                seq![
                    WallPolygon {
                        top_left: ipt(img_pt(p_tl.unwrap(), h)),
                        top_right: ipt(img_pt(p_tr.unwrap(), h)),
                        bottom_right: ipt(img_pt(p_br.unwrap(), h)),
                        bottom_left: ipt(img_pt(p_bl.unwrap(), h)),
                    },
                ],
            )
        }
    }
}

/// One wall with only its ceiling edge visible (`lines[0]`): the floor
/// edge reuses the ceiling's slope anchored at a bottom reference corner,
/// and the side borders are perpendicular to the edge.
pub fn compute_wall_polygon_for_room_type_8(lines: &Vec<Line>, image_height: i32) -> (r: Result<
    [WallPolygon; 1],
    LayoutError,
>)
    requires
        1 <= image_height <= MAX_HEIGHT as int,
        forall|i: int| 0 <= i < lines@.len() ==> line_in_frame(#[trigger] lines@[i]),
    ensures
        ({
            let m = room8_model(lines@, image_height as int);
            match r {
                Ok(ps) => lines@.len() == 1 && m == Some(ps@),
                Err(LayoutError::MalformedLineSet) => lines@.len() != 1,
                Err(LayoutError::DegenerateGeometry) => lines@.len() == 1 && m is None,
                Err(_) => false,
            }
        }),
{
    if lines.len() != 1 {
        return Err(LayoutError::MalformedLineSet);
    }
    let line_top = crate::geometry::convert_line_coords_image_geo(lines[0], image_height);
    let top_params = compute_line_params(line_top);

    let line_bottom = if top_params.a >= 0 {
        compute_line_intercept_at_point(top_params.a, top_params.d, (REF_MAX, 0))
    } else {
        compute_line_intercept_at_point(top_params.a, top_params.d, (0, 0))
    };

    let perp = match crate::geometry::compute_perp_slope(&top_params) {
        Some(s) => s,
        None => {
            return Err(LayoutError::DegenerateGeometry);
        },
    };
    let perp_line = LineEq { a: perp.0, b: 0, d: perp.1 };
    let line_left_border = border_left(&perp_line);
    let line_right_border = border_right(&perp_line);

    let p_tl = match compute_lines_intersection_point(&line_left_border, &top_params) {
        Some(p) => p,
        None => {
            return Err(LayoutError::DegenerateGeometry);
        },
    };
    let p_tr = match compute_lines_intersection_point(&line_right_border, &top_params) {
        Some(p) => p,
        None => {
            return Err(LayoutError::DegenerateGeometry);
        },
    };
    let p_br = match compute_lines_intersection_point(&line_right_border, &line_bottom) {
        Some(p) => p,
        None => {
            return Err(LayoutError::DegenerateGeometry);
        },
    };
    let p_bl = match compute_lines_intersection_point(&line_left_border, &line_bottom) {
        Some(p) => p,
        None => {
            return Err(LayoutError::DegenerateGeometry);
        },
    };

    Ok(
        [
            WallPolygon {
                top_left: geo_point_to_image(p_tl, image_height),
                top_right: geo_point_to_image(p_tr, image_height),
                bottom_right: geo_point_to_image(p_br, image_height),
                bottom_left: geo_point_to_image(p_bl, image_height),
            },
        ],
    )
}

/// Model of the lone-floor shape, the vertical reflection of `room8_model`:
/// the observed bottom edge is duplicated at a top reference corner.
pub open spec fn room9_model(lines: Seq<Line>, h: int) -> Option<Seq<WallPolygon>>
    recommends
        lines.len() == 1,
{
    let bottom = fitted_line(gline(lines[0], h));
    let s = (bottom.0, bottom.2);
    let top = if s.0 >= 0 {
        line_with_slope(s, (0, REF_MAX as int))
    } else {
        line_with_slope(s, (REF_MAX as int, REF_MAX as int))
    };
    let ps = norm_slope(perp_slope(s));
    if ps.1 == 0 {
        None
    } else {
        let lb = left_border(ps);
        let rb = right_border(ps);
        let p_tl = intersect_pt(lb, top);
        let p_tr = intersect_pt(rb, top);
        let p_br = intersect_pt(rb, bottom);
        let p_bl = intersect_pt(lb, bottom);
        if p_tl is None || p_tr is None || p_br is None || p_bl is None {
            None
        } else {
            Some(
                seq![
                    WallPolygon {
                        top_left: ipt(img_pt(p_tl.unwrap(), h)),
                        top_right: ipt(img_pt(p_tr.unwrap(), h)),
                        bottom_right: ipt(img_pt(p_br.unwrap(), h)),
                        bottom_left: ipt(img_pt(p_bl.unwrap(), h)),
                    },
                ],
            )
        }
    }
}

/// One wall with only its floor edge visible (`lines[0]`): the ceiling
/// edge reuses the floor's slope anchored at a top reference corner, and
/// the side borders are perpendicular to the edge.
pub fn compute_wall_polygon_for_room_type_9(lines: &Vec<Line>, image_height: i32) -> (r: Result<
    [WallPolygon; 1],
    LayoutError,
>)
    requires
        1 <= image_height <= MAX_HEIGHT as int,
        forall|i: int| 0 <= i < lines@.len() ==> line_in_frame(#[trigger] lines@[i]),
    ensures
        ({
            let m = room9_model(lines@, image_height as int);
            match r {
                Ok(ps) => lines@.len() == 1 && m == Some(ps@),
                Err(LayoutError::MalformedLineSet) => lines@.len() != 1,
                Err(LayoutError::DegenerateGeometry) => lines@.len() == 1 && m is None,
                Err(_) => false,
            }
        }),
{
    if lines.len() != 1 {
        return Err(LayoutError::MalformedLineSet);
    }
    let line_bottom = crate::geometry::convert_line_coords_image_geo(lines[0], image_height);
    let bottom_params = compute_line_params(line_bottom);

    let line_top = if bottom_params.a >= 0 {
        compute_line_intercept_at_point(bottom_params.a, bottom_params.d, (0, REF_MAX))
    } else {
        compute_line_intercept_at_point(bottom_params.a, bottom_params.d, (REF_MAX, REF_MAX))
    };

    let perp = match crate::geometry::compute_perp_slope(&bottom_params) {
        Some(s) => s,
        None => {
            return Err(LayoutError::DegenerateGeometry);
        },
    };
    let perp_line = LineEq { a: perp.0, b: 0, d: perp.1 };
    let line_left_border = border_left(&perp_line);
    let line_right_border = border_right(&perp_line);

    let p_tl = match compute_lines_intersection_point(&line_left_border, &line_top) {
        Some(p) => p,
        None => {
            return Err(LayoutError::DegenerateGeometry);
        },
    };
    let p_tr = match compute_lines_intersection_point(&line_right_border, &line_top) {
        Some(p) => p,
        None => {
            return Err(LayoutError::DegenerateGeometry);
        },
    };
    let p_br = match compute_lines_intersection_point(&line_right_border, &bottom_params) {
        Some(p) => p,
        None => {
            return Err(LayoutError::DegenerateGeometry);
        },
    };
    let p_bl = match compute_lines_intersection_point(&line_left_border, &bottom_params) {
        Some(p) => p,
        None => {
            return Err(LayoutError::DegenerateGeometry);
        },
    };

    Ok(
        [
            WallPolygon {
                top_left: geo_point_to_image(p_tl, image_height),
                top_right: geo_point_to_image(p_tr, image_height),
                bottom_right: geo_point_to_image(p_br, image_height),
                bottom_left: geo_point_to_image(p_bl, image_height),
            },
        ],
    )
}

/// Model of the three-wall shape whose ceiling edges are occluded: the
/// left and right ceiling edges are synthesised by mirroring the observed
/// floor edges about the respective dividers (`lines[0]` and `lines[3]`).
pub open spec fn room1_model(lines: Seq<Line>, h: int) -> Option<Seq<WallPolygon>>
    recommends
        lines.len() == 5,
{
    let g0 = gline(lines[0], h);
    let c0 = fitted_line(g0);
    let s0 = (c0.0, c0.2);
    let g1 = gline(lines[1], h);
    let c1 = fitted_line(g1);
    let s1 = (c1.0, c1.2);
    let ms_l = mirror_slope(s0, s1);
    let g3 = gline(lines[3], h);
    let c3 = fitted_line(g3);
    let s3 = (c3.0, c3.2);
    let g4 = gline(lines[4], h);
    let c4 = fitted_line(g4);
    let s4 = (c4.0, c4.2);
    let ms_r = mirror_slope(s3, s4);
    if ms_l.1 == 0 || ms_r.1 == 0 {
        None
    } else {
        let left_top = if ms_l.0 >= 0 {
            line_with_slope(ms_l, (0, REF_MAX as int))
        } else {
            line_with_slope(ms_l, g0.1)
        };
        let right_top = if ms_r.0 >= 0 {
            line_with_slope(ms_r, g3.1)
        } else {
            line_with_slope(ms_r, (REF_MAX as int, REF_MAX as int))
        };
        let lb = left_border(s0);
        let rb = right_border(s3);
        let p1 = intersect_pt(lb, left_top);
        let p2 = intersect_pt(lb, c1);
        let p3 = intersect_pt(rb, right_top);
        let p4 = intersect_pt(rb, c4);
        if p1 is None || p2 is None || p3 is None || p4 is None {
            None
        } else {
            let left = WallPolygon {
                top_left: ipt(img_pt(p1.unwrap(), h)),
                top_right: ipt(img_pt(g0.1, h)),
                bottom_right: ipt(img_pt(g0.0, h)),
                bottom_left: ipt(img_pt(p2.unwrap(), h)),
            };
            let center = WallPolygon {
                top_left: ipt(img_pt(g0.1, h)),
                top_right: ipt(img_pt(g3.1, h)),
                bottom_right: ipt(img_pt(g3.0, h)),
                bottom_left: ipt(img_pt(g0.0, h)),
            };
            let right = WallPolygon {
                top_left: ipt(img_pt(g3.1, h)),
                top_right: ipt(img_pt(p3.unwrap(), h)),
                bottom_right: ipt(img_pt(p4.unwrap(), h)),
                bottom_left: ipt(img_pt(g3.0, h)),
            };
            Some(seq![left, center, right])
        }
    }
}

/// Three walls with occluded ceiling corners: `lines[0]`/`lines[3]` are
/// the dividers, `lines[1]`/`lines[4]` the observed floor edges; each
/// missing ceiling edge mirrors its floor edge about the divider.
pub fn compute_wall_polygons_for_room_type_1(lines: &Vec<Line>, image_height: i32) -> (r: Result<
    [WallPolygon; 3],
    LayoutError,
>)
    requires
        1 <= image_height <= MAX_HEIGHT as int,
        forall|i: int| 0 <= i < lines@.len() ==> line_in_frame(#[trigger] lines@[i]),
    ensures
        ({
            let m = room1_model(lines@, image_height as int);
            match r {
                Ok(ps) => lines@.len() == 5 && m == Some(ps@),
                Err(LayoutError::MalformedLineSet) => lines@.len() != 5,
                Err(LayoutError::DegenerateGeometry) => lines@.len() == 5 && m is None,
                Err(_) => false,
            }
        }),
        r matches Ok(ps) ==> ps[0].top_right == ps[1].top_left && ps[0].bottom_right
            == ps[1].bottom_left && ps[1].top_right == ps[2].top_left && ps[1].bottom_right
            == ps[2].bottom_left,
{
    if lines.len() != 5 {
        return Err(LayoutError::MalformedLineSet);
    }
    let lines_geo = convert_lines_coords_image_geo(lines, image_height);

    let line_center_left = lines_geo[0];
    let cl_params = compute_line_params(line_center_left);
    let line_left_bottom = lines_geo[1];
    let lb_params = compute_line_params(line_left_bottom);
    let ms_l = crate::geometry::compute_mirrored_slope(&cl_params, &lb_params);

    let line_center_right = lines_geo[3];
    let cr_params = compute_line_params(line_center_right);
    let line_right_bottom = lines_geo[4];
    let rb_params = compute_line_params(line_right_bottom);
    let ms_r = crate::geometry::compute_mirrored_slope(&cr_params, &rb_params);

    let ms_l = match ms_l {
        Some(s) => s,
        None => {
            return Err(LayoutError::DegenerateGeometry);
        },
    };
    let ms_r = match ms_r {
        Some(s) => s,
        None => {
            return Err(LayoutError::DegenerateGeometry);
        },
    };

    let line_left_top = if ms_l.0 >= 0 {
        compute_line_intercept_at_point(ms_l.0, ms_l.1, (0, REF_MAX))
    } else {
        compute_line_intercept_at_point(ms_l.0, ms_l.1, line_center_left.1)
    };
    let line_right_top = if ms_r.0 >= 0 {
        compute_line_intercept_at_point(ms_r.0, ms_r.1, line_center_right.1)
    } else {
        compute_line_intercept_at_point(ms_r.0, ms_r.1, (REF_MAX, REF_MAX))
    };

    let line_left_border = border_left(&cl_params);
    let line_right_border = border_right(&cr_params);

    let p1 = match compute_lines_intersection_point(&line_left_border, &line_left_top) {
        Some(p) => p,
        None => {
            return Err(LayoutError::DegenerateGeometry);
        },
    };
    let p2 = match compute_lines_intersection_point(&line_left_border, &lb_params) {
        Some(p) => p,
        None => {
            return Err(LayoutError::DegenerateGeometry);
        },
    };
    let p3 = match compute_lines_intersection_point(&line_right_border, &line_right_top) {
        Some(p) => p,
        None => {
            return Err(LayoutError::DegenerateGeometry);
        },
    };
    let p4 = match compute_lines_intersection_point(&line_right_border, &rb_params) {
        Some(p) => p,
        None => {
            return Err(LayoutError::DegenerateGeometry);
        },
    };

    let cl0 = geo_point_to_image(line_center_left.0, image_height);
    let cl1 = geo_point_to_image(line_center_left.1, image_height);
    let cr0 = geo_point_to_image(line_center_right.0, image_height);
    let cr1 = geo_point_to_image(line_center_right.1, image_height);

    let left_wall_polygon = WallPolygon {
        top_left: geo_point_to_image(p1, image_height),
        top_right: cl1,
        bottom_right: cl0,
        bottom_left: geo_point_to_image(p2, image_height),
    };
    let center_wall_polygon = WallPolygon {
        top_left: cl1,
        top_right: cr1,
        bottom_right: cr0,
        bottom_left: cl0,
    };
    let right_wall_polygon = WallPolygon {
        top_left: cr1,
        top_right: geo_point_to_image(p3, image_height),
        bottom_right: geo_point_to_image(p4, image_height),
        bottom_left: cr0,
    };

    Ok([left_wall_polygon, center_wall_polygon, right_wall_polygon])
}

/// Model of the three-wall shape whose floor edges are occluded, the
/// vertical reflection of `room1_model`: the missing floor edges mirror
/// the observed ceiling edges about the dividers.
pub open spec fn room2_model(lines: Seq<Line>, h: int) -> Option<Seq<WallPolygon>>
    recommends
        lines.len() == 5,
{
    let g0 = gline(lines[0], h);
    let c0 = fitted_line(g0);
    let s0 = (c0.0, c0.2);
    let g1 = gline(lines[1], h);
    let c1 = fitted_line(g1);
    let s1 = (c1.0, c1.2);
    let ms_l = mirror_slope(s1, s0);
    let g3 = gline(lines[3], h);
    let c3 = fitted_line(g3);
    let s3 = (c3.0, c3.2);
    let g4 = gline(lines[4], h);
    let c4 = fitted_line(g4);
    let s4 = (c4.0, c4.2);
    let ms_r = mirror_slope(s4, s3);
    if ms_l.1 == 0 || ms_r.1 == 0 {
        None
    } else {
        let left_bottom = if ms_l.0 >= 0 {
            line_with_slope(ms_l, g1.1)
        } else {
            line_with_slope(ms_l, (0, 0))
        };
        let right_bottom = if ms_r.0 >= 0 {
            line_with_slope(ms_r, (REF_MAX as int, 0))
        } else {
            line_with_slope(ms_r, g4.1)
        };
        let lb = left_border(s1);
        let rb = right_border(s4);
        let p1 = intersect_pt(lb, c0);
        let p2 = intersect_pt(lb, left_bottom);
        let p3 = intersect_pt(rb, c3);
        let p4 = intersect_pt(rb, right_bottom);
        if p1 is None || p2 is None || p3 is None || p4 is None {
            None
        } else {
            let left = WallPolygon {
                top_left: ipt(img_pt(p1.unwrap(), h)),
                top_right: ipt(img_pt(g1.0, h)),
                bottom_right: ipt(img_pt(g1.1, h)),
                bottom_left: ipt(img_pt(p2.unwrap(), h)),
            };
            let center = WallPolygon {
                top_left: ipt(img_pt(g1.0, h)),
                top_right: ipt(img_pt(g4.0, h)),
                bottom_right: ipt(img_pt(g4.1, h)),
                bottom_left: ipt(img_pt(g1.1, h)),
            };
            let right = WallPolygon {
                top_left: ipt(img_pt(g4.0, h)),
                top_right: ipt(img_pt(p3.unwrap(), h)),
                bottom_right: ipt(img_pt(p4.unwrap(), h)),
                bottom_left: ipt(img_pt(g4.1, h)),
            };
            Some(seq![left, center, right])
        }
    }
}

/// Three walls with occluded floor corners: `lines[1]`/`lines[4]` are the
/// dividers, `lines[0]`/`lines[3]` the observed ceiling edges; each
/// missing floor edge mirrors its ceiling edge about the divider.
pub fn compute_wall_polygons_for_room_type_2(lines: &Vec<Line>, image_height: i32) -> (r: Result<
    [WallPolygon; 3],
    LayoutError,
>)
    requires
        1 <= image_height <= MAX_HEIGHT as int,
        forall|i: int| 0 <= i < lines@.len() ==> line_in_frame(#[trigger] lines@[i]),
    ensures
        ({
            let m = room2_model(lines@, image_height as int);
            match r {
                Ok(ps) => lines@.len() == 5 && m == Some(ps@),
                Err(LayoutError::MalformedLineSet) => lines@.len() != 5,
                Err(LayoutError::DegenerateGeometry) => lines@.len() == 5 && m is None,
                Err(_) => false,
            }
        }),
        r matches Ok(ps) ==> ps[0].top_right == ps[1].top_left && ps[0].bottom_right
            == ps[1].bottom_left && ps[1].top_right == ps[2].top_left && ps[1].bottom_right
            == ps[2].bottom_left,
{
    if lines.len() != 5 {
        return Err(LayoutError::MalformedLineSet);
    }
    let lines_geo = convert_lines_coords_image_geo(lines, image_height);

    let line_left_top = lines_geo[0];
    let lt_params = compute_line_params(line_left_top);
    let line_center_left = lines_geo[1];
    let cl_params = compute_line_params(line_center_left);
    let ms_l = crate::geometry::compute_mirrored_slope(&cl_params, &lt_params);

    let line_right_top = lines_geo[3];
    let rt_params = compute_line_params(line_right_top);
    let line_center_right = lines_geo[4];
    let cr_params = compute_line_params(line_center_right);
    let ms_r = crate::geometry::compute_mirrored_slope(&cr_params, &rt_params);

    let ms_l = match ms_l {
        Some(s) => s,
        None => {
            return Err(LayoutError::DegenerateGeometry);
        },
    };
    let ms_r = match ms_r {
        Some(s) => s,
        None => {
            return Err(LayoutError::DegenerateGeometry);
        },
    };

    let line_left_bottom = if ms_l.0 >= 0 {
        compute_line_intercept_at_point(ms_l.0, ms_l.1, line_center_left.1)
    } else {
        compute_line_intercept_at_point(ms_l.0, ms_l.1, (0, 0))
    };
    let line_right_bottom = if ms_r.0 >= 0 {
        compute_line_intercept_at_point(ms_r.0, ms_r.1, (REF_MAX, 0))
    } else {
        compute_line_intercept_at_point(ms_r.0, ms_r.1, line_center_right.1)
    };

    let line_left_border = border_left(&cl_params);
    let line_right_border = border_right(&cr_params);

    let p1 = match compute_lines_intersection_point(&line_left_border, &lt_params) {
        Some(p) => p,
        None => {
            return Err(LayoutError::DegenerateGeometry);
        },
    };
    let p2 = match compute_lines_intersection_point(&line_left_border, &line_left_bottom) {
        Some(p) => p,
        None => {
            return Err(LayoutError::DegenerateGeometry);
        },
    };
    let p3 = match compute_lines_intersection_point(&line_right_border, &rt_params) {
        Some(p) => p,
        None => {
            return Err(LayoutError::DegenerateGeometry);
        },
    };
    let p4 = match compute_lines_intersection_point(&line_right_border, &line_right_bottom) {
        Some(p) => p,
        None => {
            return Err(LayoutError::DegenerateGeometry);
        },
    };

    let cl0 = geo_point_to_image(line_center_left.0, image_height);
    let cl1 = geo_point_to_image(line_center_left.1, image_height);
    let cr0 = geo_point_to_image(line_center_right.0, image_height);
    let cr1 = geo_point_to_image(line_center_right.1, image_height);

    let left_wall_polygon = WallPolygon {
        top_left: geo_point_to_image(p1, image_height),
        top_right: cl0,
        bottom_right: cl1,
        bottom_left: geo_point_to_image(p2, image_height),
    };
    let center_wall_polygon = WallPolygon {
        top_left: cl0,
        top_right: cr0,
        bottom_right: cr1,
        bottom_left: cl1,
    };
    let right_wall_polygon = WallPolygon {
        top_left: cr0,
        top_right: geo_point_to_image(p3, image_height),
        bottom_right: geo_point_to_image(p4, image_height),
        bottom_left: cr1,
    };

    Ok([left_wall_polygon, center_wall_polygon, right_wall_polygon])
}

/// Model of the two-wall shape with only the ceiling visible: both floor
/// edges are synthesised by mirroring the observed ceiling edges about the
/// centre divider `lines[1]`.
pub open spec fn room3_model(lines: Seq<Line>, h: int) -> Option<Seq<WallPolygon>>
    recommends
        lines.len() == 3,
{
    let g0 = gline(lines[0], h);
    let c0 = fitted_line(g0);
    let s0 = (c0.0, c0.2);
    let g1 = gline(lines[1], h);
    let c1 = fitted_line(g1);
    let s1 = (c1.0, c1.2);
    let g2 = gline(lines[2], h);
    let c2 = fitted_line(g2);
    let s2 = (c2.0, c2.2);
    let ms_l = mirror_slope(s1, s0);
    let ms_r = mirror_slope(s1, s2);
    if ms_l.1 == 0 || ms_r.1 == 0 {
        None
    } else {
        let left_bottom = if ms_l.0 >= 0 {
            line_with_slope(ms_l, g1.1)
        } else {
            line_with_slope(ms_l, (0, 0))
        };
        let right_bottom = if ms_r.0 >= 0 {
            line_with_slope(ms_r, (REF_MAX as int, 0))
        } else {
            line_with_slope(ms_r, g1.1)
        };
        let lb = left_border(s1);
        let rb = right_border(s1);
        let p1 = intersect_pt(lb, c0);
        let p2 = intersect_pt(lb, left_bottom);
        let p3 = intersect_pt(rb, c2);
        let p4 = intersect_pt(rb, right_bottom);
        if p1 is None || p2 is None || p3 is None || p4 is None {
            None
        } else {
            let left = WallPolygon {
                top_left: ipt(img_pt(p1.unwrap(), h)),
                top_right: ipt(img_pt(g0.0, h)),
                bottom_right: ipt(img_pt(g1.1, h)),
                bottom_left: ipt(img_pt(p2.unwrap(), h)),
            };
            let right = WallPolygon {
                top_left: ipt(img_pt(g1.0, h)),
                top_right: ipt(img_pt(p3.unwrap(), h)),
                bottom_right: ipt(img_pt(p4.unwrap(), h)),
                bottom_left: ipt(img_pt(g1.1, h)),
            };
            Some(seq![left, right])
        }
    }
}

/// Two walls whose floor corner is occluded: `lines[1]` is the divider,
/// `lines[0]`/`lines[2]` the observed ceiling edges; the floor edges
/// mirror them about the divider.
pub fn compute_wall_polygons_for_room_type_3(lines: &Vec<Line>, image_height: i32) -> (r: Result<
    [WallPolygon; 2],
    LayoutError,
>)
    requires
        1 <= image_height <= MAX_HEIGHT as int,
        forall|i: int| 0 <= i < lines@.len() ==> line_in_frame(#[trigger] lines@[i]),
    ensures
        ({
            let m = room3_model(lines@, image_height as int);
            match r {
                Ok(ps) => lines@.len() == 3 && m == Some(ps@),
                Err(LayoutError::MalformedLineSet) => lines@.len() != 3,
                Err(LayoutError::DegenerateGeometry) => lines@.len() == 3 && m is None,
                Err(_) => false,
            }
        }),
        r matches Ok(ps) ==> ps[0].bottom_right == ps[1].bottom_left,
{
    if lines.len() != 3 {
        return Err(LayoutError::MalformedLineSet);
    }
    let lines_geo = convert_lines_coords_image_geo(lines, image_height);

    let line_left_top = lines_geo[0];
    let lt_params = compute_line_params(line_left_top);
    let line_center = lines_geo[1];
    let c_params = compute_line_params(line_center);
    let line_right_top = lines_geo[2];
    let rt_params = compute_line_params(line_right_top);

    let ms_l = match crate::geometry::compute_mirrored_slope(&c_params, &lt_params) {
        Some(s) => s,
        None => {
            return Err(LayoutError::DegenerateGeometry);
        },
    };
    let ms_r = match crate::geometry::compute_mirrored_slope(&c_params, &rt_params) {
        Some(s) => s,
        None => {
            return Err(LayoutError::DegenerateGeometry);
        },
    };

    let line_left_bottom = if ms_l.0 >= 0 {
        compute_line_intercept_at_point(ms_l.0, ms_l.1, line_center.1)
    } else {
        compute_line_intercept_at_point(ms_l.0, ms_l.1, (0, 0))
    };
    let line_right_bottom = if ms_r.0 >= 0 {
        compute_line_intercept_at_point(ms_r.0, ms_r.1, (REF_MAX, 0))
    } else {
        compute_line_intercept_at_point(ms_r.0, ms_r.1, line_center.1)
    };

    let line_left_border = border_left(&c_params);
    let line_right_border = border_right(&c_params);

    let p1 = match compute_lines_intersection_point(&line_left_border, &lt_params) {
        Some(p) => p,
        None => {
            return Err(LayoutError::DegenerateGeometry);
        },
    };
    let p2 = match compute_lines_intersection_point(&line_left_border, &line_left_bottom) {
        Some(p) => p,
        None => {
            return Err(LayoutError::DegenerateGeometry);
        },
    };
    let p3 = match compute_lines_intersection_point(&line_right_border, &rt_params) {
        Some(p) => p,
        None => {
            return Err(LayoutError::DegenerateGeometry);
        },
    };
    let p4 = match compute_lines_intersection_point(&line_right_border, &line_right_bottom) {
        Some(p) => p,
        None => {
            return Err(LayoutError::DegenerateGeometry);
        },
    };

    let left_wall_polygon = WallPolygon {
        top_left: geo_point_to_image(p1, image_height),
        top_right: geo_point_to_image(line_left_top.0, image_height),
        bottom_right: geo_point_to_image(line_center.1, image_height),
        bottom_left: geo_point_to_image(p2, image_height),
    };
    let right_wall_polygon = WallPolygon {
        top_left: geo_point_to_image(line_center.0, image_height),
        top_right: geo_point_to_image(p3, image_height),
        bottom_right: geo_point_to_image(p4, image_height),
        bottom_left: geo_point_to_image(line_center.1, image_height),
    };

    Ok([left_wall_polygon, right_wall_polygon])
}

/// Model of the two-wall shape with only the floor visible, the vertical
/// reflection of `room3_model`: both ceiling edges mirror the observed
/// floor edges about the centre divider `lines[1]`.
pub open spec fn room4_model(lines: Seq<Line>, h: int) -> Option<Seq<WallPolygon>>
    recommends
        lines.len() == 3,
{
    let g0 = gline(lines[0], h);
    let c0 = fitted_line(g0);
    let s0 = (c0.0, c0.2);
    let g1 = gline(lines[1], h);
    let c1 = fitted_line(g1);
    let s1 = (c1.0, c1.2);
    let g2 = gline(lines[2], h);
    let c2 = fitted_line(g2);
    let s2 = (c2.0, c2.2);
    let ms_l = mirror_slope(s1, s0);
    let ms_r = mirror_slope(s1, s2);
    if ms_l.1 == 0 || ms_r.1 == 0 {
        None
    } else {
        let top_left_line = if ms_l.0 >= 0 {
            line_with_slope(ms_l, (0, REF_MAX as int))
        } else {
            line_with_slope(ms_l, g1.1)
        };
        let top_right_line = if ms_r.0 >= 0 {
            line_with_slope(ms_r, g1.1)
        } else {
            line_with_slope(ms_r, (REF_MAX as int, REF_MAX as int))
        };
        let lb = left_border(s1);
        let rb = right_border(s1);
        let p1 = intersect_pt(lb, top_left_line);
        let p2 = intersect_pt(lb, c0);
        let p3 = intersect_pt(rb, top_right_line);
        let p4 = intersect_pt(rb, c2);
        if p1 is None || p2 is None || p3 is None || p4 is None {
            None
        } else {
            let left = WallPolygon {
                top_left: ipt(img_pt(p1.unwrap(), h)),
                top_right: ipt(img_pt(g1.1, h)),
                bottom_right: ipt(img_pt(g1.0, h)),
                bottom_left: ipt(img_pt(p2.unwrap(), h)),
            };
            let right = WallPolygon {
                top_left: ipt(img_pt(g1.1, h)),
                top_right: ipt(img_pt(p3.unwrap(), h)),
                bottom_right: ipt(img_pt(p4.unwrap(), h)),
                bottom_left: ipt(img_pt(g1.0, h)),
            };
            Some(seq![left, right])
        }
    }
}

/// Two walls whose ceiling corner is occluded: `lines[1]` is the divider,
/// `lines[0]`/`lines[2]` the observed floor edges; the ceiling edges
/// mirror them about the divider.
pub fn compute_wall_polygons_for_room_type_4(lines: &Vec<Line>, image_height: i32) -> (r: Result<
    [WallPolygon; 2],
    LayoutError,
>)
    requires
        1 <= image_height <= MAX_HEIGHT as int,
        forall|i: int| 0 <= i < lines@.len() ==> line_in_frame(#[trigger] lines@[i]),
    ensures
        ({
            let m = room4_model(lines@, image_height as int);
            match r {
                Ok(ps) => lines@.len() == 3 && m == Some(ps@),
                Err(LayoutError::MalformedLineSet) => lines@.len() != 3,
                Err(LayoutError::DegenerateGeometry) => lines@.len() == 3 && m is None,
                Err(_) => false,
            }
        }),
        r matches Ok(ps) ==> ps[0].top_right == ps[1].top_left && ps[0].bottom_right
            == ps[1].bottom_left,
{
    if lines.len() != 3 {
        return Err(LayoutError::MalformedLineSet);
    }
    let lines_geo = convert_lines_coords_image_geo(lines, image_height);

    let line_bottom_left = lines_geo[0];
    let bl_params = compute_line_params(line_bottom_left);
    let line_center = lines_geo[1];
    let c_params = compute_line_params(line_center);
    let line_bottom_right = lines_geo[2];
    let br_params = compute_line_params(line_bottom_right);

    let ms_l = match crate::geometry::compute_mirrored_slope(&c_params, &bl_params) {
        Some(s) => s,
        None => {
            return Err(LayoutError::DegenerateGeometry);
        },
    };
    let ms_r = match crate::geometry::compute_mirrored_slope(&c_params, &br_params) {
        Some(s) => s,
        None => {
            return Err(LayoutError::DegenerateGeometry);
        },
    };

    let line_top_left = if ms_l.0 >= 0 {
        compute_line_intercept_at_point(ms_l.0, ms_l.1, (0, REF_MAX))
    } else {
        compute_line_intercept_at_point(ms_l.0, ms_l.1, line_center.1)
    };
    let line_top_right = if ms_r.0 >= 0 {
        compute_line_intercept_at_point(ms_r.0, ms_r.1, line_center.1)
    } else {
        compute_line_intercept_at_point(ms_r.0, ms_r.1, (REF_MAX, REF_MAX))
    };

    let line_left_border = border_left(&c_params);
    let line_right_border = border_right(&c_params);

    let p1 = match compute_lines_intersection_point(&line_left_border, &line_top_left) {
        Some(p) => p,
        None => {
            return Err(LayoutError::DegenerateGeometry);
        },
    };
    let p2 = match compute_lines_intersection_point(&line_left_border, &bl_params) {
        Some(p) => p,
        None => {
            return Err(LayoutError::DegenerateGeometry);
        },
    };
    let p3 = match compute_lines_intersection_point(&line_right_border, &line_top_right) {
        Some(p) => p,
        None => {
            return Err(LayoutError::DegenerateGeometry);
        },
    };
    let p4 = match compute_lines_intersection_point(&line_right_border, &br_params) {
        Some(p) => p,
        None => {
            return Err(LayoutError::DegenerateGeometry);
        },
    };

    let c0 = geo_point_to_image(line_center.0, image_height);
    let c1 = geo_point_to_image(line_center.1, image_height);

    let left_wall_polygon = WallPolygon {
        top_left: geo_point_to_image(p1, image_height),
        top_right: c1,
        bottom_right: c0,
        bottom_left: geo_point_to_image(p2, image_height),
    };
    let right_wall_polygon = WallPolygon {
        top_left: c1,
        top_right: geo_point_to_image(p3, image_height),
        bottom_right: geo_point_to_image(p4, image_height),
        bottom_left: c0,
    };

    Ok([left_wall_polygon, right_wall_polygon])
}

/// Model of the three-wall shape where only the two dividers are visible:
/// each wall's ceiling and floor edges are assumed perpendicular to its
/// divider, rotated by the tuned angular offset.
pub open spec fn room7_model(lines: Seq<Line>, h: int) -> Option<Seq<WallPolygon>>
    recommends
        lines.len() == 2,
{
    let g0 = gline(lines[0], h);
    let c0 = fitted_line(g0);
    let s0 = (c0.0, c0.2);
    let g1 = gline(lines[1], h);
    let c1 = fitted_line(g1);
    let s1 = (c1.0, c1.2);
    let os_lt = offset_slope(s0, false);
    let os_lb = offset_slope(s0, true);
    let os_rt = offset_slope(s1, true);
    let os_rb = offset_slope(s1, false);
    if os_lt.1 == 0 || os_lb.1 == 0 || os_rt.1 == 0 || os_rb.1 == 0 {
        None
    } else {
        let left_top = if os_lt.0 >= 0 {
            line_with_slope(os_lt, (0, REF_MAX as int))
        } else {
            line_with_slope(os_lt, g0.1)
        };
        let left_bottom = if os_lb.0 >= 0 {
            line_with_slope(os_lb, g0.0)
        } else {
            line_with_slope(os_lb, (0, 0))
        };
        let right_top = if os_rt.0 >= 0 {
            line_with_slope(os_rt, g1.1)
        } else {
            line_with_slope(os_rt, (REF_MAX as int, REF_MAX as int))
        };
        let right_bottom = if os_rb.0 >= 0 {
            line_with_slope(os_rb, (REF_MAX as int, 0))
        } else {
            line_with_slope(os_rb, g1.0)
        };
        let lb = left_border(s0);
        let rb = right_border(s1);
        let p1 = intersect_pt(lb, left_top);
        let p2 = intersect_pt(lb, left_bottom);
        let p3 = intersect_pt(rb, right_top);
        let p4 = intersect_pt(rb, right_bottom);
        if p1 is None || p2 is None || p3 is None || p4 is None {
            None
        } else {
            let left = WallPolygon {
                top_left: ipt(img_pt(p1.unwrap(), h)),
                top_right: ipt(img_pt(g0.1, h)),
                bottom_right: ipt(img_pt(g0.0, h)),
                bottom_left: ipt(img_pt(p2.unwrap(), h)),
            };
            let center = WallPolygon {
                top_left: ipt(img_pt(g0.1, h)),
                top_right: ipt(img_pt(g1.1, h)),
                bottom_right: ipt(img_pt(g1.0, h)),
                bottom_left: ipt(img_pt(g0.0, h)),
            };
            let right = WallPolygon {
                top_left: ipt(img_pt(g1.1, h)),
                top_right: ipt(img_pt(p3.unwrap(), h)),
                bottom_right: ipt(img_pt(p4.unwrap(), h)),
                bottom_left: ipt(img_pt(g1.0, h)),
            };
            Some(seq![left, center, right])
        }
    }
}

/// Three walls with only the two dividers observed (`lines[0]` left,
/// `lines[1]` right): the hidden ceiling and floor edges are taken
/// perpendicular to each divider, tilted by the tuned offset angle.
pub fn compute_wall_polygons_for_room_type_7(lines: &Vec<Line>, image_height: i32) -> (r: Result<
    [WallPolygon; 3],
    LayoutError,
>)
    requires
        1 <= image_height <= MAX_HEIGHT as int,
        forall|i: int| 0 <= i < lines@.len() ==> line_in_frame(#[trigger] lines@[i]),
    ensures
        ({
            let m = room7_model(lines@, image_height as int);
            match r {
                Ok(ps) => lines@.len() == 2 && m == Some(ps@),
                Err(LayoutError::MalformedLineSet) => lines@.len() != 2,
                Err(LayoutError::DegenerateGeometry) => lines@.len() == 2 && m is None,
                Err(_) => false,
            }
        }),
        r matches Ok(ps) ==> ps[0].top_right == ps[1].top_left && ps[0].bottom_right
            == ps[1].bottom_left && ps[1].top_right == ps[2].top_left && ps[1].bottom_right
            == ps[2].bottom_left,
{
    if lines.len() != 2 {
        return Err(LayoutError::MalformedLineSet);
    }
    let lines_geo = convert_lines_coords_image_geo(lines, image_height);

    let line_left = lines_geo[0];
    let l_params = compute_line_params(line_left);
    let line_right = lines_geo[1];
    let r_params = compute_line_params(line_right);

    let os_lt = crate::geometry::compute_offset_slope(&l_params, false);
    let os_lb = crate::geometry::compute_offset_slope(&l_params, true);
    let os_rt = crate::geometry::compute_offset_slope(&r_params, true);
    let os_rb = crate::geometry::compute_offset_slope(&r_params, false);
    let os_lt = match os_lt {
        Some(s) => s,
        None => {
            return Err(LayoutError::DegenerateGeometry);
        },
    };
    let os_lb = match os_lb {
        Some(s) => s,
        None => {
            return Err(LayoutError::DegenerateGeometry);
        },
    };
    let os_rt = match os_rt {
        Some(s) => s,
        None => {
            return Err(LayoutError::DegenerateGeometry);
        },
    };
    let os_rb = match os_rb {
        Some(s) => s,
        None => {
            return Err(LayoutError::DegenerateGeometry);
        },
    };

    let line_left_top = if os_lt.0 >= 0 {
        compute_line_intercept_at_point(os_lt.0, os_lt.1, (0, REF_MAX))
    } else {
        compute_line_intercept_at_point(os_lt.0, os_lt.1, line_left.1)
    };
    let line_left_bottom = if os_lb.0 >= 0 {
        compute_line_intercept_at_point(os_lb.0, os_lb.1, line_left.0)
    } else {
        compute_line_intercept_at_point(os_lb.0, os_lb.1, (0, 0))
    };
    let line_right_top = if os_rt.0 >= 0 {
        compute_line_intercept_at_point(os_rt.0, os_rt.1, line_right.1)
    } else {
        compute_line_intercept_at_point(os_rt.0, os_rt.1, (REF_MAX, REF_MAX))
    };
    let line_right_bottom = if os_rb.0 >= 0 {
        compute_line_intercept_at_point(os_rb.0, os_rb.1, (REF_MAX, 0))
    } else {
        compute_line_intercept_at_point(os_rb.0, os_rb.1, line_right.0)
    };

    let line_left_border = border_left(&l_params);
    let line_right_border = border_right(&r_params);

    let p1 = match compute_lines_intersection_point(&line_left_border, &line_left_top) {
        Some(p) => p,
        None => {
            return Err(LayoutError::DegenerateGeometry);
        },
    };
    let p2 = match compute_lines_intersection_point(&line_left_border, &line_left_bottom) {
        Some(p) => p,
        None => {
            return Err(LayoutError::DegenerateGeometry);
        },
    };
    let p3 = match compute_lines_intersection_point(&line_right_border, &line_right_top) {
        Some(p) => p,
        None => {
            return Err(LayoutError::DegenerateGeometry);
        },
    };
    let p4 = match compute_lines_intersection_point(&line_right_border, &line_right_bottom) {
        Some(p) => p,
        None => {
            return Err(LayoutError::DegenerateGeometry);
        },
    };

    let l0 = geo_point_to_image(line_left.0, image_height);
    let l1 = geo_point_to_image(line_left.1, image_height);
    let r0 = geo_point_to_image(line_right.0, image_height);
    let r1 = geo_point_to_image(line_right.1, image_height);

    let left_wall_polygon = WallPolygon {
        top_left: geo_point_to_image(p1, image_height),
        top_right: l1,
        bottom_right: l0,
        bottom_left: geo_point_to_image(p2, image_height),
    };
    let center_wall_polygon = WallPolygon {
        top_left: l1,
        top_right: r1,
        bottom_right: r0,
        bottom_left: l0,
    };
    let right_wall_polygon = WallPolygon {
        top_left: r1,
        top_right: geo_point_to_image(p3, image_height),
        bottom_right: geo_point_to_image(p4, image_height),
        bottom_left: r0,
    };

    Ok([left_wall_polygon, center_wall_polygon, right_wall_polygon])
}

/// Model of the two-wall shape where only the centre divider is visible:
/// all four ceiling and floor edges are assumed perpendicular to the
/// divider, rotated by the tuned angular offset.
pub open spec fn room10_model(lines: Seq<Line>, h: int) -> Option<Seq<WallPolygon>>
    recommends
        lines.len() == 1,
{
    let g0 = gline(lines[0], h);
    let c0 = fitted_line(g0);
    let s0 = (c0.0, c0.2);
    let os_lt = offset_slope(s0, false);
    let os_lb = offset_slope(s0, true);
    let os_rt = offset_slope(s0, true);
    let os_rb = offset_slope(s0, false);
    if os_lt.1 == 0 || os_lb.1 == 0 || os_rt.1 == 0 || os_rb.1 == 0 {
        None
    } else {
        let left_top = if os_lt.0 >= 0 {
            line_with_slope(os_lt, (0, REF_MAX as int))
        } else {
            line_with_slope(os_lt, g0.0)
        };
        let left_bottom = if os_lb.0 >= 0 {
            line_with_slope(os_lb, g0.1)
        } else {
            line_with_slope(os_lb, (0, 0))
        };
        let right_top = if os_rt.0 >= 0 {
            line_with_slope(os_rt, g0.0)
        } else {
            line_with_slope(os_rt, (REF_MAX as int, REF_MAX as int))
        };
        let right_bottom = if os_rb.0 >= 0 {
            line_with_slope(os_rb, (REF_MAX as int, 0))
        } else {
            line_with_slope(os_rb, g0.1)
        };
        let lb = left_border(s0);
        let rb = right_border(s0);
        let p1 = intersect_pt(lb, left_top);
        let p2 = intersect_pt(lb, left_bottom);
        let p3 = intersect_pt(rb, right_top);
        let p4 = intersect_pt(rb, right_bottom);
        if p1 is None || p2 is None || p3 is None || p4 is None {
            None
        } else {
            let left = WallPolygon {
                top_left: ipt(img_pt(p1.unwrap(), h)),
                top_right: ipt(img_pt(g0.0, h)),
                bottom_right: ipt(img_pt(g0.1, h)),
                bottom_left: ipt(img_pt(p2.unwrap(), h)),
            };
            let right = WallPolygon {
                top_left: ipt(img_pt(g0.0, h)),
                top_right: ipt(img_pt(p3.unwrap(), h)),
                bottom_right: ipt(img_pt(p4.unwrap(), h)),
                bottom_left: ipt(img_pt(g0.1, h)),
            };
            Some(seq![left, right])
        }
    }
}

/// Two walls with only the centre divider observed (`lines[0]`): the
/// hidden ceiling and floor edges are taken perpendicular to the divider,
/// tilted by the tuned offset angle, and the walls share the divider.
pub fn compute_wall_polygons_for_room_type_10(lines: &Vec<Line>, image_height: i32) -> (r: Result<
    [WallPolygon; 2],
    LayoutError,
>)
    requires
        1 <= image_height <= MAX_HEIGHT as int,
        forall|i: int| 0 <= i < lines@.len() ==> line_in_frame(#[trigger] lines@[i]),
    ensures
        ({
            let m = room10_model(lines@, image_height as int);
            match r {
                Ok(ps) => lines@.len() == 1 && m == Some(ps@),
                Err(LayoutError::MalformedLineSet) => lines@.len() != 1,
                Err(LayoutError::DegenerateGeometry) => lines@.len() == 1 && m is None,
                Err(_) => false,
            }
        }),
        r matches Ok(ps) ==> ps[0].top_right == ps[1].top_left && ps[0].bottom_right
            == ps[1].bottom_left,
{
    if lines.len() != 1 {
        return Err(LayoutError::MalformedLineSet);
    }
    let line_center = crate::geometry::convert_line_coords_image_geo(lines[0], image_height);
    let c_params = compute_line_params(line_center);

    let os_lt = crate::geometry::compute_offset_slope(&c_params, false);
    let os_lb = crate::geometry::compute_offset_slope(&c_params, true);
    let os_rt = crate::geometry::compute_offset_slope(&c_params, true);
    let os_rb = crate::geometry::compute_offset_slope(&c_params, false);
    let os_lt = match os_lt {
        Some(s) => s,
        None => {
            return Err(LayoutError::DegenerateGeometry);
        },
    };
    let os_lb = match os_lb {
        Some(s) => s,
        None => {
            return Err(LayoutError::DegenerateGeometry);
        },
    };
    let os_rt = match os_rt {
        Some(s) => s,
        None => {
            return Err(LayoutError::DegenerateGeometry);
        },
    };
    let os_rb = match os_rb {
        Some(s) => s,
        None => {
            return Err(LayoutError::DegenerateGeometry);
        },
    };

    let line_left_top = if os_lt.0 >= 0 {
        compute_line_intercept_at_point(os_lt.0, os_lt.1, (0, REF_MAX))
    } else {
        compute_line_intercept_at_point(os_lt.0, os_lt.1, line_center.0)
    };
    let line_left_bottom = if os_lb.0 >= 0 {
        compute_line_intercept_at_point(os_lb.0, os_lb.1, line_center.1)
    } else {
        compute_line_intercept_at_point(os_lb.0, os_lb.1, (0, 0))
    };
    let line_right_top = if os_rt.0 >= 0 {
        compute_line_intercept_at_point(os_rt.0, os_rt.1, line_center.0)
    } else {
        compute_line_intercept_at_point(os_rt.0, os_rt.1, (REF_MAX, REF_MAX))
    };
    let line_right_bottom = if os_rb.0 >= 0 {
        compute_line_intercept_at_point(os_rb.0, os_rb.1, (REF_MAX, 0))
    } else {
        compute_line_intercept_at_point(os_rb.0, os_rb.1, line_center.1)
    };

    let line_left_border = border_left(&c_params);
    let line_right_border = border_right(&c_params);

    let p1 = match compute_lines_intersection_point(&line_left_border, &line_left_top) {
        Some(p) => p,
        None => {
            return Err(LayoutError::DegenerateGeometry);
        },
    };
    let p2 = match compute_lines_intersection_point(&line_left_border, &line_left_bottom) {
        Some(p) => p,
        None => {
            return Err(LayoutError::DegenerateGeometry);
        },
    };
    let p3 = match compute_lines_intersection_point(&line_right_border, &line_right_top) {
        Some(p) => p,
        None => {
            return Err(LayoutError::DegenerateGeometry);
        },
    };
    let p4 = match compute_lines_intersection_point(&line_right_border, &line_right_bottom) {
        Some(p) => p,
        None => {
            return Err(LayoutError::DegenerateGeometry);
        },
    };

    let c0 = geo_point_to_image(line_center.0, image_height);
    let c1 = geo_point_to_image(line_center.1, image_height);

    let left_wall_polygon = WallPolygon {
        top_left: geo_point_to_image(p1, image_height),
        top_right: c0,
        bottom_right: c1,
        bottom_left: geo_point_to_image(p2, image_height),
    };
    let right_wall_polygon = WallPolygon {
        top_left: c0,
        top_right: geo_point_to_image(p3, image_height),
        bottom_right: geo_point_to_image(p4, image_height),
        bottom_left: c1,
    };

    Ok([left_wall_polygon, right_wall_polygon])
}

/// Twice the signed area of the triangle `a b c`: positive for one turn
/// direction, negative for the other, zero for collinear points.
pub open spec fn orient(a: (int, int), b: (int, int), c: (int, int)) -> int {
    (b.0 - a.0) * (c.1 - a.1) - (b.1 - a.1) * (c.0 - a.0)
}

/// A point collinear with the segment `a b` lies on the segment when it
/// lies within the segment's bounding box.
pub open spec fn within_box(a: (int, int), b: (int, int), c: (int, int)) -> bool {
    &&& (if a.0 <= b.0 {
        a.0 <= c.0 <= b.0
    } else {
        b.0 <= c.0 <= a.0
    })
    &&& (if a.1 <= b.1 {
        a.1 <= c.1 <= b.1
    } else {
        b.1 <= c.1 <= a.1
    })
}

/// The segments `p1 p2` and `p3 p4` share at least one point.
pub open spec fn segments_intersect(
    p1: (int, int),
    p2: (int, int),
    p3: (int, int),
    p4: (int, int),
) -> bool {
    let o1 = orient(p1, p2, p3);
    let o2 = orient(p1, p2, p4);
    let o3 = orient(p3, p4, p1);
    let o4 = orient(p3, p4, p2);
    ||| ((o1 > 0 && o2 < 0) || (o1 < 0 && o2 > 0)) && ((o3 > 0 && o4 < 0) || (o3 < 0 && o4 > 0))
    ||| o1 == 0 && within_box(p1, p2, p3)
    ||| o2 == 0 && within_box(p1, p2, p4)
    ||| o3 == 0 && within_box(p3, p4, p1)
    ||| o4 == 0 && within_box(p3, p4, p2)
}

/// The corners, taken in declared cyclic order, bound a simple
/// quadrilateral: all four corners are distinct and neither pair of
/// opposite edges meets.
pub open spec fn is_simple_quadrilateral_spec(q: WallPolygon) -> bool {
    let a = spt(q.top_left);
    let b = spt(q.top_right);
    let c = spt(q.bottom_right);
    let d = spt(q.bottom_left);
    &&& a != b && a != c && a != d && b != c && b != d && c != d
    &&& !segments_intersect(a, b, c, d)
    &&& !segments_intersect(b, c, d, a)
}

fn orient_sign(a: Point, b: Point, c: Point) -> (r: i32)
    ensures
        r == 1 <==> orient(spt(a), spt(b), spt(c)) > 0,
        r == -1 <==> orient(spt(a), spt(b), spt(c)) < 0,
        r == 0 <==> orient(spt(a), spt(b), spt(c)) == 0,
{
    let bx: i128 = b.0 as i128 - a.0 as i128;
    let by: i128 = b.1 as i128 - a.1 as i128;
    let cx: i128 = c.0 as i128 - a.0 as i128;
    let cy: i128 = c.1 as i128 - a.1 as i128;
    proof {
        crate::geometry::lemma_mul_le(bx as int, cy as int, 4_294_967_296, 4_294_967_296);
        crate::geometry::lemma_mul_le(by as int, cx as int, 4_294_967_296, 4_294_967_296);
    }
    let v: i128 = bx * cy - by * cx;
    if v > 0 {
        1
    } else if v < 0 {
        -1
    } else {
        0
    }
}

fn within_box_test(a: Point, b: Point, c: Point) -> (r: bool)
    ensures
        r == within_box(spt(a), spt(b), spt(c)),
{
    let x_ok = if a.0 <= b.0 {
        a.0 <= c.0 && c.0 <= b.0
    } else {
        b.0 <= c.0 && c.0 <= a.0
    };
    let y_ok = if a.1 <= b.1 {
        a.1 <= c.1 && c.1 <= b.1
    } else {
        b.1 <= c.1 && c.1 <= a.1
    };
    x_ok && y_ok
}

fn segments_intersect_test(p1: Point, p2: Point, p3: Point, p4: Point) -> (r: bool)
    ensures
        r == segments_intersect(spt(p1), spt(p2), spt(p3), spt(p4)),
{
    let o1 = orient_sign(p1, p2, p3);
    let o2 = orient_sign(p1, p2, p4);
    let o3 = orient_sign(p3, p4, p1);
    let o4 = orient_sign(p3, p4, p2);
    if ((o1 == 1 && o2 == -1) || (o1 == -1 && o2 == 1)) && ((o3 == 1 && o4 == -1) || (o3 == -1
        && o4 == 1)) {
        return true;
    }
    if o1 == 0 && within_box_test(p1, p2, p3) {
        return true;
    }
    if o2 == 0 && within_box_test(p1, p2, p4) {
        return true;
    }
    if o3 == 0 && within_box_test(p3, p4, p1) {
        return true;
    }
    if o4 == 0 && within_box_test(p3, p4, p2) {
        return true;
    }
    false
}

/// Whether the polygon's corners, in declared order, form a simple
/// (non-self-intersecting) quadrilateral.
pub fn is_simple_quadrilateral(q: &WallPolygon) -> (r: bool)
    ensures
        r == is_simple_quadrilateral_spec(*q),
{
    let a = q.top_left;
    let b = q.top_right;
    let c = q.bottom_right;
    let d = q.bottom_left;
    let distinct = !(a.0 == b.0 && a.1 == b.1) && !(a.0 == c.0 && a.1 == c.1) && !(a.0 == d.0
        && a.1 == d.1) && !(b.0 == c.0 && b.1 == c.1) && !(b.0 == d.0 && b.1 == d.1) && !(c.0
        == d.0 && c.1 == d.1);
    if !distinct {
        return false;
    }
    let cross1 = segments_intersect_test(a, b, c, d);
    let cross2 = segments_intersect_test(b, c, d, a);
    !cross1 && !cross2
}

/// One coordinate scaled from the reference frame to the actual frame,
/// truncated toward zero and saturated into the `i32` range.
pub open spec fn scale_val(v: int, num: int, den: int) -> int {
    clamp_i32(crate::geometry::tdiv(v * num, den))
}

fn scale_coord(v: i32, num: u32, den: u32) -> (r: i32)
    requires
        1 <= den,
    ensures
        r as int == scale_val(v as int, num as int, den as int),
{
    proof {
        crate::geometry::lemma_mul_le(v as int, num as int, 2_147_483_648, 4_294_967_296);
    }
    let n: i128 = v as i128 * num as i128;
    let q = crate::geometry::div_trunc(n, den as i128);
    crate::geometry::clamp_to_i32(q)
}

/// A new polygon with every vertex scaled independently by
/// `(actual_width / reference_width, actual_height / reference_height)`;
/// the caller's polygon is left untouched.
pub fn scale_wall_polygon(
    polygon: &WallPolygon,
    actual_width: u32,
    actual_height: u32,
    reference_width: u32,
    reference_height: u32,
) -> (r: WallPolygon)
    requires
        1 <= reference_width,
        1 <= reference_height,
    ensures
        ({
            let aw = actual_width as int;
            let ah = actual_height as int;
            let rw = reference_width as int;
            let rh = reference_height as int;
            &&& spt(r.top_left) == (
                scale_val(polygon.top_left.0 as int, aw, rw),
                scale_val(polygon.top_left.1 as int, ah, rh),
            )
            &&& spt(r.top_right) == (
                scale_val(polygon.top_right.0 as int, aw, rw),
                scale_val(polygon.top_right.1 as int, ah, rh),
            )
            &&& spt(r.bottom_right) == (
                scale_val(polygon.bottom_right.0 as int, aw, rw),
                scale_val(polygon.bottom_right.1 as int, ah, rh),
            )
            &&& spt(r.bottom_left) == (
                scale_val(polygon.bottom_left.0 as int, aw, rw),
                scale_val(polygon.bottom_left.1 as int, ah, rh),
            )
        }),
{
    WallPolygon {
        top_left: (
            scale_coord(polygon.top_left.0, actual_width, reference_width),
            scale_coord(polygon.top_left.1, actual_height, reference_height),
        ),
        top_right: (
            scale_coord(polygon.top_right.0, actual_width, reference_width),
            scale_coord(polygon.top_right.1, actual_height, reference_height),
        ),
        bottom_right: (
            scale_coord(polygon.bottom_right.0, actual_width, reference_width),
            scale_coord(polygon.bottom_right.1, actual_height, reference_height),
        ),
        bottom_left: (
            scale_coord(polygon.bottom_left.0, actual_width, reference_width),
            scale_coord(polygon.bottom_left.1, actual_height, reference_height),
        ),
    }
}

/// The reconstruction model for any room shape: dispatches to the model of
/// the given shape.  `None` exactly when that shape's procedure meets
/// degenerate geometry.
pub open spec fn reconstruct_model(lines: Seq<Line>, w: int, h: int, room_type: u8) -> Option<
    Seq<WallPolygon>,
>
    recommends
        room_type <= 10,
        lines.len() == expected_line_count(room_type),
{
    if room_type == 0 {
        room0_model(lines, h)
    } else if room_type == 1 {
        room1_model(lines, h)
    } else if room_type == 2 {
        room2_model(lines, h)
    } else if room_type == 3 {
        room3_model(lines, h)
    } else if room_type == 4 {
        room4_model(lines, h)
    } else if room_type == 5 {
        room5_model(lines, h)
    } else if room_type == 6 {
        room6_model(lines, w, h)
    } else if room_type == 7 {
        room7_model(lines, h)
    } else if room_type == 8 {
        room8_model(lines, h)
    } else if room_type == 9 {
        room9_model(lines, h)
    } else {
        room10_model(lines, h)
    }
}

/// Reconstructs the ordered wall polygons for a detected room layout.
///
/// Exactly one of four outcomes holds: an unknown `room_type` is rejected
/// as `InvalidRoomType`; a line list whose length does not match the
/// shape's fixed expectation is rejected as `MalformedLineSet`; a parallel
/// intersection or vertical synthesised edge yields
/// `DegenerateGeometry`; otherwise the result equals the shape's model and
/// carries the documented polygon count (3, 3, 3, 2, 2, 2, 1, 3, 1, 1, 2
/// for shapes 0 through 10), ordered left to right.
pub fn compute_wall_polygons(
    lines: &Vec<Line>,
    image_width: i32,
    image_height: i32,
    room_type: u8,
) -> (r: Result<Vec<WallPolygon>, LayoutError>)
    requires
        1 <= image_height <= MAX_HEIGHT as int,
        1 <= image_width <= crate::geometry::MAX_COORD as int,
        forall|i: int| 0 <= i < lines@.len() ==> line_in_frame(#[trigger] lines@[i]),
    ensures
        ({
            let m = reconstruct_model(
                lines@,
                image_width as int,
                image_height as int,
                room_type,
            );
            match r {
                Ok(ps) => {
                    &&& room_type <= 10
                    &&& lines@.len() == expected_line_count(room_type)
                    &&& m == Some(ps@)
                    &&& ps@.len() == polygon_count(room_type)
                },
                Err(LayoutError::InvalidRoomType) => room_type > 10,
                Err(LayoutError::MalformedLineSet) => room_type <= 10 && lines@.len()
                    != expected_line_count(room_type),
                Err(LayoutError::DegenerateGeometry) => room_type <= 10 && lines@.len()
                    == expected_line_count(room_type) && m is None,
            }
        }),
{
    match room_type {
        0 => match compute_wall_polygons_for_room_type_0(lines, image_height) {
            Ok(ps) => Ok(vec![ps[0], ps[1], ps[2]]),
            Err(e) => Err(e),
        },
        1 => match compute_wall_polygons_for_room_type_1(lines, image_height) {
            Ok(ps) => Ok(vec![ps[0], ps[1], ps[2]]),
            Err(e) => Err(e),
        },
        2 => match compute_wall_polygons_for_room_type_2(lines, image_height) {
            Ok(ps) => Ok(vec![ps[0], ps[1], ps[2]]),
            Err(e) => Err(e),
        },
        3 => match compute_wall_polygons_for_room_type_3(lines, image_height) {
            Ok(ps) => Ok(vec![ps[0], ps[1]]),
            Err(e) => Err(e),
        },
        4 => match compute_wall_polygons_for_room_type_4(lines, image_height) {
            Ok(ps) => Ok(vec![ps[0], ps[1]]),
            Err(e) => Err(e),
        },
        5 => match compute_wall_polygons_for_room_type_5(lines, image_height) {
            Ok(ps) => Ok(vec![ps[0], ps[1]]),
            Err(e) => Err(e),
        },
        6 => match compute_wall_polygon_for_room_type_6(lines, image_width, image_height) {
            Ok(ps) => Ok(vec![ps[0]]),
            Err(e) => Err(e),
        },
        7 => match compute_wall_polygons_for_room_type_7(lines, image_height) {
            Ok(ps) => Ok(vec![ps[0], ps[1], ps[2]]),
            Err(e) => Err(e),
        },
        8 => match compute_wall_polygon_for_room_type_8(lines, image_height) {
            Ok(ps) => Ok(vec![ps[0]]),
            Err(e) => Err(e),
        },
        9 => match compute_wall_polygon_for_room_type_9(lines, image_height) {
            Ok(ps) => Ok(vec![ps[0]]),
            Err(e) => Err(e),
        },
        10 => match compute_wall_polygons_for_room_type_10(lines, image_height) {
            Ok(ps) => Ok(vec![ps[0], ps[1]]),
            Err(e) => Err(e),
        },
        _ => Err(LayoutError::InvalidRoomType),
    }
}

} // verus!
