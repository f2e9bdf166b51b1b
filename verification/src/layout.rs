//! Plain data types in which a host hands a detected room layout to the
//! library: fixed-capacity line and polygon stores with explicit counts,
//! matching the shape in which the upstream estimator reports results.

use vstd::prelude::*;

use crate::geometry::Line;
use crate::geometry::Point;
use crate::polygons::WallPolygon;

verus! {

/// A pixel coordinate as the host reports it.
#[derive(Clone, Copy, Debug, Default, PartialEq, Eq, Structural)]
pub struct LayoutPoint {
    pub x: i32,
    pub y: i32,
}

impl LayoutPoint {
    /// The coordinate as the pair the geometry works on.
    pub fn to_point(&self) -> (r: Point)
        ensures
            r == (self.x, self.y),
    {
        (self.x, self.y)
    }
}

/// A detected boundary line as the host reports it.
#[derive(Clone, Copy, Debug, Default, PartialEq, Eq, Structural)]
pub struct LayoutLine {
    pub start: LayoutPoint,
    pub end: LayoutPoint,
}

impl LayoutLine {
    /// The line as the pair of pairs the geometry works on.
    pub fn to_line(&self) -> (r: Line)
        ensures
            r == ((self.start.x, self.start.y), (self.end.x, self.end.y)),
    {
        ((self.start.x, self.start.y), (self.end.x, self.end.y))
    }
}

/// A wall quadrilateral as the host passes or receives it.
#[derive(Clone, Copy, Debug, Default, PartialEq, Eq, Structural)]
pub struct LayoutWallPolygon {
    pub top_left: LayoutPoint,
    pub top_right: LayoutPoint,
    pub bottom_right: LayoutPoint,
    pub bottom_left: LayoutPoint,
}

/// The compositor's view of a host polygon.
pub open spec fn layout_polygon_view(p: LayoutWallPolygon) -> WallPolygon {
    WallPolygon {
        top_left: (p.top_left.x, p.top_left.y),
        top_right: (p.top_right.x, p.top_right.y),
        bottom_right: (p.bottom_right.x, p.bottom_right.y),
        bottom_left: (p.bottom_left.x, p.bottom_left.y),
    }
}

impl LayoutWallPolygon {
    /// The polygon as the compositor's type.
    pub fn to_wall_polygon(&self) -> (r: WallPolygon)
        ensures
            r == layout_polygon_view(*self),
    {
        WallPolygon {
            top_left: (self.top_left.x, self.top_left.y),
            top_right: (self.top_right.x, self.top_right.y),
            bottom_right: (self.bottom_right.x, self.bottom_right.y),
            bottom_left: (self.bottom_left.x, self.bottom_left.y),
        }
    }
}

/// A full detected room layout: up to 8 boundary lines and up to 3
/// reconstructed wall polygons, with explicit element counts.
#[derive(Clone, Copy, Debug)]
pub struct RoomLayoutData {
    /// Identified room layout lines.
    pub lines: [LayoutLine; 8],
    /// How many entries of `lines` are meaningful (at most 8).
    pub num_lines: u8,
    /// The room-shape code.
    pub room_type: u8,
    /// Reconstructed wall polygons for the room shape.
    pub wall_polygons: [LayoutWallPolygon; 3],
    /// How many entries of `wall_polygons` are meaningful (at most 3).
    pub num_wall_polygons: u8,
}

/// The stored counts stay within the fixed capacities.
pub open spec fn room_layout_wf(d: RoomLayoutData) -> bool {
    &&& d.num_lines <= 8
    &&& d.num_wall_polygons <= 3
}

impl RoomLayoutData {
    /// The meaningful lines, in order, as the geometry's pairs.
    pub fn active_lines(&self) -> (r: Vec<Line>)
        requires
            room_layout_wf(*self),
        ensures
            r@.len() == self.num_lines as int,
            forall|i: int|
                0 <= i < self.num_lines as int ==> #[trigger] r@[i] == (
                    (self.lines@[i].start.x, self.lines@[i].start.y),
                    (self.lines@[i].end.x, self.lines@[i].end.y),
                ),
    {
        let mut out: Vec<Line> = Vec::new();
        let mut i: usize = 0;
        let n: usize = self.num_lines as usize;
        while i < n
            invariant
                n == self.num_lines as int,
                n <= 8,
                i <= n,
                out@.len() == i,
                forall|j: int|
                    0 <= j < i ==> #[trigger] out@[j] == (
                        (self.lines@[j].start.x, self.lines@[j].start.y),
                        (self.lines@[j].end.x, self.lines@[j].end.y),
                    ),
            decreases n - i,
        {
            let l = self.lines[i];
            out.push(l.to_line());
            i = i + 1;
        }
        out
    }

    /// The meaningful wall polygons, in order, as the compositor's type.
    pub fn active_wall_polygons(&self) -> (r: Vec<WallPolygon>)
        requires
            room_layout_wf(*self),
        ensures
            r@.len() == self.num_wall_polygons as int,
            forall|i: int|
                0 <= i < self.num_wall_polygons as int ==> #[trigger] r@[i]
                    == layout_polygon_view(self.wall_polygons@[i]),
    {
        let mut out: Vec<WallPolygon> = Vec::new();
        let mut i: usize = 0;
        let n: usize = self.num_wall_polygons as usize;
        while i < n
            invariant
                n == self.num_wall_polygons as int,
                n <= 3,
                i <= n,
                out@.len() == i,
                forall|j: int|
                    0 <= j < i ==> #[trigger] out@[j] == layout_polygon_view(
                        self.wall_polygons@[j],
                    ),
            decreases n - i,
        {
            let p = self.wall_polygons[i];
            out.push(p.to_wall_polygon());
            i = i + 1;
        }
        out
    }
}

} // verus!
