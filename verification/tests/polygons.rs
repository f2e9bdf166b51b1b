use texture_synthesis_adapter::polygons::LayoutError;
use texture_synthesis_adapter::polygons::compute_wall_polygon_for_room_type_6;
use texture_synthesis_adapter::polygons::compute_wall_polygon_for_room_type_8;
use texture_synthesis_adapter::polygons::compute_wall_polygon_for_room_type_9;
use texture_synthesis_adapter::polygons::compute_wall_polygons;
use texture_synthesis_adapter::polygons::compute_wall_polygons_for_room_type_0;
use texture_synthesis_adapter::polygons::compute_wall_polygons_for_room_type_1;
use texture_synthesis_adapter::polygons::compute_wall_polygons_for_room_type_10;
use texture_synthesis_adapter::polygons::compute_wall_polygons_for_room_type_2;
use texture_synthesis_adapter::polygons::compute_wall_polygons_for_room_type_3;
use texture_synthesis_adapter::polygons::compute_wall_polygons_for_room_type_4;
use texture_synthesis_adapter::polygons::compute_wall_polygons_for_room_type_5;
use texture_synthesis_adapter::polygons::compute_wall_polygons_for_room_type_7;
use texture_synthesis_adapter::polygons::is_simple_quadrilateral;
use texture_synthesis_adapter::polygons::scale_wall_polygon;
use texture_synthesis_adapter::polygons::WallPolygon;
use texture_synthesis_adapter::geometry::convert_lines_coords_image_geo;
use texture_synthesis_adapter::Line;

fn room_lines(room_type: u8) -> Vec<Line> {
    match room_type {
        0 => vec![
            ((116, 100), (72, 0)),
            ((116, 396), (64, 511)),
            ((344, 370), (511, 479)),
            ((342, 133), (496, 0)),
            ((116, 100), (116, 396)),
            ((116, 396), (344, 370)),
            ((344, 370), (342, 133)),
            ((342, 133), (116, 100)),
        ],
        1 => vec![
            ((153, 365), (154, 0)),
            ((153, 365), (24, 511)),
            ((153, 365), (441, 375)),
            ((441, 375), (446, 1)),
            ((441, 375), (510, 439)),
        ],
        2 => vec![
            ((101, 35), (86, 1)),
            ((101, 35), (93, 510)),
            ((101, 35), (336, 42)),
            ((336, 42), (365, 1)),
            ((336, 42), (336, 510)),
        ],
        3 => vec![((31, 110), (0, 97)), ((31, 110), (20, 511)), ((31, 110), (511, 0))],
        4 => vec![((482, 471), (1, 422)), ((482, 471), (504, 1)), ((482, 471), (491, 512))],
        5 => vec![
            ((294, 167), (13, 0)),
            ((294, 167), (511, 85)),
            ((294, 167), (306, 343)),
            ((306, 343), (0, 491)),
            ((306, 343), (511, 410)),
        ],
        6 => vec![((142, 0), (511, 75)), ((2, 511), (511, 346))],
        7 => vec![((51, 510), (0, 0)), ((417, 510), (419, 1))],
        8 => vec![((0, 127), (511, 95))],
        9 => vec![((0, 311), (511, 305))],
        10 => vec![((292, 0), (312, 511))],
        _ => panic!("no fixture for room type {room_type}"),
    }
}

#[test]
fn compute_and_draw_polygons_for_room_type_0() {
    let image_height = 512;
    let lines = room_lines(0);
    let [left_wall_polygon, center_wall_polygon, right_wall_polygon] =
        compute_wall_polygons_for_room_type_0(&lines, image_height).unwrap();
    let mut lines = left_wall_polygon.lines().to_vec();
    lines.extend(center_wall_polygon.lines());
    lines.extend(right_wall_polygon.lines());
    assert_eq!(lines.len(), 12);
}

#[test]
fn compute_and_draw_polygons_for_room_type_1() {
    let image_height = 512;
    let lines = room_lines(1);
    let [left_wall_polygon, center_wall_polygon, right_wall_polygon] =
        compute_wall_polygons_for_room_type_1(&lines, image_height).unwrap();
    let mut lines = left_wall_polygon.lines().to_vec();
    lines.extend(center_wall_polygon.lines());
    lines.extend(right_wall_polygon.lines());
    assert_eq!(lines.len(), 12);
}

#[test]
fn compute_and_draw_polygons_for_room_type_2() {
    let image_height = 512;
    let lines = room_lines(2);
    let [left_wall_polygon, center_wall_polygon, right_wall_polygon] =
        compute_wall_polygons_for_room_type_2(&lines, image_height).unwrap();
    let mut lines = left_wall_polygon.lines().to_vec();
    lines.extend(center_wall_polygon.lines());
    lines.extend(right_wall_polygon.lines());
    assert_eq!(lines.len(), 12);
}

#[test]
fn compute_and_draw_polygons_for_room_type_3() {
    let image_height = 512;
    let lines = room_lines(3);
    let [left_wall_polygon, right_wall_polygon] =
        compute_wall_polygons_for_room_type_3(&lines, image_height).unwrap();
    let mut lines = left_wall_polygon.lines().to_vec();
    lines.extend(right_wall_polygon.lines());
    assert_eq!(lines.len(), 8);
}

#[test]
fn compute_and_draw_polygons_for_room_type_4() {
    let image_height = 512;
    let lines = room_lines(4);
    let [left_wall_polygon, right_wall_polygon] =
        compute_wall_polygons_for_room_type_4(&lines, image_height).unwrap();
    let mut lines = left_wall_polygon.lines().to_vec();
    lines.extend(right_wall_polygon.lines());
    assert_eq!(lines.len(), 8);
}

#[test]
fn compute_and_draw_polygons_for_room_type_5() {
    let image_height = 512;
    let lines = room_lines(5);
    let [left_wall_polygon, right_wall_polygon] =
        compute_wall_polygons_for_room_type_5(&lines, image_height).unwrap();
    let mut lines = left_wall_polygon.lines().to_vec();
    lines.extend(right_wall_polygon.lines());
    assert_eq!(lines.len(), 8);
}

#[test]
fn compute_and_draw_polygons_for_room_type_6() {
    let image_height = 512;
    let image_width = 512;
    let lines = room_lines(6);
    let [wall_polygon] =
        compute_wall_polygon_for_room_type_6(&lines, image_width, image_height).unwrap();
    let lines = wall_polygon.lines().to_vec();
    assert_eq!(lines.len(), 4);
}

#[test]
fn compute_and_draw_polygons_for_room_type_7() {
    let image_height = 512;
    let lines = room_lines(7);
    let [left_wall_polygon, center_wall_polygon, right_wall_polygon] =
        compute_wall_polygons_for_room_type_7(&lines, image_height).unwrap();
    let mut lines = left_wall_polygon.lines().to_vec();
    lines.extend(center_wall_polygon.lines());
    lines.extend(right_wall_polygon.lines());
    assert_eq!(lines.len(), 12);
}

#[test]
fn compute_and_draw_polygons_for_room_type_8() {
    let image_height = 512;
    let lines = room_lines(8);
    let [wall_polygon] = compute_wall_polygon_for_room_type_8(&lines, image_height).unwrap();
    let lines = wall_polygon.lines().to_vec();
    assert_eq!(lines.len(), 4);
}

#[test]
fn compute_and_draw_polygons_for_room_type_9() {
    let image_height = 512;
    let lines = room_lines(9);
    let [wall_polygon] = compute_wall_polygon_for_room_type_9(&lines, image_height).unwrap();
    let lines = wall_polygon.lines().to_vec();
    assert_eq!(lines.len(), 4);
}

#[test]
fn compute_and_draw_polygons_for_room_type_10() {
    let image_height = 512;
    let lines = room_lines(10);
    let [left_wall_polygon, right_wall_polygons] =
        compute_wall_polygons_for_room_type_10(&lines, image_height).unwrap();
    let mut lines = left_wall_polygon.lines().to_vec();
    lines.extend(right_wall_polygons.lines());
    assert_eq!(lines.len(), 8);
}

#[test]
fn converts_line_coordinates_between_image_and_geo_spaces() {
    let lines_image = vec![
        ((294, 167), (13, 0)),
        ((294, 167), (511, 85)),
        ((294, 167), (306, 343)),
        ((306, 343), (0, 491)),
        ((306, 343), (511, 410)),
    ];
    let image_height = 512;

    let lines_geo = convert_lines_coords_image_geo(&lines_image, image_height);
    let expected_lines_geo = vec![
        ((294, 344), (13, 511)),
        ((294, 344), (511, 426)),
        ((294, 344), (306, 168)),
        ((306, 168), (0, 20)),
        ((306, 168), (511, 101)),
    ];
    assert_eq!(lines_geo, expected_lines_geo);

    let lines_image_from_geo = convert_lines_coords_image_geo(&lines_geo, image_height);
    assert_eq!(lines_image_from_geo, lines_image);
}

#[test]
fn conversion_round_trips_at_other_heights() {
    let lines = vec![((0, 0), (1023, 1023)), ((5, 17), (400, 3))];
    for height in [1, 2, 100, 512, 1024] {
        let there = convert_lines_coords_image_geo(&lines, height);
        let back = convert_lines_coords_image_geo(&there, height);
        assert_eq!(back, lines);
    }
}

#[test]
fn reconstruction_returns_documented_polygon_counts() {
    let expected_counts = [3usize, 3, 3, 2, 2, 2, 1, 3, 1, 1, 2];
    for room_type in 0u8..=10 {
        let lines = room_lines(room_type);
        let polygons = compute_wall_polygons(&lines, 512, 512, room_type).unwrap();
        assert_eq!(polygons.len(), expected_counts[room_type as usize]);
        for polygon in &polygons {
            assert!(is_simple_quadrilateral(polygon));
        }
    }
}

#[test]
fn unknown_room_type_is_rejected() {
    let lines = room_lines(5);
    let err = compute_wall_polygons(&lines, 512, 512, 11).unwrap_err();
    assert_eq!(err, LayoutError::InvalidRoomType);
    let err = compute_wall_polygons(&lines, 512, 512, 255).unwrap_err();
    assert_eq!(err, LayoutError::InvalidRoomType);
}

#[test]
fn mismatched_line_count_is_rejected() {
    for room_type in 0u8..=10 {
        let mut lines = room_lines(room_type);
        lines.push(((1, 1), (2, 2)));
        let err = compute_wall_polygons(&lines, 512, 512, room_type).unwrap_err();
        assert_eq!(err, LayoutError::MalformedLineSet);
        let err = compute_wall_polygons(&Vec::new(), 512, 512, room_type).unwrap_err();
        assert_eq!(err, LayoutError::MalformedLineSet);
    }
}

#[test]
fn horizontal_lone_edge_is_degenerate() {
    // A perfectly horizontal ceiling edge has a vertical perpendicular, so
    // the perpendicular borders of the lone-edge shape cannot be finite.
    let lines = vec![((0, 100), (511, 100))];
    let err = compute_wall_polygons(&lines, 512, 512, 8).unwrap_err();
    assert_eq!(err, LayoutError::DegenerateGeometry);
}

#[test]
fn type_5_walls_share_the_centre_divider() {
    let lines = room_lines(5);
    let [left, right] = compute_wall_polygons_for_room_type_5(&lines, 512).unwrap();
    assert_eq!(left.top_right, right.top_left);
    assert_eq!(left.bottom_right, right.bottom_left);
    assert_ne!(left.top_left, right.top_right);
    assert!(is_simple_quadrilateral(&left));
    assert!(is_simple_quadrilateral(&right));
}

#[test]
fn polygon_scaling_is_exact_and_pure() {
    let polygon = WallPolygon {
        top_left: (-5, -13),
        top_right: (300, 165),
        bottom_right: (302, 344),
        bottom_left: (0, 500),
    };
    let scaled = scale_wall_polygon(&polygon, 1024, 2048, 512, 512);
    assert_eq!(scaled.top_left, (-10, -52));
    assert_eq!(scaled.top_right, (600, 660));
    assert_eq!(scaled.bottom_right, (604, 1376));
    assert_eq!(scaled.bottom_left, (0, 2000));
    // the original polygon is untouched
    assert_eq!(polygon.top_left, (-5, -13));
}

#[test]
fn wall_polygon_lines_are_the_cyclic_edges() {
    let polygon = WallPolygon {
        top_left: (1, 2),
        top_right: (3, 4),
        bottom_right: (5, 6),
        bottom_left: (7, 8),
    };
    assert_eq!(
        polygon.lines(),
        [((1, 2), (3, 4)), ((3, 4), (5, 6)), ((5, 6), (7, 8)), ((7, 8), (1, 2))]
    );
}

#[test]
fn type_6_corners_lie_on_the_vertical_borders() {
    // the single full wall is cut by true vertical borders at x = 0 and
    // x = image_width, so every corner sits exactly on those lines
    let lines = room_lines(6);
    let [polygon] = compute_wall_polygon_for_room_type_6(&lines, 512, 512).unwrap();
    assert_eq!(polygon.top_left, (0, -28));
    assert_eq!(polygon.top_right, (512, 76));
    assert_eq!(polygon.bottom_right, (512, 346));
    assert_eq!(polygon.bottom_left, (0, 511));
    assert_eq!(polygon.top_left.0, 0);
    assert_eq!(polygon.bottom_left.0, 0);
    assert_eq!(polygon.top_right.0, 512);
    assert_eq!(polygon.bottom_right.0, 512);
}
