use texture_synthesis_adapter::img::ImageGray;
use texture_synthesis_adapter::img::ImageRgb;
use texture_synthesis_adapter::img::assemble_tiles_image;
use texture_synthesis_adapter::img::compute_atlas_dimensions;
use texture_synthesis_adapter::img::compute_upscaled_dimensions;
use texture_synthesis_adapter::img::threshold_mask;
use texture_synthesis_adapter::layout::LayoutLine;
use texture_synthesis_adapter::layout::LayoutPoint;
use texture_synthesis_adapter::layout::LayoutWallPolygon;
use texture_synthesis_adapter::layout::RoomLayoutData;
use texture_synthesis_adapter::polygons::WallPolygon;
use texture_synthesis_adapter::polygons::scale_wall_polygon;
use texture_synthesis_adapter::shading::composite_wall;
use texture_synthesis_adapter::shading::compute_wall_brightness_baseline;
use texture_synthesis_adapter::shading::pixel_brightness;
use texture_synthesis_adapter::shading::point_in_polygon;
use texture_synthesis_adapter::shading::shade_pixel;
use texture_synthesis_adapter::shading::validate_preview_inputs;
use texture_synthesis_adapter::shares::PreviewConfig;
use texture_synthesis_adapter::shares::PreviewError;
use texture_synthesis_adapter::shares::compute_polygon_width_shares;
use texture_synthesis_adapter::shares::compute_wallpaper_strips;
use texture_synthesis_adapter::shares::horizontal_tile_count;
use texture_synthesis_adapter::shares::integer_sqrt;
use texture_synthesis_adapter::shares::polygon_top_widths;
use texture_synthesis_adapter::shares::pythagorean_distance;
use texture_synthesis_adapter::shares::vertical_tile_count;

fn blank_point() -> LayoutPoint {
    LayoutPoint { x: 0, y: 0 }
}

fn blank_line() -> LayoutLine {
    LayoutLine { start: blank_point(), end: blank_point() }
}

fn blank_polygon() -> LayoutWallPolygon {
    LayoutWallPolygon {
        top_left: blank_point(),
        top_right: blank_point(),
        bottom_right: blank_point(),
        bottom_left: blank_point(),
    }
}

fn gradient_photo(width: u32, height: u32) -> ImageRgb {
    let mut photo = ImageRgb::new(width, height);
    for y in 0..height {
        for x in 0..width {
            let v = ((x + 2 * y) % 256) as u8;
            photo.set_pixel(x, y, (v, v / 2, 255 - v));
        }
    }
    photo
}

fn striped_tile(width: u32, height: u32) -> ImageRgb {
    let mut tile = ImageRgb::new(width, height);
    for y in 0..height {
        for x in 0..width {
            tile.set_pixel(x, y, ((x % 256) as u8, (y % 256) as u8, ((x + y) % 256) as u8));
        }
    }
    tile
}

#[test]
fn preview_generation_works() {
    let room_layout_data = RoomLayoutData {
        lines: [
            LayoutLine {
                start: LayoutPoint { x: 300, y: 165 },
                end: LayoutPoint { x: 18, y: 0 },
            },
            LayoutLine {
                start: LayoutPoint { x: 300, y: 165 },
                end: LayoutPoint { x: 511, y: 85 },
            },
            LayoutLine {
                start: LayoutPoint { x: 300, y: 165 },
                end: LayoutPoint { x: 302, y: 344 },
            },
            LayoutLine {
                start: LayoutPoint { x: 302, y: 344 },
                end: LayoutPoint { x: 0, y: 499 },
            },
            LayoutLine {
                start: LayoutPoint { x: 302, y: 344 },
                end: LayoutPoint { x: 511, y: 385 },
            },
            blank_line(),
            blank_line(),
            blank_line(),
        ],
        num_lines: 5,
        room_type: 5,
        wall_polygons: [
            LayoutWallPolygon {
                top_left: LayoutPoint { x: -5, y: -13 },
                top_right: LayoutPoint { x: 300, y: 165 },
                bottom_right: LayoutPoint { x: 302, y: 344 },
                bottom_left: LayoutPoint { x: 0, y: 500 },
            },
            LayoutWallPolygon {
                top_left: LayoutPoint { x: 300, y: 165 },
                top_right: LayoutPoint { x: 511, y: 85 },
                bottom_right: LayoutPoint { x: 515, y: 386 },
                bottom_left: LayoutPoint { x: 302, y: 344 },
            },
            blank_polygon(),
        ],
        num_wall_polygons: 2,
    };

    let config = PreviewConfig::default();
    let polygons = room_layout_data.active_wall_polygons();
    assert_eq!(polygons.len(), 2);

    let widths = polygon_top_widths(&polygons);
    let shares = compute_polygon_width_shares(&widths, &config).unwrap();
    assert_eq!(shares.nums.len(), 2);
    let total: u64 = shares.nums.iter().sum();
    assert_eq!(total, shares.den);

    // a small synthetic room photo instead of the sample frame on disk
    let room_w = 256u32;
    let room_h = 192u32;
    let room_image = gradient_photo(room_w, room_h);

    // rescale polygons from the 512-pixel reference frame to the photo
    let scaled: Vec<WallPolygon> = polygons
        .iter()
        .map(|p| {
            scale_wall_polygon(p, room_w, room_h, config.reference_resolution, config.reference_resolution)
        })
        .collect();

    // binary wall mask: everything below the horizon line is wall
    let mut raw_mask = ImageGray::new(room_w, room_h);
    for y in 0..room_h {
        for x in 0..room_w {
            raw_mask.set_pixel(x, y, if y > 20 { 200 } else { 10 });
        }
    }
    let mask = threshold_mask(&raw_mask, config.mask_threshold);

    let tile = striped_tile(32, 32);
    validate_preview_inputs(&room_image, &mask, &tile).unwrap();

    let hcount = horizontal_tile_count(&config, scaled.len());
    let vcount = vertical_tile_count(&config);
    let (atlas_w, atlas_h) =
        compute_atlas_dimensions(tile.width, tile.height, hcount.0, hcount.1, vcount.0, vcount.1);
    let atlas = assemble_tiles_image(&tile, atlas_w as u32, atlas_h as u32);
    assert_eq!(atlas.width, atlas_w as u32);
    assert_eq!(atlas.height, atlas_h as u32);

    let strips = compute_wallpaper_strips(atlas.width, &shares);
    assert_eq!(strips.len(), 2);
    assert_eq!(strips[0].0, 0);
    assert_eq!(strips[0].1, strips[1].0);
    assert_eq!(strips[1].1, atlas.width);

    // Stand-in for the projective warp: each wall's warped layer is the
    // atlas strip sampled directly (the warp itself lives outside the
    // library).
    let mut preview = gradient_photo(room_w, room_h);
    for polygon in &scaled {
        let mut warped = ImageRgb::new(room_w, room_h);
        for y in 0..room_h {
            for x in 0..room_w {
                warped.set_pixel(x, y, atlas.get_pixel(x % atlas.width, y % atlas.height));
            }
        }
        composite_wall(&mut preview, &room_image, &mask, &warped, polygon);
    }

    assert_eq!(preview.width, room_w);
    assert_eq!(preview.height, room_h);
    // every pixel outside the wall mask is untouched
    for y in 0..room_h {
        for x in 0..room_w {
            if mask.get_pixel(x, y) != 255 {
                assert_eq!(preview.get_pixel(x, y), room_image.get_pixel(x, y));
            }
        }
    }
}

#[test]
fn transferring_shadows() {
    // brightness extraction over a synthetic frame instead of a photo on
    // disk: the value channel of each pixel is its largest RGB channel
    let room_image = gradient_photo(64, 48);
    let mut hsv_values_image = ImageGray::new(64, 48);
    for y in 0..48 {
        for x in 0..64 {
            let value = pixel_brightness(room_image.get_pixel(x, y));
            hsv_values_image.set_pixel(x, y, value);
        }
    }
    for y in 0..48 {
        for x in 0..64 {
            let (r, g, b) = room_image.get_pixel(x, y);
            assert_eq!(hsv_values_image.get_pixel(x, y), r.max(g).max(b));
        }
    }
}

#[test]
fn width_shares_sum_to_one_for_each_polygon_count() {
    let config = PreviewConfig::default();

    let one = compute_polygon_width_shares(&vec![37], &config).unwrap();
    assert_eq!(one.nums, vec![1]);
    assert_eq!(one.den, 1);

    let two = compute_polygon_width_shares(&vec![300, 100], &config).unwrap();
    assert_eq!(two.nums, vec![300, 100]);
    assert_eq!(two.den, 400);
    assert_eq!(two.nums.iter().sum::<u64>(), two.den);

    let three = compute_polygon_width_shares(&vec![200, 777, 100], &config).unwrap();
    // sides split (visible_walls - 1) = 1/5 of the walls, scaled by 1/1.2
    assert_eq!(three.nums, vec![200, 1500, 100]);
    assert_eq!(three.den, 1800);
    assert_eq!(three.nums.iter().sum::<u64>(), three.den);

    let err = compute_polygon_width_shares(&Vec::new(), &config).unwrap_err();
    assert_eq!(err, PreviewError::InvalidPolygonCount);
    let err = compute_polygon_width_shares(&vec![1, 2, 3, 4], &config).unwrap_err();
    assert_eq!(err, PreviewError::InvalidPolygonCount);
}

#[test]
fn width_shares_handle_zero_top_edges() {
    let config = PreviewConfig::default();
    let two = compute_polygon_width_shares(&vec![0, 0], &config).unwrap();
    assert_eq!(two.nums, vec![1, 1]);
    assert_eq!(two.den, 2);
    let three = compute_polygon_width_shares(&vec![0, 50, 0], &config).unwrap();
    assert_eq!(three.nums.iter().sum::<u64>(), three.den);
}

#[test]
fn atlas_pixels_repeat_the_tile_exactly() {
    let tile = striped_tile(3, 2);
    // tile counts 5/2 horizontally and 3/2 vertically
    let (w, h) = compute_atlas_dimensions(3, 2, 5, 2, 3, 2);
    assert_eq!((w, h), (8, 3));
    let atlas = assemble_tiles_image(&tile, w as u32, h as u32);
    assert_eq!((atlas.width, atlas.height), (8, 3));
    for y in 0..atlas.height {
        for x in 0..atlas.width {
            assert_eq!(atlas.get_pixel(x, y), tile.get_pixel(x % 3, y % 2));
        }
    }
}

#[test]
fn shading_with_zero_delta_returns_the_pixel() {
    for p in [(0u8, 0u8, 0u8), (10, 20, 30), (255, 0, 128), (7, 7, 7), (255, 255, 255)] {
        assert_eq!(shade_pixel(p, 0), p);
    }
    // brightening scales channels proportionally toward the new value
    assert_eq!(shade_pixel((100, 50, 200), 55), (127, 63, 255));
    // darkening to zero gives black
    assert_eq!(shade_pixel((100, 50, 200), -255), (0, 0, 0));
}

#[test]
fn shading_transfer_is_noop_at_baseline_brightness() {
    // a constant-brightness photo makes every pixel's delta exactly zero,
    // so the composited wall pixels equal the warped pixels bit for bit
    let w = 24u32;
    let h = 20u32;
    let mut photo = ImageRgb::new(w, h);
    for y in 0..h {
        for x in 0..w {
            photo.set_pixel(x, y, (((x * 7) % 200) as u8, ((y * 3) % 200) as u8, 200));
        }
    }
    let mut raw_mask = ImageGray::new(w, h);
    for y in 0..h {
        for x in 0..w {
            raw_mask.set_pixel(x, y, 255);
        }
    }
    let polygon = WallPolygon {
        top_left: (-1, -1),
        top_right: (100, -1),
        bottom_right: (100, 100),
        bottom_left: (-1, 100),
    };
    let baseline = compute_wall_brightness_baseline(&photo, &raw_mask, &polygon).unwrap();
    assert_eq!(baseline, 200);

    let warped = striped_tile(w, h);
    let mut output = ImageRgb::new(w, h);
    composite_wall(&mut output, &photo, &raw_mask, &warped, &polygon);
    for y in 0..h {
        for x in 0..w {
            assert_eq!(output.get_pixel(x, y), warped.get_pixel(x, y));
        }
    }
}

#[test]
fn baseline_is_none_for_empty_wall_mask() {
    let photo = gradient_photo(8, 8);
    let mask = ImageGray::new(8, 8);
    let polygon = WallPolygon {
        top_left: (0, 0),
        top_right: (7, 0),
        bottom_right: (7, 7),
        bottom_left: (0, 7),
    };
    assert!(compute_wall_brightness_baseline(&photo, &mask, &polygon).is_none());
}

#[test]
fn point_in_polygon_matches_the_square() {
    let polygon = WallPolygon {
        top_left: (0, 0),
        top_right: (10, 0),
        bottom_right: (10, 10),
        bottom_left: (0, 10),
    };
    assert!(point_in_polygon(&polygon, 5, 5));
    assert!(point_in_polygon(&polygon, 1, 9));
    assert!(!point_in_polygon(&polygon, 11, 5));
    assert!(!point_in_polygon(&polygon, -1, 5));
    assert!(!point_in_polygon(&polygon, 5, 12));
}

#[test]
fn mask_threshold_is_strictly_binary() {
    let mut raw = ImageGray::new(4, 1);
    raw.set_pixel(0, 0, 0);
    raw.set_pixel(1, 0, 50);
    raw.set_pixel(2, 0, 51);
    raw.set_pixel(3, 0, 255);
    let mask = threshold_mask(&raw, 50);
    assert_eq!(mask.get_pixel(0, 0), 0);
    assert_eq!(mask.get_pixel(1, 0), 0);
    assert_eq!(mask.get_pixel(2, 0), 255);
    assert_eq!(mask.get_pixel(3, 0), 255);
}

#[test]
fn upscaling_triggers_only_below_the_floor() {
    assert_eq!(compute_upscaled_dimensions(100, 200, 150), Some((150, 300)));
    assert_eq!(compute_upscaled_dimensions(200, 100, 150), Some((300, 150)));
    assert_eq!(compute_upscaled_dimensions(150, 300, 150), None);
    assert_eq!(compute_upscaled_dimensions(2056, 4000, 2056), None);
}

#[test]
fn strips_cover_the_atlas_consecutively() {
    let config = PreviewConfig::default();
    let shares = compute_polygon_width_shares(&vec![300, 100], &config).unwrap();
    let strips = compute_wallpaper_strips(100, &shares);
    assert_eq!(strips, vec![(0, 75), (75, 100)]);

    let shares3 = compute_polygon_width_shares(&vec![100, 0, 100], &config).unwrap();
    let strips3 = compute_wallpaper_strips(120, &shares3);
    assert_eq!(strips3.len(), 3);
    assert_eq!(strips3[0].0, 0);
    assert_eq!(strips3[0].1, strips3[1].0);
    assert_eq!(strips3[1].1, strips3[2].0);
    assert_eq!(strips3[2].1, 120);
}

#[test]
fn integer_sqrt_and_distance_are_exact() {
    assert_eq!(integer_sqrt(0), 0);
    assert_eq!(integer_sqrt(1), 1);
    assert_eq!(integer_sqrt(2), 1);
    assert_eq!(integer_sqrt(4), 2);
    assert_eq!(integer_sqrt(99), 9);
    assert_eq!(integer_sqrt(100), 10);
    assert_eq!(pythagorean_distance((0, 0), (3, 4)), 5);
    assert_eq!(pythagorean_distance((10, 10), (10, 10)), 0);
    assert_eq!(pythagorean_distance((-3, 0), (0, -4)), 5);
    assert_eq!(pythagorean_distance((0, 0), (1, 1)), 1);
}

#[test]
fn tile_counts_follow_the_configuration() {
    let config = PreviewConfig::default();
    assert_eq!(horizontal_tile_count(&config, 1), (360, 53));
    assert_eq!(horizontal_tile_count(&config, 2), (2160, 265));
    assert_eq!(vertical_tile_count(&config), (240, 53));
}

#[test]
fn end_to_end_preview_for_room_type_5() {
    // reconstruct the two walls of a corner room from its five lines ...
    let lines: Vec<texture_synthesis_adapter::Line> = vec![
        ((294, 167), (13, 0)),
        ((294, 167), (511, 85)),
        ((294, 167), (306, 343)),
        ((306, 343), (0, 491)),
        ((306, 343), (511, 410)),
    ];
    let polygons = texture_synthesis_adapter::polygons::compute_wall_polygons(&lines, 512, 512, 5)
        .unwrap();
    assert_eq!(polygons.len(), 2);
    // ... which share exactly the centre divider as their common edge
    assert_eq!(polygons[0].top_right, polygons[1].top_left);
    assert_eq!(polygons[0].bottom_right, polygons[1].bottom_left);
    assert_ne!(polygons[0].top_left, polygons[1].top_left);
    assert_eq!(polygons[0].top_right, (294, 167));
    assert_eq!(polygons[0].bottom_right, (306, 343));

    // composite over a fixed-size photo, mask and tile
    let w = 128u32;
    let h = 96u32;
    let photo = gradient_photo(w, h);
    let mut mask = ImageGray::new(w, h);
    for y in 0..h {
        for x in 0..w {
            mask.set_pixel(x, y, if (x / 8 + y / 8) % 2 == 0 { 255 } else { 0 });
        }
    }
    let config = PreviewConfig::default();
    let scaled: Vec<WallPolygon> = polygons
        .iter()
        .map(|p| scale_wall_polygon(p, w, h, config.reference_resolution, config.reference_resolution))
        .collect();

    let tile = striped_tile(16, 16);
    let mut warped_layers: Vec<ImageRgb> = Vec::new();
    for _ in &scaled {
        let mut warped = ImageRgb::new(w, h);
        for y in 0..h {
            for x in 0..w {
                warped.set_pixel(x, y, tile.get_pixel(x % 16, y % 16));
            }
        }
        warped_layers.push(warped);
    }
    let preview = texture_synthesis_adapter::shading::composite_preview(
        &photo,
        &mask,
        &warped_layers,
        &scaled,
    );

    // output of identical dimensions, bit-identical to the photo at every
    // pixel outside the wall mask
    assert_eq!((preview.width, preview.height), (w, h));
    for y in 0..h {
        for x in 0..w {
            if mask.get_pixel(x, y) != 255 {
                assert_eq!(preview.get_pixel(x, y), photo.get_pixel(x, y));
            }
        }
    }
}

#[test]
fn shape_mismatch_is_rejected_before_compositing() {
    let photo = gradient_photo(16, 16);
    let tile = striped_tile(4, 4);
    let bad_mask = ImageGray::new(8, 16);
    let err = validate_preview_inputs(&photo, &bad_mask, &tile).unwrap_err();
    assert_eq!(err, PreviewError::InputShapeMismatch);
    let good_mask = ImageGray::new(16, 16);
    assert!(validate_preview_inputs(&photo, &good_mask, &tile).is_ok());
}

#[test]
fn border_mask_blackens_exactly_the_frame() {
    let mask = texture_synthesis_adapter::img::border_mask(8, 2);
    assert_eq!((mask.width, mask.height), (8, 8));
    for y in 0..8 {
        for x in 0..8 {
            let expected = if x < 2 || y < 2 || x >= 6 || y >= 6 {
                (0, 0, 0)
            } else {
                (255, 255, 255)
            };
            assert_eq!(mask.get_pixel(x, y), expected);
        }
    }
}

#[test]
fn layout_types_convert_to_geometry_values() {
    let p = LayoutPoint { x: 7, y: -3 };
    assert_eq!(p.to_point(), (7, -3));
    let l = LayoutLine { start: LayoutPoint { x: 1, y: 2 }, end: LayoutPoint { x: 3, y: 4 } };
    assert_eq!(l.to_line(), ((1, 2), (3, 4)));
    let mut data = RoomLayoutData {
        lines: [blank_line(); 8],
        num_lines: 2,
        room_type: 5,
        wall_polygons: [blank_polygon(); 3],
        num_wall_polygons: 1,
    };
    data.lines[0] = l;
    data.lines[1] = LayoutLine { start: LayoutPoint { x: 5, y: 6 }, end: LayoutPoint { x: 7, y: 8 } };
    let active = data.active_lines();
    assert_eq!(active, vec![((1, 2), (3, 4)), ((5, 6), (7, 8))]);
    let polys = data.active_wall_polygons();
    assert_eq!(polys.len(), 1);
    assert_eq!(polys[0].top_left, (0, 0));
}
