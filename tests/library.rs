use tachibana::color::Color;
use tachibana::delimited_int;
use tachibana::path::{next_step, Bounce, Step};
use tachibana::raster::{rgb_bytes, scan_order};
use tachibana::scene::{grid_range, material_for_roll, MaterialKind};

#[test]
fn delimited_int_short_numbers_are_unchanged() {
    assert_eq!(delimited_int(',', 0), "0");
    assert_eq!(delimited_int(',', 7), "7");
    assert_eq!(delimited_int(',', 42), "42");
    assert_eq!(delimited_int(',', 999), "999");
}

#[test]
fn delimited_int_groups_by_three_from_the_right() {
    assert_eq!(delimited_int(',', 1000), "1,000");
    assert_eq!(delimited_int(',', 12345), "12,345");
    assert_eq!(delimited_int(',', 100000), "100,000");
    assert_eq!(delimited_int(',', 1234567), "1,234,567");
}

#[test]
fn delimited_int_other_delimiter() {
    assert_eq!(delimited_int('.', 2048 * 1024), "2.097.152");
    assert_eq!(delimited_int('_', 1000000), "1_000_000");
}

#[test]
fn delimited_int_largest_value() {
    assert_eq!(delimited_int(',', u64::MAX), "18,446,744,073,709,551,615");
}

#[test]
fn color_as_array_is_red_green_blue() {
    assert_eq!(Color::new(1, 2, 3).as_array(), [1, 2, 3]);
    assert_eq!(Color::new(255, 0, 128).as_array(), [255, 0, 128]);
}

#[test]
fn rgb_bytes_packs_three_bytes_a_pixel() {
    let pixels = vec![Color::new(10, 20, 30), Color::new(255, 0, 7)];
    assert_eq!(rgb_bytes(&pixels), vec![10, 20, 30, 255, 0, 7]);
}

#[test]
fn rgb_bytes_of_no_pixels_is_empty() {
    assert!(rgb_bytes(&Vec::new()).is_empty());
}

#[test]
fn scan_order_flips_rows() {
    let order = scan_order(3, 2);
    assert_eq!(order, vec![(0, 1), (1, 1), (2, 1), (0, 0), (1, 0), (2, 0)]);
}

#[test]
fn scan_order_single_column() {
    assert_eq!(scan_order(1, 3), vec![(0, 2), (0, 1), (0, 0)]);
}

#[test]
fn scan_order_empty_image() {
    assert!(scan_order(0, 5).is_empty());
    assert!(scan_order(5, 0).is_empty());
}

#[test]
fn scan_order_covers_every_pixel_once() {
    let (w, h) = (17u32, 9u32);
    let order = scan_order(w, h);
    assert_eq!(order.len(), (w * h) as usize);
    for (i, &(x, y)) in order.iter().enumerate() {
        assert_eq!(x, i as u32 % w);
        assert_eq!(y, h - 1 - i as u32 / w);
    }
}

#[test]
fn next_step_miss_is_sky() {
    assert_eq!(next_step(0, 50, Bounce::Miss), Step::Sky);
    assert_eq!(next_step(50, 50, Bounce::Miss), Step::Sky);
}

#[test]
fn next_step_absorbed_is_black() {
    assert_eq!(next_step(0, 50, Bounce::Absorbed), Step::Black);
}

#[test]
fn next_step_scattered_goes_one_deeper() {
    assert_eq!(next_step(0, 50, Bounce::Scattered), Step::Continue(1));
    assert_eq!(next_step(49, 50, Bounce::Scattered), Step::Continue(50));
}

#[test]
fn next_step_scattered_at_limit_is_black() {
    assert_eq!(next_step(50, 50, Bounce::Scattered), Step::Black);
    assert_eq!(next_step(0, 0, Bounce::Scattered), Step::Black);
    assert_eq!(next_step(u32::MAX, u32::MAX, Bounce::Scattered), Step::Black);
}

#[test]
fn next_step_path_ends_after_limit() {
    let max_depth = 5;
    let mut depth = 0;
    let mut queries = 1;
    while let Step::Continue(d) = next_step(depth, max_depth, Bounce::Scattered) {
        depth = d;
        queries += 1;
    }
    assert_eq!(queries, max_depth + 1);
}

#[test]
fn material_for_roll_boundaries() {
    assert_eq!(material_for_roll(0), MaterialKind::Lambertian);
    assert_eq!(material_for_roll(79), MaterialKind::Lambertian);
    assert_eq!(material_for_roll(80), MaterialKind::Metal);
    assert_eq!(material_for_roll(94), MaterialKind::Metal);
    assert_eq!(material_for_roll(95), MaterialKind::Dielectric);
    assert_eq!(material_for_roll(100), MaterialKind::Dielectric);
}

#[test]
fn grid_range_default_scene() {
    assert_eq!(grid_range(500), (-11, 11));
}

#[test]
fn grid_range_squares_and_neighbours() {
    assert_eq!(grid_range(0), (0, 0));
    assert_eq!(grid_range(1), (0, 1));
    assert_eq!(grid_range(24), (-2, 2));
    assert_eq!(grid_range(25), (-2, 3));
    assert_eq!(grid_range(26), (-2, 3));
}

#[test]
fn grid_range_largest_count() {
    assert_eq!(grid_range(u32::MAX), (-32767, 32768));
}
