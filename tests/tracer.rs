use image::GenericImageView;
use raytracer::{
    binary32_le, binary32_lt, binary64_le, binary64_lt, entry_distance, in_light,
    nearest_collision, outside_radius, render_pixels, Collision, Color, ShadowTest, ONE32, ZERO32,
};

fn d(x: f64) -> u64 {
    x.to_bits()
}

fn c(r: f32, g: f32, b: f32) -> Color {
    Color { red: r.to_bits(), green: g.to_bits(), blue: b.to_bits() }
}

#[test]
fn binary64_order_follows_ieee() {
    assert!(binary64_lt(d(1.0), d(2.0)));
    assert!(!binary64_lt(d(2.0), d(1.0)));
    assert!(binary64_lt(d(-3.0), d(-2.5)));
    assert!(binary64_lt(d(-1.0), d(0.5)));
    assert!(!binary64_lt(d(0.5), d(-1.0)));
    assert!(!binary64_lt(d(-0.0), d(0.0)));
    assert!(!binary64_lt(d(0.0), d(-0.0)));
    assert!(binary64_le(d(-0.0), d(0.0)));
    assert!(binary64_lt(d(1e300), d(f64::INFINITY)));
    assert!(binary64_lt(d(f64::NEG_INFINITY), d(-1e300)));
    assert!(!binary64_lt(d(f64::NAN), d(1.0)));
    assert!(!binary64_lt(d(1.0), d(f64::NAN)));
    assert!(!binary64_le(d(f64::NAN), d(f64::NAN)));
}

#[test]
fn binary64_order_agrees_with_native_comparison() {
    let values = [-7.5, -1.0, -1e-300, -0.0, 0.0, 1e-300, 0.25, 1.0, 3.0, 1e10, f64::INFINITY, f64::NEG_INFINITY, f64::NAN];
    for a in values {
        for b in values {
            assert_eq!(binary64_lt(d(a), d(b)), a < b, "{} < {}", a, b);
            assert_eq!(binary64_le(d(a), d(b)), a <= b, "{} <= {}", a, b);
        }
    }
}

#[test]
fn binary32_order_agrees_with_native_comparison() {
    let values = [-2.0f32, -0.5, -0.0, 0.0, 0.5, 1.0, 1.5, f32::INFINITY, f32::NAN];
    for a in values {
        for b in values {
            assert_eq!(binary32_lt(a.to_bits(), b.to_bits()), a < b, "{} < {}", a, b);
            assert_eq!(binary32_le(a.to_bits(), b.to_bits()), a <= b, "{} <= {}", a, b);
        }
    }
}

#[test]
fn clamp_clips_each_channel() {
    let mut col = c(1.5, -0.25, 0.5);
    col.clamp();
    assert_eq!(col, c(1.0, 0.0, 0.5));
    assert_eq!(col.red, ONE32);
    assert_eq!(col.green, ZERO32);
}

#[test]
fn clamp_is_idempotent() {
    let mut once = c(7.0, -3.0, 0.75);
    once.clamp();
    let mut twice = once;
    twice.clamp();
    assert_eq!(once, twice);
    for ch in [twice.red, twice.green, twice.blue] {
        let v = f32::from_bits(ch);
        assert!((0.0..=1.0).contains(&v));
    }
}

#[test]
fn clamp_keeps_colors_in_unit_range() {
    let given = c(0.0, 1.0, 0.3);
    let mut col = given;
    col.clamp();
    assert_eq!(col, given);
}

#[test]
fn clamp_leaves_nan_channels() {
    let mut col = c(f32::NAN, 2.0, -1.0);
    col.clamp();
    assert!(f32::from_bits(col.red).is_nan());
    assert_eq!(col.green, ONE32);
    assert_eq!(col.blue, ZERO32);
}

#[test]
fn ray_outside_radius_misses() {
    assert!(outside_radius(d(2.0), d(1.0)));
    assert!(!outside_radius(d(1.0), d(1.0)));
    assert!(!outside_radius(d(0.0), d(1.0)));
}

#[test]
fn entry_distance_picks_smaller_root() {
    // Sphere of radius 1 five units ahead: roots at 4 and 6.
    assert_eq!(entry_distance(d(4.0), d(6.0)), Some(d(4.0)));
    assert_eq!(entry_distance(d(6.0), d(4.0)), Some(d(4.0)));
    // Grazing ray: one double root.
    assert_eq!(entry_distance(d(5.0), d(5.0)), Some(d(5.0)));
}

#[test]
fn sphere_behind_origin_is_missed() {
    // Center at z = +5 with radius 1, ray down -z: roots at -6 and -4.
    assert_eq!(entry_distance(d(-6.0), d(-4.0)), None);
}

#[test]
fn origin_inside_sphere_reports_negative_root() {
    // Ray starting at the center of a unit sphere: roots -1 and 1.
    assert_eq!(entry_distance(d(-1.0), d(1.0)), Some(d(-1.0)));
}

#[test]
fn no_objects_no_collision() {
    assert_eq!(nearest_collision(&vec![]), None);
    assert_eq!(nearest_collision(&vec![None, None, None]), None);
}

#[test]
fn nearest_collision_picks_minimum() {
    let hits = vec![Some(d(6.0)), None, Some(d(2.5)), Some(d(3.0))];
    assert_eq!(nearest_collision(&hits), Some(Collision { index: 2, distance: d(2.5) }));
}

#[test]
fn nearest_collision_ties_go_to_first() {
    let hits = vec![None, Some(d(4.0)), Some(d(4.0)), Some(d(9.0))];
    assert_eq!(nearest_collision(&hits), Some(Collision { index: 1, distance: d(4.0) }));
    let zeros = vec![Some(d(0.0)), Some(d(-0.0))];
    assert_eq!(nearest_collision(&zeros), Some(Collision { index: 0, distance: d(0.0) }));
}

#[test]
fn nearest_collision_takes_negative_distance() {
    let hits = vec![Some(d(3.0)), Some(d(-1.0))];
    assert_eq!(nearest_collision(&hits), Some(Collision { index: 1, distance: d(-1.0) }));
}

#[test]
fn directional_light_blocked_by_any_hit() {
    assert!(in_light(ShadowTest::Directional, None));
    assert!(!in_light(ShadowTest::Directional, Some(d(1000.0))));
}

#[test]
fn point_light_occlusion_depends_on_distance() {
    let light = ShadowTest::Point { light_distance: d(5.0) };
    assert!(!in_light(light, Some(d(2.0))));
    assert!(in_light(light, Some(d(8.0))));
    assert!(in_light(light, Some(d(5.0))));
    assert!(in_light(light, None));
}

#[test]
fn render_writes_every_pixel() {
    let img = render_pixels(3, 2, |x: u32, y: u32| (x as u8 * 10, y as u8 * 20, 200));
    assert_eq!(img.dimensions(), (3, 2));
    for x in 0..3u32 {
        for y in 0..2u32 {
            let p = img.get_pixel(x, y).0;
            assert_eq!(&p[..3], &[x as u8 * 10, y as u8 * 20, 200]);
        }
    }
}

#[test]
fn nearest_collision_reports_lone_nan_hit() {
    let hits = vec![None, Some(d(f64::NAN))];
    let r = nearest_collision(&hits).unwrap();
    assert_eq!(r.index, 1);
    assert!(f64::from_bits(r.distance).is_nan());
}

#[test]
fn nearest_collision_with_nan_still_reports_a_hit() {
    let hits = vec![Some(d(2.0)), Some(d(f64::NAN)), None];
    let r = nearest_collision(&hits).unwrap();
    assert!(r.index < 2);
    assert_eq!(hits[r.index], Some(r.distance));
}

#[test]
fn display_range_check() {
    assert!(c(0.0, 0.5, 1.0).in_display_range());
    assert!(c(-0.0, 1.0, 0.0).in_display_range());
    assert!(!c(1.01, 0.5, 0.5).in_display_range());
    assert!(!c(0.5, -0.1, 0.5).in_display_range());
    assert!(!c(0.5, 0.5, f32::NAN).in_display_range());
    let mut col = c(3.0, -2.0, 0.5);
    assert!(!col.in_display_range());
    col.clamp();
    assert!(col.in_display_range());
}
