use elma_scene::compose::{build_scene, Pose};
use elma_scene::fixed::{Point, FIXED_ONE};
use elma_scene::scene::{ClipTag, ImageSize, Pic, Scene, TexBounds};
use elma_scene::viewport::{layer_tiling, Scroll, SurfaceSize, Viewport};

const ONE: i64 = FIXED_ONE;

fn at(x: i64, y: i64) -> Point {
    Point { x: x * ONE, y: y * ONE }
}

#[test]
fn viewport_of_scenario_two() {
    let vp = Viewport::from_center_and_scale(at(10, 5), 15 * ONE, SurfaceSize { width: 1024, height: 768 });
    assert_eq!(vp.size, at(40, 30));
    assert_eq!(vp.position, at(-10, -10));
    assert_eq!(vp.position.x + vp.size.x / 2, 10 * ONE);
    assert_eq!(vp.position.y + vp.size.y / 2, 5 * ONE);
}

#[test]
fn viewport_height_ignores_aspect() {
    for (w, h) in [(1024u32, 768u32), (768, 1024), (1920, 1080), (1, 1), (3000, 7)] {
        let vp = Viewport::from_center_and_scale(at(-3, 2), 15 * ONE, SurfaceSize { width: w, height: h });
        assert_eq!(vp.size.y, 30 * ONE);
        assert_eq!(vp.size.x, 2 * (15 * ONE * w as i64 / h as i64));
    }
    let square = Viewport::from_center_and_scale(at(0, 0), 15 * ONE, SurfaceSize { width: 500, height: 500 });
    let wide = Viewport::from_center_and_scale(at(0, 0), 15 * ONE, SurfaceSize { width: 1000, height: 500 });
    assert_eq!(wide.size.x, 2 * square.size.x);
}

#[test]
fn viewport_corners_in_order() {
    let vp = Viewport { position: at(1, 2), size: at(4, 3) };
    assert_eq!(vp.corner_points(), [at(1, 2), at(5, 2), at(5, 5), at(1, 5)]);
}

#[test]
fn ground_tiling_scrolls_one_to_one() {
    let vp = Viewport { position: at(2, -4), size: at(40, 30) };
    let t = layer_tiling(&vp, ImageSize { width: 95, height: 190 }, Scroll::ground());
    // 47.5 pixels per unit over a 95 pixel image: half a repeat per unit.
    assert_eq!(t[0], Point { x: ONE, y: -ONE });
    assert_eq!(t[1], Point { x: 21 * ONE, y: -ONE });
    assert_eq!(t[2], Point { x: 21 * ONE, y: -ONE + 15 * ONE / 2 });
    assert_eq!(t[3], Point { x: ONE, y: -ONE + 15 * ONE / 2 });
}

#[test]
fn sky_tiling_scrolls_at_half_rate_horizontally() {
    let vp = Viewport { position: at(2, -4), size: at(40, 30) };
    let t = layer_tiling(&vp, ImageSize { width: 95, height: 95 }, Scroll::sky());
    assert_eq!(t[0], Point { x: ONE / 2, y: 0 });
    assert_eq!(t[1], Point { x: ONE / 2 + 20 * ONE, y: 0 });
    assert_eq!(t[2], Point { x: ONE / 2 + 20 * ONE, y: 15 * ONE });
    assert_eq!(t[3], Point { x: ONE / 2, y: 15 * ONE });
}

#[test]
fn tiling_moves_little_for_a_small_move() {
    let surface = SurfaceSize { width: 1024, height: 768 };
    let image = ImageSize { width: 320, height: 200 };
    for scroll in [Scroll::sky(), Scroll::ground()] {
        let a = Viewport::from_center_and_scale(Point { x: 123456, y: -7890 }, 15 * ONE, surface);
        let b = Viewport::from_center_and_scale(Point { x: 123456 + 33, y: -7890 - 21 }, 15 * ONE, surface);
        let ta = layer_tiling(&a, image, scroll);
        let tb = layer_tiling(&b, image, scroll);
        for i in 0..4 {
            let exact_x = 95.0 * scroll.x_num as f64 * 33.0 / (2.0 * scroll.den as f64 * 320.0);
            let exact_y = 95.0 * scroll.y_num as f64 * -21.0 / (2.0 * scroll.den as f64 * 200.0);
            assert!(((tb[i].x - ta[i].x) as f64 - exact_x).abs() < 1.0);
            assert!(((tb[i].y - ta[i].y) as f64 - exact_y).abs() < 1.0);
        }
    }
}

#[test]
fn frame_composition_moves_bike_and_backgrounds() {
    let p = |w: u32, h: u32| Pic { size: ImageSize { width: w, height: h }, bounds: TexBounds { left: 0, top: 0, right: 1, bottom: 1 } };
    let (mut scene, layout): (Scene, _) = build_scene(&p(95, 95), &p(95, 190), &vec![], &p(38, 38));
    let vp = Viewport { position: at(2, -4), size: at(40, 30) };
    let bike = Pose { position: at(7, 7), cos: ONE, sin: 0 };
    let wheels = [Pose { position: at(6, 6), cos: 0, sin: ONE }, Pose { position: at(8, 6), cos: ONE, sin: 0 }];
    let indices = scene.indices().clone();
    let before = scene.vertices().clone();
    scene.compose_frame(&layout, &vp, &bike, &wheels);
    let v = scene.vertices();
    assert_eq!(scene.indices(), &indices);
    assert_eq!(v[0].position, at(2, -4));
    assert_eq!(v[2].position, at(42, 26));
    assert_eq!(v[0].tex_coord, Point { x: ONE / 2, y: 0 });
    assert_eq!(v[4].position, at(2, -4));
    assert_eq!(v[4].tex_coord, Point { x: ONE, y: -ONE });
    assert_eq!(v[8].position, Point { x: 7 * ONE - 37073, y: 7 * ONE });
    assert_eq!(v[12].position, Point { x: 6 * ONE, y: 6 * ONE - 37073 });
    assert_eq!(v[16].position, Point { x: 8 * ONE - 37073, y: 6 * ONE });
    for k in 8..20 {
        assert_eq!(v[k].tex_coord, before[k].tex_coord);
        assert_eq!(v[k].clip, ClipTag::Unclipped.bias());
    }
}
