use elma_scene::compose::{build_scene, object_corners, Placement, Pose, HALF_DIAGONAL};
use elma_scene::fixed::{floor_div, Point, FIXED_ONE};
use elma_scene::scene::{ClipTag, ImageSize, Pic, PictureVertex, Scene, TexBounds, vec_dir};

fn pic(width: u32, height: u32) -> Pic {
    Pic {
        size: ImageSize { width, height },
        bounds: TexBounds { left: 1, top: 2, right: 3, bottom: 4 },
    }
}

fn world(v: i64) -> f64 {
    v as f64 / FIXED_ONE as f64
}

#[test]
fn insert_quad_of_hundred_pixels_at_origin() {
    let mut scene = Scene::new();
    let h = scene.add_image(&pic(100, 100), Point { x: 0, y: 0 }, ClipTag::Unclipped);
    assert_eq!(h.offset(), 0);
    let v = scene.vertices();
    assert_eq!(v.len(), 4);
    let expected = [(0.0, 0.0), (2.105, 0.0), (2.105, -2.105), (0.0, -2.105)];
    for i in 0..4 {
        assert!((world(v[i].position.x) - expected[i].0).abs() < 0.001);
        assert!((world(v[i].position.y) - expected[i].1).abs() < 0.001);
        assert_eq!(v[i].clip, FIXED_ONE / 2);
        assert_eq!(v[i].tex_bounds, pic(1, 1).bounds);
    }
    assert_eq!(v[1].position, Point { x: 137970, y: 0 });
    assert_eq!(v[2].tex_coord, Point { x: FIXED_ONE, y: FIXED_ONE });
    assert_eq!(v[3].tex_coord, Point { x: 0, y: FIXED_ONE });
    assert_eq!(scene.indices(), &vec![0, 1, 2, 0, 2, 3]);
}

#[test]
fn clip_tags_give_their_biases() {
    assert_eq!(ClipTag::Unclipped.bias(), 32768);
    assert_eq!(ClipTag::Ground.bias(), 0);
    assert_eq!(ClipTag::Sky.bias(), 65536);
}

#[test]
fn counts_stay_in_step_over_insertions() {
    let mut scene = Scene::new();
    assert_eq!(scene.vertex_count(), 0);
    assert_eq!(scene.index_count(), 0);
    for n in 1..6usize {
        let h = scene.add_image(&pic(10 * n as u32, 7), Point { x: n as i64, y: -(n as i64) }, ClipTag::Ground);
        assert_eq!(h.offset(), 4 * (n - 1));
        assert_eq!(scene.vertex_count() % 4, 0);
        assert_eq!(2 * scene.index_count(), 3 * scene.vertex_count());
        assert!(scene.indices().iter().all(|&i| (i as usize) < scene.vertex_count()));
    }
    let ix = scene.indices();
    assert_eq!(&ix[24..30], &[16, 17, 18, 16, 18, 19]);
}

#[test]
fn position_rewrite_touches_positions_of_one_quad_only() {
    let mut scene = Scene::new();
    let a = scene.add_image(&pic(20, 30), Point { x: 5, y: 5 }, ClipTag::Sky);
    let b = scene.add_image(&pic(40, 50), Point { x: 9, y: 9 }, ClipTag::Ground);
    let before: Vec<PictureVertex> = scene.vertices().clone();
    let corners = [Point { x: 1, y: 2 }, Point { x: 3, y: 4 }, Point { x: 5, y: 6 }, Point { x: 7, y: 8 }];
    scene.rewrite_quad_positions(b, corners);
    let after = scene.vertices();
    assert_eq!(&after[0..4], &before[0..4]);
    for j in 0..4 {
        assert_eq!(after[b.offset() + j].position, corners[j]);
        assert_eq!(after[b.offset() + j].tex_coord, before[4 + j].tex_coord);
        assert_eq!(after[b.offset() + j].tex_bounds, before[4 + j].tex_bounds);
        assert_eq!(after[b.offset() + j].clip, before[4 + j].clip);
    }
    assert_eq!(a.offset(), 0);
    assert_eq!(scene.indices().len(), 12);
}

#[test]
fn position_rewrite_twice_equals_once() {
    let mut scene = Scene::new();
    let h = scene.add_image(&pic(20, 30), Point { x: 5, y: 5 }, ClipTag::Unclipped);
    let corners = [Point { x: -1, y: 2 }, Point { x: 3, y: -4 }, Point { x: 5, y: 6 }, Point { x: 7, y: 8 }];
    scene.rewrite_quad_positions(h, corners);
    let once = scene.vertices().clone();
    let once_ix = scene.indices().clone();
    scene.rewrite_quad_positions(h, corners);
    assert_eq!(scene.vertices(), &once);
    assert_eq!(scene.indices(), &once_ix);
}

#[test]
fn texcoord_rewrite_keeps_positions() {
    let mut scene = Scene::new();
    let h = scene.add_image(&pic(20, 30), Point { x: 5, y: 5 }, ClipTag::Unclipped);
    let before = scene.vertices().clone();
    let coords = [Point { x: 10, y: 20 }, Point { x: 30, y: 40 }, Point { x: 50, y: 60 }, Point { x: 70, y: 80 }];
    scene.rewrite_quad_texcoords(h, coords);
    for j in 0..4 {
        assert_eq!(scene.vertices()[j].tex_coord, coords[j]);
        assert_eq!(scene.vertices()[j].position, before[j].position);
        assert_eq!(scene.vertices()[j].clip, before[j].clip);
    }
}

#[test]
fn unit_square_corner_order() {
    assert_eq!(vec_dir(0), Point { x: 0, y: 0 });
    assert_eq!(vec_dir(1), Point { x: 1, y: 0 });
    assert_eq!(vec_dir(2), Point { x: 1, y: 1 });
    assert_eq!(vec_dir(3), Point { x: 0, y: 1 });
}

#[test]
fn floor_division_rounds_down() {
    assert_eq!(floor_div(7, 2), 3);
    assert_eq!(floor_div(-7, 2), -4);
    assert_eq!(floor_div(-8, 2), -4);
    assert_eq!(floor_div(0, 5), 0);
}

#[test]
fn body_corners_at_zero_and_right_angle() {
    let c = Point { x: 100000, y: -50000 };
    let flat = object_corners(&Pose { position: c, cos: FIXED_ONE, sin: 0 });
    let d = HALF_DIAGONAL;
    assert_eq!(flat, [
        Point { x: c.x - d, y: c.y },
        Point { x: c.x, y: c.y + d },
        Point { x: c.x + d, y: c.y },
        Point { x: c.x, y: c.y - d },
    ]);
    let up = object_corners(&Pose { position: c, cos: 0, sin: FIXED_ONE });
    assert_eq!(up[0], Point { x: c.x, y: c.y - d });
    assert_eq!(up[1], Point { x: c.x - d, y: c.y });
    let back = object_corners(&Pose { position: c, cos: -FIXED_ONE / 2, sin: 0 });
    assert_eq!(back[0].x, c.x - floor_div(-d * FIXED_ONE / 2, FIXED_ONE));
    assert!((world(HALF_DIAGONAL) - 0.4 * 2.0f64.sqrt()).abs() < 0.0001);
}

#[test]
fn scene_of_level_skips_unnamed_pictures() {
    let placements = vec![
        Placement { pic: Some(pic(10, 10)), position: Point { x: 1, y: 1 }, clip: ClipTag::Ground },
        Placement { pic: None, position: Point { x: 2, y: 2 }, clip: ClipTag::Sky },
        Placement { pic: Some(pic(20, 20)), position: Point { x: 3, y: 3 }, clip: ClipTag::Sky },
    ];
    let (scene, layout) = build_scene(&pic(64, 48), &pic(32, 32), &placements, &pic(38, 38));
    assert_eq!(scene.vertex_count(), 4 * 7);
    assert_eq!(scene.index_count(), 6 * 7);
    assert_eq!(layout.sky.offset(), 0);
    assert_eq!(layout.ground.offset(), 4);
    assert_eq!(layout.bike.offset(), 16);
    assert_eq!(layout.wheels[0].offset(), 20);
    assert_eq!(layout.wheels[1].offset(), 24);
    assert_eq!(layout.sky_size, ImageSize { width: 64, height: 48 });
    let v = scene.vertices();
    assert_eq!(v[0].clip, ClipTag::Sky.bias());
    assert_eq!(v[4].clip, ClipTag::Ground.bias());
    assert_eq!(v[8].position, Point { x: 1, y: 1 });
    assert_eq!(v[12].position, Point { x: 3, y: 3 });
    assert_eq!(v[12].clip, ClipTag::Sky.bias());
    assert_eq!(v[16].clip, ClipTag::Unclipped.bias());
}

fn signed_area(q: &[Point]) -> i128 {
    let mut a: i128 = 0;
    for i in 0..4 {
        let (p, n) = (q[i], q[(i + 1) % 4]);
        a += p.x as i128 * n.y as i128 - n.x as i128 * p.y as i128;
    }
    a
}

#[test]
fn body_corners_wind_like_inserted_quads() {
    let mut scene = Scene::new();
    scene.add_image(&pic(38, 38), Point { x: 0, y: 0 }, ClipTag::Unclipped);
    let inserted: Vec<Point> = scene.vertices().iter().map(|v| v.position).collect();
    assert!(signed_area(&inserted) < 0);
    for (cos, sin) in [(FIXED_ONE, 0), (0, FIXED_ONE), (-FIXED_ONE, 0), (46341, -46341)] {
        let q = object_corners(&Pose { position: Point { x: 5000, y: 7000 }, cos, sin });
        assert!(signed_area(&q) < 0);
    }
}
