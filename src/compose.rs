use crate::fixed::{floor_div, point_in_range, within, Point, FIXED_ONE};
use crate::scene::{
    image_quad, with_positions, with_tex_coords, ClipTag, ImageSize, Pic, PictureVertex,
    QuadHandle, Scene, MAX_VERTICES,
};
use crate::viewport::{
    layer_tex_coords, layer_tiling, viewport_in_range, Scroll, Viewport, GROUND_SCROLL_DEN,
    GROUND_SCROLL_X_NUM, GROUND_SCROLL_Y_NUM, SKY_SCROLL_DEN, SKY_SCROLL_X_NUM, SKY_SCROLL_Y_NUM,
};
use vstd::prelude::*;

verus! {

/// Half the diagonal of a bike part's square sprite, `0.4 * sqrt(2)` world
/// units, in fixed-point steps.
pub const HALF_DIAGONAL: i64 = 37073;

/// Where a rigid body of the bike is: its centre, and the cosine and sine of
/// its angle in fixed-point steps.
#[derive(Clone, Copy, Debug, PartialEq, Eq, Structural)]
pub struct Pose {
    pub position: Point,
    pub cos: i64,
    pub sin: i64,
}

/// Whether a pose is in range: its centre is a world coordinate and its
/// cosine and sine are at most one.
pub open spec fn pose_in_range(p: Pose) -> bool {
    point_in_range(p.position) && within(p.cos as int, FIXED_ONE as int) && within(
        p.sin as int,
        FIXED_ONE as int,
    )
}

/// The vector from a pose's centre to its first sprite corner, reversed.
pub open spec fn half_diagonal_of(p: Pose) -> Point {
    Point {
        x: (HALF_DIAGONAL * p.cos / FIXED_ONE as int) as i64,
        y: (HALF_DIAGONAL * p.sin / FIXED_ONE as int) as i64,
    }
}

/// The four corners of the sprite of a body at pose `p`: the square of half
/// diagonal `HALF_DIAGONAL` turned by the pose's angle, clockwise in the y-up
/// world as `add_image` lays out a quad (top-left, top-right, bottom-right,
/// bottom-left at angle zero, with the diagonal of the first and third
/// corners along the pose's direction).
pub open spec fn pose_corners(p: Pose) -> Seq<Point> {
    let v = half_diagonal_of(p);
    let c = p.position;
    seq![
        Point { x: (c.x - v.x) as i64, y: (c.y - v.y) as i64 },
        Point { x: (c.x - v.y) as i64, y: (c.y + v.x) as i64 },
        Point { x: (c.x + v.x) as i64, y: (c.y + v.y) as i64 },
        Point { x: (c.x + v.y) as i64, y: (c.y - v.x) as i64 },
    ]
}

/// One component of the half diagonal turned by an angle whose cosine or
/// sine is `t`.
fn turned(t: i64) -> (r: i64)
    requires
        within(t as int, FIXED_ONE as int),
    ensures
        r == HALF_DIAGONAL * t / FIXED_ONE as int,
        within(r as int, HALF_DIAGONAL as int),
{
    proof {
        let n = HALF_DIAGONAL * t;
        assert(within(n, HALF_DIAGONAL * FIXED_ONE)) by (nonlinear_arith)
            requires
                n == HALF_DIAGONAL * t,
                within(t as int, FIXED_ONE as int),
        ;
        vstd::arithmetic::div_mod::lemma_div_is_ordered(n, HALF_DIAGONAL * FIXED_ONE, FIXED_ONE as int);
        vstd::arithmetic::div_mod::lemma_div_is_ordered(-HALF_DIAGONAL * FIXED_ONE, n, FIXED_ONE as int);
        vstd::arithmetic::div_mod::lemma_div_multiples_vanish(HALF_DIAGONAL as int, FIXED_ONE as int);
        vstd::arithmetic::div_mod::lemma_div_multiples_vanish(-HALF_DIAGONAL as int, FIXED_ONE as int);
        assert(HALF_DIAGONAL * FIXED_ONE == FIXED_ONE * HALF_DIAGONAL);
        assert(-HALF_DIAGONAL * FIXED_ONE == FIXED_ONE * (-HALF_DIAGONAL));
    }
    floor_div(HALF_DIAGONAL * t, FIXED_ONE)
}

/// The four corners of the sprite of a body at pose `p`.
pub fn object_corners(p: &Pose) -> (r: [Point; 4])
    requires
        pose_in_range(*p),
    ensures
        r@ == pose_corners(*p),
{
    let vx = turned(p.cos);
    let vy = turned(p.sin);
    let c = p.position;
    let r = [
        Point { x: c.x - vx, y: c.y - vy },
        Point { x: c.x - vy, y: c.y + vx },
        Point { x: c.x + vx, y: c.y + vy },
        Point { x: c.x + vy, y: c.y - vx },
    ];
    proof {
        assert(r@ =~= pose_corners(*p));
    }
    r
}

/// The quads of a scene that change every frame, and the sizes of the two
/// background images.
#[derive(Clone, Copy, Debug)]
pub struct SceneLayout {
    pub sky: QuadHandle,
    pub ground: QuadHandle,
    pub bike: QuadHandle,
    pub wheels: [QuadHandle; 2],
    pub sky_size: ImageSize,
    pub ground_size: ImageSize,
}

/// Whether every quad of `layout` lies in `scene` and both background
/// images are non-empty.
pub open spec fn layout_fits(scene: Scene, layout: SceneLayout) -> bool {
    &&& scene.holds(layout.sky)
    &&& scene.holds(layout.ground)
    &&& scene.holds(layout.bike)
    &&& scene.holds(layout.wheels[0])
    &&& scene.holds(layout.wheels[1])
    &&& layout.sky_size.width > 0 && layout.sky_size.height > 0
    &&& layout.ground_size.width > 0 && layout.ground_size.height > 0
}

/// The sky layer's scroll rates.
pub open spec fn sky_scroll() -> Scroll {
    Scroll { x_num: SKY_SCROLL_X_NUM, y_num: SKY_SCROLL_Y_NUM, den: SKY_SCROLL_DEN }
}

/// The ground layer's scroll rates.
pub open spec fn ground_scroll() -> Scroll {
    Scroll { x_num: GROUND_SCROLL_X_NUM, y_num: GROUND_SCROLL_Y_NUM, den: GROUND_SCROLL_DEN }
}

/// The vertices of a frame: the wheels and then the bike placed at their
/// poses, and the sky and then the ground stretched over the viewport with
/// their tiling texture coordinates.
pub open spec fn composed(
    v: Seq<PictureVertex>,
    layout: SceneLayout,
    vp: Viewport,
    bike: Pose,
    wheels: Seq<Pose>,
) -> Seq<PictureVertex> {
    let v1 = with_positions(v, layout.wheels[0]@ as int, pose_corners(wheels[0]));
    let v2 = with_positions(v1, layout.wheels[1]@ as int, pose_corners(wheels[1]));
    let v3 = with_positions(v2, layout.bike@ as int, pose_corners(bike));
    let v4 = with_positions(v3, layout.sky@ as int, vp.corners());
    let v5 = with_tex_coords(
        v4,
        layout.sky@ as int,
        layer_tex_coords(vp, layout.sky_size, sky_scroll()),
    );
    let v6 = with_positions(v5, layout.ground@ as int, vp.corners());
    with_tex_coords(v6, layout.ground@ as int, layer_tex_coords(vp, layout.ground_size, ground_scroll()))
}

impl Scene {
    /// Rewrites the quads that change every frame from the bodies' poses and
    /// the viewport; the indices and every other quad stay as they were.
    pub fn compose_frame(
        &mut self,
        layout: &SceneLayout,
        vp: &Viewport,
        bike: &Pose,
        wheels: &[Pose; 2],
    )
        requires
            old(self).wf(),
            layout_fits(*old(self), *layout),
            viewport_in_range(*vp),
            pose_in_range(*bike),
            pose_in_range(wheels[0]),
            pose_in_range(wheels[1]),
        ensures
            final(self).wf(),
            final(self)@.0 == composed(old(self)@.0, *layout, *vp, *bike, wheels@),
            final(self)@.1 == old(self)@.1,
    {
        let mut i: usize = 0;
        while i < 2
            invariant
                0 <= i <= 2,
                self.wf(),
                layout_fits(*self, *layout),
                pose_in_range(wheels[0]),
                pose_in_range(wheels[1]),
                self@.1 == old(self)@.1,
                i == 0 ==> self@.0 == old(self)@.0,
                i == 1 ==> self@.0 == with_positions(
                    old(self)@.0,
                    layout.wheels[0]@ as int,
                    pose_corners(wheels[0]),
                ),
                i == 2 ==> self@.0 == with_positions(
                    with_positions(old(self)@.0, layout.wheels[0]@ as int, pose_corners(wheels[0])),
                    layout.wheels[1]@ as int,
                    pose_corners(wheels[1]),
                ),
            decreases 2 - i,
        {
            let corners = object_corners(&wheels[i]);
            self.rewrite_quad_positions(layout.wheels[i], corners);
            i = i + 1;
        }
        let corners = object_corners(bike);
        self.rewrite_quad_positions(layout.bike, corners);

        let frame = vp.corner_points();
        self.rewrite_quad_positions(layout.sky, frame);
        let sky = layer_tiling(vp, layout.sky_size, Scroll::sky());
        self.rewrite_quad_texcoords(layout.sky, sky);

        self.rewrite_quad_positions(layout.ground, frame);
        let ground = layer_tiling(vp, layout.ground_size, Scroll::ground());
        self.rewrite_quad_texcoords(layout.ground, ground);
    }
}

/// Largest number of placed pictures in a level: with the sky, the ground,
/// the bike and its two wheels they fill at most `MAX_VERTICES` vertices.
pub const MAX_PLACEMENTS: u64 = (MAX_VERTICES - 20) / 4;

/// A picture placed in the level. `pic` is `None` for a placement without
/// an image name, which is not drawn.
#[derive(Clone, Copy, Debug)]
pub struct Placement {
    pub pic: Option<Pic>,
    pub position: Point,
    pub clip: ClipTag,
}

/// The vertices of the drawn placements, in order.
pub open spec fn placed_vertices(ps: Seq<Placement>) -> Seq<PictureVertex>
    decreases ps.len(),
{
    if ps.len() == 0 {
        Seq::empty()
    } else {
        let last = ps.last();
        placed_vertices(ps.drop_last()) + match last.pic {
            Some(pic) => image_quad(pic, last.position, last.clip),
            None => Seq::empty(),
        }
    }
}

/// The origin of the world.
pub open spec fn origin() -> Point {
    Point { x: 0, y: 0 }
}

/// The vertices of the scene at start: the sky, the ground, the drawn
/// placements, the bike and its two wheels.
pub open spec fn initial_vertices(sky: Pic, ground: Pic, ps: Seq<Placement>, wheel: Pic) -> Seq<
    PictureVertex,
> {
    image_quad(sky, origin(), ClipTag::Sky) + image_quad(ground, origin(), ClipTag::Ground)
        + placed_vertices(ps) + image_quad(wheel, origin(), ClipTag::Unclipped) + image_quad(
        wheel,
        origin(),
        ClipTag::Unclipped,
    ) + image_quad(wheel, origin(), ClipTag::Unclipped)
}

/// The drawn placements have four vertices each.
proof fn lemma_placed_len(ps: Seq<Placement>)
    ensures
        placed_vertices(ps).len() <= 4 * ps.len(),
        placed_vertices(ps).len() % 4 == 0,
    decreases ps.len(),
{
    if ps.len() > 0 {
        lemma_placed_len(ps.drop_last());
    }
}

/// Builds the scene of a level: the sky and the ground at the origin, each
/// placement with an image at its position, and then the bike and its two
/// wheels, which every frame moves.
pub fn build_scene(sky: &Pic, ground: &Pic, placements: &Vec<Placement>, wheel: &Pic) -> (r: (
    Scene,
    SceneLayout,
))
    requires
        sky.size.width > 0 && sky.size.height > 0,
        ground.size.width > 0 && ground.size.height > 0,
        placements.len() <= MAX_PLACEMENTS,
        forall|k: int| 0 <= k < placements.len() ==> point_in_range(#[trigger] placements[k].position),
    ensures
        r.0.wf(),
        layout_fits(r.0, r.1),
        r.0@.0 == initial_vertices(*sky, *ground, placements@, *wheel),
        r.1.sky@ == 0,
        r.1.ground@ == 4,
        r.1.bike@ == r.0@.0.len() - 12,
        r.1.wheels[0]@ == r.0@.0.len() - 8,
        r.1.wheels[1]@ == r.0@.0.len() - 4,
        r.1.sky_size == sky.size,
        r.1.ground_size == ground.size,
{
    let zero = Point { x: 0, y: 0 };
    let mut scene = Scene::new();
    let sky_handle = scene.add_image(sky, zero, ClipTag::Sky);
    let ground_handle = scene.add_image(ground, zero, ClipTag::Ground);
    let ghost head = scene@.0;
    let mut i: usize = 0;
    while i < placements.len()
        invariant
            0 <= i <= placements.len() <= MAX_PLACEMENTS,
            forall|k: int| 0 <= k < placements.len() ==> point_in_range(#[trigger] placements[k].position),
            scene.wf(),
            head == image_quad(*sky, origin(), ClipTag::Sky) + image_quad(*ground, origin(), ClipTag::Ground),
            scene@.0 == head + placed_vertices(placements@.take(i as int)),
            sky_handle@ == 0,
            ground_handle@ == 4,
        decreases placements.len() - i,
    {
        proof {
            lemma_placed_len(placements@.take(i as int));
            assert(placements@.take(i as int + 1).drop_last() =~= placements@.take(i as int));
        }
        let placement = &placements[i];
        match &placement.pic {
            Some(pic) => {
                scene.add_image(pic, placement.position, placement.clip);
            },
            None => {},
        }
        i = i + 1;
    }
    proof {
        lemma_placed_len(placements@);
        assert(placements@.take(placements.len() as int) =~= placements@);
    }
    let bike = scene.add_image(wheel, zero, ClipTag::Unclipped);
    let first = scene.add_image(wheel, zero, ClipTag::Unclipped);
    let second = scene.add_image(wheel, zero, ClipTag::Unclipped);
    let layout = SceneLayout {
        sky: sky_handle,
        ground: ground_handle,
        bike,
        wheels: [first, second],
        sky_size: sky.size,
        ground_size: ground.size,
    };
    (scene, layout)
}

} // verus!
