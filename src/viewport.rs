use crate::fixed::{floor_div, point_in_range, within, Point, COORD_LIMIT};
use crate::scene::{dir_x, dir_y, vec_dir, ImageSize, PIXELS_PER_UNIT_DEN, PIXELS_PER_UNIT_NUM};
use vstd::prelude::*;

verus! {

// Background layers: the sky and the ground quads are laid over the viewport
// with its corner `position` first, that is lower-left first in the y-up
// world, while `add_image` puts an image's top-left corner first. Their
// images therefore show upside down. Which vertical orientation the layers
// are meant to have, and so the sign of their vertical scroll rates, is an
// open calibration item; the rates below keep the behaviour as it stands.

/// Horizontal scroll rate numerator of the sky layer (half the camera's travel).
pub const SKY_SCROLL_X_NUM: u8 = 1;

/// Vertical scroll rate numerator of the sky layer (it does not follow the camera up).
pub const SKY_SCROLL_Y_NUM: u8 = 0;

/// Denominator of the sky layer's scroll rates.
pub const SKY_SCROLL_DEN: u8 = 2;

/// Horizontal scroll rate numerator of the ground layer (one to one).
pub const GROUND_SCROLL_X_NUM: u8 = 1;

/// Vertical scroll rate numerator of the ground layer (one to one).
pub const GROUND_SCROLL_Y_NUM: u8 = 1;

/// Denominator of the ground layer's scroll rates.
pub const GROUND_SCROLL_DEN: u8 = 1;

/// Size of the display surface in pixels.
#[derive(Clone, Copy, Debug, PartialEq, Eq, Structural)]
pub struct SurfaceSize {
    pub width: u32,
    pub height: u32,
}

/// The visible world rectangle: `position`, the corner with the smallest
/// coordinates, and its size. The background quads take `position` as their
/// first corner, the one that a quad's top-left corner holds at insertion;
/// in the y-up world it is the lower-left corner (see the note on background
/// layers above).
#[derive(Clone, Copy, Debug, PartialEq, Eq, Structural)]
pub struct Viewport {
    pub position: Point,
    pub size: Point,
}

/// Half the width of a viewport of half-height `half_extent` on `surface`,
/// rounded down.
pub open spec fn half_width(half_extent: int, surface: SurfaceSize) -> int {
    half_extent * surface.width / surface.height as int
}

/// Whether a viewport around `center` fits in the coordinate range.
pub open spec fn viewport_fits(center: Point, half_extent: int, surface: SurfaceSize) -> bool {
    &&& point_in_range(center)
    &&& 0 <= half_extent <= COORD_LIMIT
    &&& surface.height > 0
    &&& half_width(half_extent, surface) <= COORD_LIMIT
}

/// The viewport centred on `center`, `2 * half_extent` high and as wide as
/// the surface's aspect ratio makes it.
pub open spec fn viewport_of(center: Point, half_extent: int, surface: SurfaceSize) -> Viewport {
    let hw = half_width(half_extent, surface);
    Viewport {
        position: Point { x: (center.x - hw) as i64, y: (center.y - half_extent) as i64 },
        size: Point { x: (2 * hw) as i64, y: (2 * half_extent) as i64 },
    }
}

/// Whether a viewport's corner and size are small enough for the tiling
/// arithmetic.
pub open spec fn viewport_in_range(vp: Viewport) -> bool {
    &&& within(vp.position.x as int, 2 * COORD_LIMIT)
    &&& within(vp.position.y as int, 2 * COORD_LIMIT)
    &&& 0 <= vp.size.x <= 2 * COORD_LIMIT
    &&& 0 <= vp.size.y <= 2 * COORD_LIMIT
}

impl Viewport {
    /// The viewport centred on `center` with half-height `half_extent`.
    pub fn from_center_and_scale(center: Point, half_extent: i64, surface: SurfaceSize) -> (vp:
        Viewport)
        requires
            viewport_fits(center, half_extent as int, surface),
        ensures
            vp == viewport_of(center, half_extent as int, surface),
            viewport_in_range(vp),
    {
        proof {
            assert(0 <= half_extent * surface.width <= COORD_LIMIT * 4294967296) by (nonlinear_arith)
                requires
                    0 <= half_extent <= COORD_LIMIT,
                    0 <= surface.width <= 4294967295,
            ;
        }
        let product = half_extent as i128 * surface.width as i128;
        proof {
            vstd::arithmetic::div_mod::lemma_div_pos_is_pos(product as int, surface.height as int);
        }
        let hw = (product / surface.height as i128) as i64;
        Viewport {
            position: Point { x: center.x - hw, y: center.y - half_extent },
            size: Point { x: 2 * hw, y: 2 * half_extent },
        }
    }

    /// Corner `i` of the viewport, in the corner order (0,0), (1,0), (1,1), (0,1).
    pub open spec fn corner(self, i: int) -> Point {
        Point {
            x: (self.position.x + self.size.x * dir_x(i)) as i64,
            y: (self.position.y + self.size.y * dir_y(i)) as i64,
        }
    }

    /// The four corners of the viewport.
    pub open spec fn corners(self) -> Seq<Point> {
        seq![self.corner(0), self.corner(1), self.corner(2), self.corner(3)]
    }

    /// The four corners of the viewport, in the corner order.
    pub fn corner_points(&self) -> (r: [Point; 4])
        requires
            viewport_in_range(*self),
        ensures
            r@ == self.corners(),
    {
        let mut r = [self.position; 4];
        let mut i: usize = 0;
        while i < 4
            invariant
                0 <= i <= 4,
                viewport_in_range(*self),
                r@.len() == 4,
                forall|j: int| 0 <= j < i ==> r@[j] == self.corner(j),
            decreases 4 - i,
        {
            let d = vec_dir(i);
            proof {
                assert(0 <= self.size.x * d.x <= self.size.x) by (nonlinear_arith)
                    requires
                        0 <= d.x <= 1,
                        self.size.x >= 0,
                ;
                assert(0 <= self.size.y * d.y <= self.size.y) by (nonlinear_arith)
                    requires
                        0 <= d.y <= 1,
                        self.size.y >= 0,
                ;
            }
            r[i] = Point {
                x: self.position.x + self.size.x * d.x,
                y: self.position.y + self.size.y * d.y,
            };
            i = i + 1;
        }
        proof {
            assert(r@ =~= self.corners());
        }
        r
    }
}

/// How fast a background layer scrolls with the camera, per axis, as the
/// fractions `x_num / den` and `y_num / den`.
#[derive(Clone, Copy, Debug, PartialEq, Eq, Structural)]
pub struct Scroll {
    pub x_num: u8,
    pub y_num: u8,
    pub den: u8,
}

impl Scroll {
    /// The sky layer's rates.
    pub fn sky() -> (r: Scroll)
        ensures
            r == (Scroll { x_num: SKY_SCROLL_X_NUM, y_num: SKY_SCROLL_Y_NUM, den: SKY_SCROLL_DEN }),
    {
        Scroll { x_num: SKY_SCROLL_X_NUM, y_num: SKY_SCROLL_Y_NUM, den: SKY_SCROLL_DEN }
    }

    /// The ground layer's rates.
    pub fn ground() -> (r: Scroll)
        ensures
            r == (Scroll {
                x_num: GROUND_SCROLL_X_NUM,
                y_num: GROUND_SCROLL_Y_NUM,
                den: GROUND_SCROLL_DEN,
            }),
    {
        Scroll { x_num: GROUND_SCROLL_X_NUM, y_num: GROUND_SCROLL_Y_NUM, den: GROUND_SCROLL_DEN }
    }
}

/// Denominator of one axis's tiling coordinate: the image side in pixels
/// times the pixel scale's and the scroll rate's denominators.
pub open spec fn tiling_den(den: int, image: int) -> int {
    PIXELS_PER_UNIT_DEN * den * image
}

/// Numerator of one axis's tiling coordinate at a corner `d` (0 or 1) of a
/// viewport with lower corner `origin` and `extent`: the corner's offset
/// in pixels, with the origin moved at the scroll rate `num / den`.
pub open spec fn tiling_num(origin: int, extent: int, num: int, den: int, d: int) -> int {
    PIXELS_PER_UNIT_NUM * (num * origin + den * extent * d)
}

/// One axis of a tiling texture coordinate, rounded down.
pub open spec fn tiling_coord(origin: int, extent: int, num: int, den: int, image: int, d: int) -> int {
    tiling_num(origin, extent, num, den, d) / tiling_den(den, image)
}

/// The texture coordinate that a background layer of `image` shows at
/// corner `i` of `vp`.
pub open spec fn layer_tex_coord(vp: Viewport, image: ImageSize, scroll: Scroll, i: int) -> Point {
    Point {
        x: tiling_coord(
            vp.position.x as int,
            vp.size.x as int,
            scroll.x_num as int,
            scroll.den as int,
            image.width as int,
            dir_x(i),
        ) as i64,
        y: tiling_coord(
            vp.position.y as int,
            vp.size.y as int,
            scroll.y_num as int,
            scroll.den as int,
            image.height as int,
            dir_y(i),
        ) as i64,
    }
}

/// The four texture coordinates of a background layer over `vp`.
pub open spec fn layer_tex_coords(vp: Viewport, image: ImageSize, scroll: Scroll) -> Seq<Point> {
    seq![
        layer_tex_coord(vp, image, scroll, 0),
        layer_tex_coord(vp, image, scroll, 1),
        layer_tex_coord(vp, image, scroll, 2),
        layer_tex_coord(vp, image, scroll, 3),
    ]
}

/// One axis of a tiling texture coordinate.
fn tiling_axis(origin: i64, extent: i64, num: u8, den: u8, image: u32, d: i64) -> (r: i64)
    requires
        within(origin as int, 2 * COORD_LIMIT),
        0 <= extent <= 2 * COORD_LIMIT,
        den > 0,
        image > 0,
        0 <= d <= 1,
    ensures
        r == tiling_coord(origin as int, extent as int, num as int, den as int, image as int, d as int),
{
    proof {
        assert(within(num * origin, 255 * 2 * COORD_LIMIT)) by (nonlinear_arith)
            requires
                within(origin as int, 2 * COORD_LIMIT),
                0 <= num <= 255,
        ;
        assert(0 <= den * extent <= 255 * 2 * COORD_LIMIT) by (nonlinear_arith)
            requires
                0 <= extent <= 2 * COORD_LIMIT,
                0 <= den <= 255,
        ;
        assert(0 <= den * extent * d <= 255 * 2 * COORD_LIMIT) by (nonlinear_arith)
            requires
                0 <= extent <= 2 * COORD_LIMIT,
                0 <= den <= 255,
                0 <= d <= 1,
        ;
        assert(0 < PIXELS_PER_UNIT_DEN * den * image <= 2 * 255 * 4294967295) by (nonlinear_arith)
            requires
                0 < den <= 255,
                0 < image <= 4294967295,
                PIXELS_PER_UNIT_DEN == 2,
        ;
    }
    let n = PIXELS_PER_UNIT_NUM * (num as i64 * origin + den as i64 * extent * d);
    floor_div(n, PIXELS_PER_UNIT_DEN * den as i64 * image as i64)
}

/// The texture coordinates that make a background layer of `image` tile and
/// scroll behind `vp` at the rates of `scroll`, in the corner order.
pub fn layer_tiling(vp: &Viewport, image: ImageSize, scroll: Scroll) -> (r: [Point; 4])
    requires
        viewport_in_range(*vp),
        image.width > 0,
        image.height > 0,
        scroll.den > 0,
    ensures
        r@ == layer_tex_coords(*vp, image, scroll),
{
    let mut r = [vp.position; 4];
    let mut i: usize = 0;
    while i < 4
        invariant
            0 <= i <= 4,
            viewport_in_range(*vp),
            image.width > 0,
            image.height > 0,
            scroll.den > 0,
            r@.len() == 4,
            forall|j: int| 0 <= j < i ==> r@[j] == layer_tex_coord(*vp, image, scroll, j),
        decreases 4 - i,
    {
        let d = vec_dir(i);
        r[i] = Point {
            x: tiling_axis(vp.position.x, vp.size.x, scroll.x_num, scroll.den, image.width, d.x),
            y: tiling_axis(vp.position.y, vp.size.y, scroll.y_num, scroll.den, image.height, d.y),
        };
        i = i + 1;
    }
    proof {
        assert(r@ =~= layer_tex_coords(*vp, image, scroll));
    }
    r
}

/// A viewport is exactly `2 * half_extent` high whatever the surface, and its
/// width is `2 * half_extent` times the surface's aspect ratio, rounded down
/// to an even number of fixed-point steps.
pub proof fn lemma_viewport_extents(center: Point, half_extent: int, surface: SurfaceSize)
    requires
        viewport_fits(center, half_extent, surface),
    ensures
        viewport_of(center, half_extent, surface).size.y == 2 * half_extent,
        viewport_of(center, half_extent, surface).size.x * surface.height <= 2 * half_extent
            * surface.width,
        2 * half_extent * surface.width < (viewport_of(center, half_extent, surface).size.x + 2)
            * surface.height,
{
    let h = surface.height as int;
    let n = half_extent * surface.width;
    vstd::arithmetic::div_mod::lemma_fundamental_div_mod(n, h);
    vstd::arithmetic::div_mod::lemma_div_pos_is_pos(n, h);
    let q = n / h;
    let sx = viewport_of(center, half_extent, surface).size.x as int;
    assert(sx == 2 * q);
    assert(sx * h <= 2 * half_extent * surface.width < (sx + 2) * h) by (nonlinear_arith)
        requires
            sx == 2 * q,
            n == half_extent * surface.width,
            n == h * q + n % h,
            0 <= n % h < h,
    ;
}

/// Floor division by `d` turns a difference `a - b` into a difference of
/// quotients that is off by less than one step.
pub proof fn lemma_floor_div_difference(a: int, b: int, d: int)
    requires
        d > 0,
    ensures
        -d < d * (a / d - b / d) - (a - b) < d,
{
    vstd::arithmetic::div_mod::lemma_fundamental_div_mod(a, d);
    vstd::arithmetic::div_mod::lemma_fundamental_div_mod(b, d);
    assert(d * (a / d - b / d) == d * (a / d) - d * (b / d)) by (nonlinear_arith);
}

/// A tiling coordinate of a viewport in range fits in an `i64`.
proof fn lemma_tiling_coord_bound(origin: int, extent: int, num: int, den: int, image: int, d: int)
    requires
        within(origin, 2 * COORD_LIMIT),
        0 <= extent <= 2 * COORD_LIMIT,
        0 <= num <= 255,
        0 < den <= 255,
        image > 0,
        0 <= d <= 1,
    ensures
        within(tiling_coord(origin, extent, num, den, image, d), 95 * 1024 * COORD_LIMIT),
{
    let n = tiling_num(origin, extent, num, den, d);
    let q = tiling_coord(origin, extent, num, den, image, d);
    let dd = tiling_den(den, image);
    assert(within(n, 95 * 1024 * COORD_LIMIT)) by (nonlinear_arith)
        requires
            n == 95 * (num * origin + den * extent * d),
            within(origin, 2 * COORD_LIMIT),
            0 <= extent <= 2 * COORD_LIMIT,
            0 <= num <= 255,
            0 < den <= 255,
            0 <= d <= 1,
    ;
    assert(dd > 0) by (nonlinear_arith)
        requires
            dd == 2 * den * image,
            den > 0,
            image > 0,
    ;
    vstd::arithmetic::div_mod::lemma_fundamental_div_mod(n, dd);
    assert(within(q, 95 * 1024 * COORD_LIMIT)) by (nonlinear_arith)
        requires
            n == dd * q + n % dd,
            0 <= n % dd < dd,
            dd > 0,
            within(n, 95 * 1024 * COORD_LIMIT),
    ;
}

/// Background tiling follows the tracked point continuously: when the
/// viewport's centre moves from `c1` to `c2`, each texture coordinate moves
/// by the centre's offset times the layer's rate in texture repeats per
/// world unit, `PIXELS_PER_UNIT * num / (den * image side)`, up to less than
/// one fixed-point step of rounding.
pub proof fn lemma_tiling_continuous(
    c1: Point,
    c2: Point,
    half_extent: int,
    surface: SurfaceSize,
    image: ImageSize,
    scroll: Scroll,
    i: int,
)
    requires
        viewport_fits(c1, half_extent, surface),
        viewport_fits(c2, half_extent, surface),
        image.width > 0,
        image.height > 0,
        scroll.den > 0,
        0 <= i < 4,
    ensures
        ({
            let t1 = layer_tex_coord(viewport_of(c1, half_extent, surface), image, scroll, i);
            let t2 = layer_tex_coord(viewport_of(c2, half_extent, surface), image, scroll, i);
            let dx = tiling_den(scroll.den as int, image.width as int);
            let dy = tiling_den(scroll.den as int, image.height as int);
            &&& -dx < dx * (t2.x - t1.x) - PIXELS_PER_UNIT_NUM * scroll.x_num * (c2.x - c1.x) < dx
            &&& -dy < dy * (t2.y - t1.y) - PIXELS_PER_UNIT_NUM * scroll.y_num * (c2.y - c1.y) < dy
        }),
{
    let v1 = viewport_of(c1, half_extent, surface);
    let v2 = viewport_of(c2, half_extent, surface);
    let hw = half_width(half_extent, surface);
    vstd::arithmetic::div_mod::lemma_div_pos_is_pos(half_extent * surface.width, surface.height as int);
    assert(v1.position.x == c1.x - hw && v2.position.x == c2.x - hw);
    assert(v1.position.y == c1.y - half_extent && v2.position.y == c2.y - half_extent);
    let (num_x, num_y, den) = (scroll.x_num as int, scroll.y_num as int, scroll.den as int);
    lemma_tiling_coord_bound(v1.position.x as int, v1.size.x as int, num_x, den, image.width as int, dir_x(i));
    lemma_tiling_coord_bound(v2.position.x as int, v2.size.x as int, num_x, den, image.width as int, dir_x(i));
    lemma_tiling_coord_bound(v1.position.y as int, v1.size.y as int, num_y, den, image.height as int, dir_y(i));
    lemma_tiling_coord_bound(v2.position.y as int, v2.size.y as int, num_y, den, image.height as int, dir_y(i));
    let dx = tiling_den(den, image.width as int);
    let dy = tiling_den(den, image.height as int);
    assert(dx > 0 && dy > 0) by (nonlinear_arith)
        requires
            dx == 2 * den * image.width,
            dy == 2 * den * image.height,
            den > 0,
            image.width > 0,
            image.height > 0,
    ;
    let nx1 = tiling_num(v1.position.x as int, v1.size.x as int, num_x, den, dir_x(i));
    let nx2 = tiling_num(v2.position.x as int, v2.size.x as int, num_x, den, dir_x(i));
    let ny1 = tiling_num(v1.position.y as int, v1.size.y as int, num_y, den, dir_y(i));
    let ny2 = tiling_num(v2.position.y as int, v2.size.y as int, num_y, den, dir_y(i));
    assert(nx2 - nx1 == PIXELS_PER_UNIT_NUM * num_x * (c2.x - c1.x)) by (nonlinear_arith)
        requires
            nx1 == 95 * (num_x * (c1.x - hw) + den * v1.size.x * dir_x(i)),
            nx2 == 95 * (num_x * (c2.x - hw) + den * v2.size.x * dir_x(i)),
            v1.size.x == v2.size.x,
    ;
    assert(ny2 - ny1 == PIXELS_PER_UNIT_NUM * num_y * (c2.y - c1.y)) by (nonlinear_arith)
        requires
            ny1 == 95 * (num_y * (c1.y - half_extent) + den * v1.size.y * dir_y(i)),
            ny2 == 95 * (num_y * (c2.y - half_extent) + den * v2.size.y * dir_y(i)),
            v1.size.y == v2.size.y,
    ;
    lemma_floor_div_difference(nx2, nx1, dx);
    lemma_floor_div_difference(ny2, ny1, dy);
}

} // verus!
