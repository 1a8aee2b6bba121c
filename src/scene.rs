use crate::fixed::{point_in_range, Point, FIXED_ONE};
use vstd::prelude::*;

verus! {

/// Pixels of a source image per world unit, as the fraction
/// `PIXELS_PER_UNIT_NUM / PIXELS_PER_UNIT_DEN` (a calibration value).
pub const PIXELS_PER_UNIT_NUM: i64 = 95;

/// Denominator of the pixels-per-world-unit fraction.
pub const PIXELS_PER_UNIT_DEN: i64 = 2;

/// Depth bias of a sprite drawn over everything it overlaps.
pub const CLIP_BIAS_UNCLIPPED: i64 = 32768;

/// Depth bias of a sprite clipped by the ground.
pub const CLIP_BIAS_GROUND: i64 = 0;

/// Depth bias of a sprite clipped by the sky.
pub const CLIP_BIAS_SKY: i64 = 65536;

/// Largest vertex count of a scene: every vertex has a `u32` index.
pub const MAX_VERTICES: u64 = 4294967296;

/// How a sprite is clipped against the level geometry.
#[derive(Clone, Copy, Debug, PartialEq, Eq, Structural)]
pub enum ClipTag {
    Unclipped,
    Ground,
    Sky,
}

/// The depth bias that the shading stage reads for a clip tag.
pub open spec fn clip_bias(c: ClipTag) -> i64 {
    match c {
        ClipTag::Unclipped => CLIP_BIAS_UNCLIPPED,
        ClipTag::Ground => CLIP_BIAS_GROUND,
        ClipTag::Sky => CLIP_BIAS_SKY,
    }
}

impl ClipTag {
    /// The depth bias of this tag, in fixed-point steps.
    pub fn bias(&self) -> (r: i64)
        ensures
            r == clip_bias(*self),
    {
        match self {
            ClipTag::Unclipped => CLIP_BIAS_UNCLIPPED,
            ClipTag::Ground => CLIP_BIAS_GROUND,
            ClipTag::Sky => CLIP_BIAS_SKY,
        }
    }
}

/// Size of a source image in pixels.
#[derive(Clone, Copy, Debug, PartialEq, Eq, Structural)]
pub struct ImageSize {
    pub width: u32,
    pub height: u32,
}

/// Where an image lies in the texture atlas, in fixed-point texture units.
#[derive(Clone, Copy, Debug, PartialEq, Eq, Structural)]
pub struct TexBounds {
    pub left: i64,
    pub top: i64,
    pub right: i64,
    pub bottom: i64,
}

/// An image of the texture atlas: its pixel size and its atlas region.
#[derive(Clone, Copy, Debug, PartialEq, Eq, Structural)]
pub struct Pic {
    pub size: ImageSize,
    pub bounds: TexBounds,
}

/// One vertex of a sprite quad.
#[derive(Clone, Copy, Debug, PartialEq, Eq, Structural)]
pub struct PictureVertex {
    pub position: Point,
    pub tex_coord: Point,
    pub tex_bounds: TexBounds,
    pub clip: i64,
}

/// Horizontal component of the unit-square corner `i`, in the corner order
/// (0,0), (1,0), (1,1), (0,1).
pub open spec fn dir_x(i: int) -> int {
    if i == 1 || i == 2 {
        1
    } else {
        0
    }
}

/// Vertical component of the unit-square corner `i`.
pub open spec fn dir_y(i: int) -> int {
    if i == 2 || i == 3 {
        1
    } else {
        0
    }
}

/// The unit-square corner `i` as a vector of zeros and ones.
pub fn vec_dir(i: usize) -> (d: Point)
    requires
        i < 4,
    ensures
        d.x == dir_x(i as int),
        d.y == dir_y(i as int),
{
    if i == 0 {
        Point { x: 0, y: 0 }
    } else if i == 1 {
        Point { x: 1, y: 0 }
    } else if i == 2 {
        Point { x: 1, y: 1 }
    } else {
        Point { x: 0, y: 1 }
    }
}

/// A length of `px` image pixels in fixed-point world units, rounded down.
pub open spec fn pixels_to_world(px: int) -> int {
    px * (FIXED_ONE as int) * (PIXELS_PER_UNIT_DEN as int) / (PIXELS_PER_UNIT_NUM as int)
}

/// Corner `i` of the quad that shows `pic` with its top-left corner at
/// `position`: pixel rows go down while world y goes up.
pub open spec fn image_vertex(pic: Pic, position: Point, clip: ClipTag, i: int) -> PictureVertex {
    PictureVertex {
        position: Point {
            x: (position.x + dir_x(i) * pixels_to_world(pic.size.width as int)) as i64,
            y: (position.y - dir_y(i) * pixels_to_world(pic.size.height as int)) as i64,
        },
        tex_coord: Point { x: (dir_x(i) * FIXED_ONE) as i64, y: (dir_y(i) * FIXED_ONE) as i64 },
        tex_bounds: pic.bounds,
        clip: clip_bias(clip),
    }
}

/// The four vertices of the quad that shows `pic` at `position`.
pub open spec fn image_quad(pic: Pic, position: Point, clip: ClipTag) -> Seq<PictureVertex> {
    seq![
        image_vertex(pic, position, clip, 0),
        image_vertex(pic, position, clip, 1),
        image_vertex(pic, position, clip, 2),
        image_vertex(pic, position, clip, 3),
    ]
}

/// Which corner of its quad the index at slot `s` (of six) names: the two
/// triangles are (0, 1, 2) and (0, 2, 3).
pub open spec fn slot_corner(s: int) -> int {
    if s == 0 || s == 3 {
        0
    } else if s == 1 {
        1
    } else if s == 2 || s == 4 {
        2
    } else {
        3
    }
}

/// `vertices` with the positions of the four vertices from `offset` on
/// replaced by `corners`, every other field and vertex kept.
pub open spec fn with_positions(
    vertices: Seq<PictureVertex>,
    offset: int,
    corners: Seq<Point>,
) -> Seq<PictureVertex> {
    Seq::new(
        vertices.len(),
        |k: int|
            if offset <= k < offset + 4 {
                PictureVertex { position: corners[k - offset], ..vertices[k] }
            } else {
                vertices[k]
            },
    )
}

/// `vertices` with the texture coordinates of the four vertices from
/// `offset` on replaced by `coords`, every other field and vertex kept.
pub open spec fn with_tex_coords(
    vertices: Seq<PictureVertex>,
    offset: int,
    coords: Seq<Point>,
) -> Seq<PictureVertex> {
    Seq::new(
        vertices.len(),
        |k: int|
            if offset <= k < offset + 4 {
                PictureVertex { tex_coord: coords[k - offset], ..vertices[k] }
            } else {
                vertices[k]
            },
    )
}

/// Names a quad of a `Scene` by the offset of its first vertex.
#[derive(Clone, Copy, Debug, PartialEq, Eq)]
pub struct QuadHandle {
    offset: usize,
}

impl View for QuadHandle {
    type V = nat;

    closed spec fn view(&self) -> nat {
        self.offset as nat
    }
}

impl QuadHandle {
    /// The offset of the quad's first vertex.
    pub fn offset(&self) -> (r: usize)
        ensures
            r == self@,
    {
        self.offset
    }
}

/// A buffer of sprite quads: four vertices and six indices each, appended
/// once and then rewritten in place through their handles.
pub struct Scene {
    vertices: Vec<PictureVertex>,
    indices: Vec<u32>,
}

impl View for Scene {
    type V = (Seq<PictureVertex>, Seq<u32>);

    closed spec fn view(&self) -> (Seq<PictureVertex>, Seq<u32>) {
        (self.vertices@, self.indices@)
    }
}

impl Scene {
    /// Whole quads only, and each quad's six indices name its own vertices.
    pub open spec fn wf(&self) -> bool {
        let (v, ix) = self@;
        &&& v.len() % 4 == 0
        &&& v.len() <= MAX_VERTICES
        &&& ix.len() * 2 == v.len() * 3
        &&& forall|k: int| 0 <= k < ix.len() ==> ix[k] == 4 * (k / 6) + slot_corner(k % 6)
    }

    /// Whether `h` names the first vertex of a quad of this scene.
    pub open spec fn holds(&self, h: QuadHandle) -> bool {
        h@ % 4 == 0 && h@ + 4 <= self@.0.len()
    }

    /// An empty scene.
    pub fn new() -> (r: Scene)
        ensures
            r.wf(),
            r@.0.len() == 0,
            r@.1.len() == 0,
    {
        Scene { vertices: Vec::new(), indices: Vec::new() }
    }

    /// The vertices, four per quad.
    pub fn vertices(&self) -> (r: &Vec<PictureVertex>)
        ensures
            r@ == self@.0,
    {
        &self.vertices
    }

    /// The indices, six per quad.
    pub fn indices(&self) -> (r: &Vec<u32>)
        ensures
            r@ == self@.1,
    {
        &self.indices
    }

    /// Number of vertices.
    pub fn vertex_count(&self) -> (r: usize)
        ensures
            r == self@.0.len(),
    {
        self.vertices.len()
    }

    /// Number of indices.
    pub fn index_count(&self) -> (r: usize)
        ensures
            r == self@.1.len(),
    {
        self.indices.len()
    }

    /// Appends the quad that shows `pic` with its top-left corner at
    /// `position`, and returns its handle.
    pub fn add_image(&mut self, pic: &Pic, position: Point, clip: ClipTag) -> (h: QuadHandle)
        requires
            old(self).wf(),
            old(self)@.0.len() + 4 <= MAX_VERTICES,
            point_in_range(position),
        ensures
            final(self).wf(),
            h@ == old(self)@.0.len(),
            final(self).holds(h),
            final(self)@.0 == old(self)@.0 + image_quad(*pic, position, clip),
            final(self)@.1 == old(self)@.1 + seq![
                h@ as u32,
                (h@ + 1) as u32,
                (h@ + 2) as u32,
                h@ as u32,
                (h@ + 2) as u32,
                (h@ + 3) as u32,
            ],
    {
        let base = self.vertices.len();
        let v = base as u32;
        let width = pic.size.width as i64 * FIXED_ONE * PIXELS_PER_UNIT_DEN / PIXELS_PER_UNIT_NUM;
        let height = pic.size.height as i64 * FIXED_ONE * PIXELS_PER_UNIT_DEN
            / PIXELS_PER_UNIT_NUM;
        let bias = clip.bias();
        proof {
            vstd::arithmetic::div_mod::lemma_div_is_ordered(
                pic.size.width as int * FIXED_ONE * PIXELS_PER_UNIT_DEN,
                4294967296 * FIXED_ONE * PIXELS_PER_UNIT_DEN,
                PIXELS_PER_UNIT_NUM as int,
            );
            vstd::arithmetic::div_mod::lemma_div_is_ordered(
                pic.size.height as int * FIXED_ONE * PIXELS_PER_UNIT_DEN,
                4294967296 * FIXED_ONE * PIXELS_PER_UNIT_DEN,
                PIXELS_PER_UNIT_NUM as int,
            );
            assert(0 <= width <= 4294967296 * FIXED_ONE * PIXELS_PER_UNIT_DEN / 95);
            assert(0 <= height <= 4294967296 * FIXED_ONE * PIXELS_PER_UNIT_DEN / 95);
        }
        let mut i: usize = 0;
        while i < 4
            invariant
                0 <= i <= 4,
                base == old(self)@.0.len(),
                self.indices@ == old(self)@.1,
                width == pixels_to_world(pic.size.width as int),
                height == pixels_to_world(pic.size.height as int),
                0 <= width <= 4294967296 * FIXED_ONE * PIXELS_PER_UNIT_DEN / 95,
                0 <= height <= 4294967296 * FIXED_ONE * PIXELS_PER_UNIT_DEN / 95,
                bias == clip_bias(clip),
                point_in_range(position),
                self.vertices@ == old(self)@.0 + Seq::new(
                    i as nat,
                    |j: int| image_vertex(*pic, position, clip, j),
                ),
            decreases 4 - i,
        {
            let d = vec_dir(i);
            proof {
                assert(0 <= d.x * width <= width) by (nonlinear_arith)
                    requires
                        0 <= d.x <= 1,
                        width >= 0,
                ;
                assert(0 <= d.y * height <= height) by (nonlinear_arith)
                    requires
                        0 <= d.y <= 1,
                        height >= 0,
                ;
            }
            let vertex = PictureVertex {
                position: Point { x: position.x + d.x * width, y: position.y - d.y * height },
                tex_coord: Point { x: d.x * FIXED_ONE, y: d.y * FIXED_ONE },
                tex_bounds: pic.bounds,
                clip: bias,
            };
            self.vertices.push(vertex);
            i = i + 1;
            proof {
                assert(self.vertices@ =~= old(self)@.0 + Seq::new(
                    i as nat,
                    |j: int| image_vertex(*pic, position, clip, j),
                ));
            }
        }
        self.indices.push(v);
        self.indices.push(v + 1);
        self.indices.push(v + 2);
        self.indices.push(v);
        self.indices.push(v + 2);
        self.indices.push(v + 3);
        proof {
            let q = base as int / 4;
            let old_ix = old(self)@.1;
            assert(old_ix.len() == 6 * q);
            assert forall|k: int| 0 <= k < self.indices@.len() implies self.indices@[k] == 4 * (k
                / 6) + slot_corner(k % 6) by {
                if k >= old_ix.len() {
                    lemma_slot_of(q, k - 6 * q);
                }
            }
            assert(self.vertices@ =~= old(self)@.0 + image_quad(*pic, position, clip));
        }
        QuadHandle { offset: base }
    }
}

impl Scene {
    /// Sets the positions of the quad at `h` to `corners`, in the corner
    /// order (0,0), (1,0), (1,1), (0,1); nothing else changes.
    pub fn rewrite_quad_positions(&mut self, h: QuadHandle, corners: [Point; 4])
        requires
            old(self).wf(),
            old(self).holds(h),
        ensures
            final(self).wf(),
            final(self)@.0 == with_positions(old(self)@.0, h@ as int, corners@),
            final(self)@.1 == old(self)@.1,
    {
        let ghost start = old(self)@.0;
        let ghost off = h@ as int;
        let mut i: usize = 0;
        while i < 4
            invariant
                0 <= i <= 4,
                off == h.offset,
                off % 4 == 0,
                off + 4 <= start.len(),
                start == old(self)@.0,
                self.indices@ == old(self)@.1,
                self.vertices@.len() == start.len(),
                forall|k: int|
                    0 <= k < start.len() && !(off <= k < off + i) ==> self.vertices@[k]
                        == start[k],
                forall|k: int|
                    off <= k < off + i ==> self.vertices@[k] == (PictureVertex {
                        position: corners@[k - off],
                        ..start[k]
                    }),
            decreases 4 - i,
        {
            let k = h.offset + i;
            let mut vertex = self.vertices[k];
            vertex.position = corners[i];
            self.vertices.set(k, vertex);
            i = i + 1;
        }
        proof {
            assert(self.vertices@ =~= with_positions(start, off, corners@));
        }
    }
}

impl Scene {
    /// Sets the texture coordinates of the quad at `h` to `coords`, in the
    /// corner order (0,0), (1,0), (1,1), (0,1); nothing else changes.
    pub fn rewrite_quad_texcoords(&mut self, h: QuadHandle, coords: [Point; 4])
        requires
            old(self).wf(),
            old(self).holds(h),
        ensures
            final(self).wf(),
            final(self)@.0 == with_tex_coords(old(self)@.0, h@ as int, coords@),
            final(self)@.1 == old(self)@.1,
    {
        let ghost start = old(self)@.0;
        let ghost off = h@ as int;
        let mut i: usize = 0;
        while i < 4
            invariant
                0 <= i <= 4,
                off == h.offset,
                off % 4 == 0,
                off + 4 <= start.len(),
                start == old(self)@.0,
                self.indices@ == old(self)@.1,
                self.vertices@.len() == start.len(),
                forall|k: int|
                    0 <= k < start.len() && !(off <= k < off + i) ==> self.vertices@[k]
                        == start[k],
                forall|k: int|
                    off <= k < off + i ==> self.vertices@[k] == (PictureVertex {
                        tex_coord: coords@[k - off],
                        ..start[k]
                    }),
            decreases 4 - i,
        {
            let k = h.offset + i;
            let mut vertex = self.vertices[k];
            vertex.tex_coord = coords[i];
            self.vertices.set(k, vertex);
            i = i + 1;
        }
        proof {
            assert(self.vertices@ =~= with_tex_coords(start, off, coords@));
        }
    }
}

/// Every well-formed scene holds whole quads: its vertex count is a multiple
/// of four, it has three indices for every two vertices, and every index
/// names one of its vertices.
pub proof fn lemma_scene_shape(s: &Scene)
    requires
        s.wf(),
    ensures
        s@.0.len() % 4 == 0,
        2 * s@.1.len() == 3 * s@.0.len(),
        forall|k: int| 0 <= k < s@.1.len() ==> s@.1[k] < s@.0.len(),
{
    assert forall|k: int| 0 <= k < s@.1.len() implies s@.1[k] < s@.0.len() by {
        let q = s@.0.len() as int / 4;
        vstd::arithmetic::div_mod::lemma_fundamental_div_mod(s@.0.len() as int, 4);
        vstd::arithmetic::div_mod::lemma_fundamental_div_mod(k, 6);
        assert(k / 6 < q) by (nonlinear_arith)
            requires
                k == 6 * (k / 6) + k % 6,
                0 <= k % 6 < 6,
                k < 6 * q,
        ;
    }
}

/// A position rewrite of the quad at `offset` puts the four new positions at
/// `offset .. offset + 3` in order, keeps the texture coordinate, bounds and
/// clip bias of those vertices, and leaves every other vertex as it was.
pub proof fn lemma_position_rewrite_fields(
    vertices: Seq<PictureVertex>,
    offset: int,
    corners: Seq<Point>,
)
    requires
        0 <= offset,
        offset + 4 <= vertices.len(),
        corners.len() == 4,
    ensures
        with_positions(vertices, offset, corners).len() == vertices.len(),
        forall|j: int|
            #![trigger corners[j]]
            0 <= j < 4 ==> {
                let w = with_positions(vertices, offset, corners)[offset + j];
                &&& w.position == corners[j]
                &&& w.tex_coord == vertices[offset + j].tex_coord
                &&& w.tex_bounds == vertices[offset + j].tex_bounds
                &&& w.clip == vertices[offset + j].clip
            },
        forall|k: int|
            0 <= k < vertices.len() && !(offset <= k < offset + 4) ==> with_positions(
                vertices,
                offset,
                corners,
            )[k] == vertices[k],
{
}

/// Rewriting the positions of a quad twice with the same corners leaves the
/// same vertices as rewriting them once.
pub proof fn lemma_position_rewrite_idempotent(
    vertices: Seq<PictureVertex>,
    offset: int,
    corners: Seq<Point>,
)
    ensures
        with_positions(with_positions(vertices, offset, corners), offset, corners)
            == with_positions(vertices, offset, corners),
{
    assert(with_positions(with_positions(vertices, offset, corners), offset, corners)
        =~= with_positions(vertices, offset, corners));
}

/// The index at position `6 * q + s` lies in quad `q`, slot `s`.
proof fn lemma_slot_of(q: int, s: int)
    requires
        0 <= s < 6,
    ensures
        (6 * q + s) / 6 == q,
        (6 * q + s) % 6 == s,
{
    vstd::arithmetic::div_mod::lemma_fundamental_div_mod_converse(6 * q + s, 6, q, s);
}

} // verus!
