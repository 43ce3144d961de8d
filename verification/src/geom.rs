//! Fixed-point quad geometry.
//!
//! World coordinates are integers: one coordinate unit corresponds to one
//! texture pixel, which the renderer maps to world space at a fixed scale of
//! one hundredth of a world unit per pixel.  An image is an axis-aligned quad
//! of two triangles (six vertices) in the winding order BL, BR, TL, BR, TR, TL
//! with a (0,0)-(1,1) UV mapping.  Rotations are given as a cosine/sine pair
//! in fixed point, scaled by [`ROT_ONE`].

use vstd::prelude::*;

verus! {

/// Largest magnitude a stored vertex coordinate may have.  Keeping every
/// coordinate within this bound lets all intermediate arithmetic be carried
/// out exactly in `i128`.
pub const MAX_COORD: i64 = 0x1_0000_0000_0000;

/// Fixed-point scale of rotation coefficients: a rotation by angle `a` is
/// represented by `(cos(a), sin(a))`, both multiplied by `ROT_ONE`.
pub const ROT_ONE: i64 = 65536;

/// `2 * ROT_ONE`, the divisor of the rotation formula (the pivot is stored
/// doubled, so the numerators carry an extra factor of two).
pub const TWO_ROT: i64 = 131072;

/// A position in world space, in coordinate units.
#[derive(Clone, Copy, PartialEq, Eq, Structural, Debug)]
pub struct Point3 {
    pub x: i64,
    pub y: i64,
    pub z: i64,
}

/// A texture coordinate; each component is 0 or 1 on a quad corner.
#[derive(Clone, Copy, PartialEq, Eq, Structural, Debug)]
pub struct Uv {
    pub u: u8,
    pub v: u8,
}

/// One vertex of a quad: a world position and a texture coordinate.
#[derive(Clone, Copy, PartialEq, Eq, Structural, Debug)]
pub struct Vertex {
    pub pos: Point3,
    pub uv: Uv,
}

/// A rotation about the z-axis, as a fixed-point cosine/sine pair.  A pair
/// obtained from an angle `a` holds `cos = round(cos(a) * ROT_ONE)` and
/// `sin = round(sin(a) * ROT_ONE)`.
#[derive(Clone, Copy, PartialEq, Eq, Structural, Debug)]
pub struct Rotation {
    pub cos: i64,
    pub sin: i64,
}

impl Rotation {
    /// Whether the coefficients are within the fixed-point scale.
    pub open spec fn wf(self) -> bool {
        -ROT_ONE <= self.cos <= ROT_ONE && -ROT_ONE <= self.sin <= ROT_ONE
    }

    /// The rotation by angle zero.
    pub fn identity() -> (r: Rotation)
        ensures
            r.cos == ROT_ONE,
            r.sin == 0,
            r.wf(),
    {
        Rotation { cos: ROT_ONE, sin: 0 }
    }

    /// The inverse rotation (rotation by the negated angle).
    pub fn inverse(&self) -> (r: Rotation)
        requires
            self.wf(),
        ensures
            r.cos == self.cos,
            r.sin == -self.sin,
            r.wf(),
    {
        Rotation { cos: self.cos, sin: -self.sin }
    }
}

/// Whether a coordinate is within the representable world range.
pub open spec fn coord_ok(c: int) -> bool {
    -MAX_COORD <= c <= MAX_COORD
}

/// Whether every coordinate of a point is within the world range.
pub open spec fn point_ok(p: Point3) -> bool {
    coord_ok(p.x as int) && coord_ok(p.y as int) && coord_ok(p.z as int)
}

/// Whether a point may serve as a doubled pivot: its coordinates are sums of
/// two in-range coordinates.
pub open spec fn origin2_ok(p: Point3) -> bool {
    -2 * MAX_COORD <= p.x <= 2 * MAX_COORD && -2 * MAX_COORD <= p.y <= 2 * MAX_COORD && -2
        * MAX_COORD <= p.z <= 2 * MAX_COORD
}

/// The position of vertex `i` of the axis-aligned quad anchored at
/// `(x, y, z)` with width `w` and height `h`, in the fixed winding order
/// BL, BR, TL, BR, TR, TL.
pub open spec fn quad_pos(x: int, y: int, z: int, w: int, h: int, i: int) -> Point3
    recommends
        0 <= i < 6,
{
    if i == 0 {
        Point3 { x: x as i64, y: y as i64, z: z as i64 }
    } else if i == 1 {
        Point3 { x: (x + w) as i64, y: y as i64, z: z as i64 }
    } else if i == 2 {
        Point3 { x: x as i64, y: (y + h) as i64, z: z as i64 }
    } else if i == 3 {
        Point3 { x: (x + w) as i64, y: y as i64, z: z as i64 }
    } else if i == 4 {
        Point3 { x: (x + w) as i64, y: (y + h) as i64, z: z as i64 }
    } else {
        Point3 { x: x as i64, y: (y + h) as i64, z: z as i64 }
    }
}

/// The texture coordinate of vertex `i` of a quad: the UV mapping runs from
/// (0,0) at the top-left to (1,1) at the bottom-right corner.
pub open spec fn quad_uv(i: int) -> Uv
    recommends
        0 <= i < 6,
{
    if i == 0 {
        Uv { u: 0, v: 1 }
    } else if i == 1 {
        Uv { u: 1, v: 1 }
    } else if i == 2 {
        Uv { u: 0, v: 0 }
    } else if i == 3 {
        Uv { u: 1, v: 1 }
    } else if i == 4 {
        Uv { u: 1, v: 0 }
    } else {
        Uv { u: 0, v: 0 }
    }
}

/// Whether a quad anchored at `(x, y, z)` with extent `w` by `h` lies wholly
/// within the representable world range.
pub open spec fn quad_in_bounds(x: int, y: int, z: int, w: int, h: int) -> bool {
    coord_ok(x) && coord_ok(y) && coord_ok(z) && coord_ok(x + w) && coord_ok(y + h)
}

/// Whether `vs` is exactly the six-vertex quad anchored at `(x, y, z)` with
/// extent `w` by `h`, carrying the standard UV pattern.
pub open spec fn is_quad(vs: Seq<Vertex>, x: int, y: int, z: int, w: int, h: int) -> bool {
    vs.len() == 6 && forall|i: int|
        0 <= i < 6 ==> vs[i] == (Vertex { pos: quad_pos(x, y, z, w, h, i), uv: quad_uv(i) })
}

/// Whether every vertex of `vs` has in-range coordinates and the standard
/// quad UV pattern.
pub open spec fn vertices_ok(vs: Seq<Vertex>) -> bool {
    vs.len() == 6 && forall|i: int| 0 <= i < 6 ==> point_ok(#[trigger] vs[i].pos) && vs[i].uv
        == quad_uv(i)
}

/// Builds the six vertices of the axis-aligned quad anchored at `(x, y, z)`
/// with width `w` and height `h` pixels, or reports that the quad leaves the
/// representable world range.
pub fn build_quad(x: i64, y: i64, z: i64, w: u32, h: u32) -> (r: Option<Vec<Vertex>>)
    ensures
        match r {
            Some(vs) => quad_in_bounds(x as int, y as int, z as int, w as int, h as int)
                && is_quad(vs@, x as int, y as int, z as int, w as int, h as int) && vertices_ok(
                vs@,
            ),
            None => !quad_in_bounds(x as int, y as int, z as int, w as int, h as int),
        },
{
    let wi: i64 = w as i64;
    let hi: i64 = h as i64;
    if x < -MAX_COORD || x > MAX_COORD - wi || y < -MAX_COORD || y > MAX_COORD - hi || z
        < -MAX_COORD || z > MAX_COORD {
        return None;
    }
    let mut vs: Vec<Vertex> = Vec::new();
    vs.push(Vertex { pos: Point3 { x, y, z }, uv: Uv { u: 0, v: 1 } });
    vs.push(Vertex { pos: Point3 { x: x + wi, y, z }, uv: Uv { u: 1, v: 1 } });
    vs.push(Vertex { pos: Point3 { x, y: y + hi, z }, uv: Uv { u: 0, v: 0 } });
    vs.push(Vertex { pos: Point3 { x: x + wi, y, z }, uv: Uv { u: 1, v: 1 } });
    vs.push(Vertex { pos: Point3 { x: x + wi, y: y + hi, z }, uv: Uv { u: 1, v: 0 } });
    vs.push(Vertex { pos: Point3 { x, y: y + hi, z }, uv: Uv { u: 0, v: 0 } });
    Some(vs)
}

/// The doubled centroid of the quad anchored at `(x, y, z)` with extent
/// `w` by `h`: twice the average of its corner positions.
pub open spec fn quad_origin2(x: int, y: int, z: int, w: int, h: int) -> Point3 {
    Point3 { x: (2 * x + w) as i64, y: (2 * y + h) as i64, z: (2 * z) as i64 }
}

/// The position of `p` translated so that the anchor `a` lands on
/// `(x, y, z)`, one coordinate per component.
pub open spec fn translated_x(p: Point3, a: Point3, x: int) -> int {
    x + p.x - a.x
}

pub open spec fn translated_y(p: Point3, a: Point3, y: int) -> int {
    y + p.y - a.y
}

pub open spec fn translated_z(p: Point3, a: Point3, z: int) -> int {
    z + p.z - a.z
}

/// Whether translating every vertex of `vs` so that the position of its
/// first vertex lands on `(x, y, z)` keeps all coordinates in range.
pub open spec fn translation_in_bounds(vs: Seq<Vertex>, x: int, y: int, z: int) -> bool
    recommends
        vs.len() == 6,
{
    forall|i: int|
        0 <= i < 6 ==> coord_ok(translated_x(#[trigger] vs[i].pos, vs[0].pos, x)) && coord_ok(
            translated_y(vs[i].pos, vs[0].pos, y),
        ) && coord_ok(translated_z(vs[i].pos, vs[0].pos, z))
}

/// Whether `nvs` is `vs` translated so that the position of the first vertex
/// of `vs` lands on `(x, y, z)`; texture coordinates are kept.
pub open spec fn is_translated(nvs: Seq<Vertex>, vs: Seq<Vertex>, x: int, y: int, z: int) -> bool {
    nvs.len() == 6 && vs.len() == 6 && forall|i: int|
        0 <= i < 6 ==> (#[trigger] nvs[i]).pos.x == translated_x(vs[i].pos, vs[0].pos, x)
            && nvs[i].pos.y == translated_y(vs[i].pos, vs[0].pos, y) && nvs[i].pos.z
            == translated_z(vs[i].pos, vs[0].pos, z) && nvs[i].uv == vs[i].uv
}

/// Translates the six vertices so that the first vertex's position (the
/// anchor) lands on `(x, y, z)`, preserving the quad's shape, or reports
/// that the result leaves the representable world range.
pub fn translate_vertices(vs: &Vec<Vertex>, x: i64, y: i64, z: i64) -> (r: Option<Vec<Vertex>>)
    requires
        vertices_ok(vs@),
    ensures
        r is Some <==> translation_in_bounds(vs@, x as int, y as int, z as int),
        r matches Some(nvs) ==> is_translated(nvs@, vs@, x as int, y as int, z as int)
            && vertices_ok(nvs@),
{
    let ax: i64 = vs[0].pos.x;
    let ay: i64 = vs[0].pos.y;
    let az: i64 = vs[0].pos.z;
    let mut nvs: Vec<Vertex> = Vec::new();
    let mut i: usize = 0;
    while i < 6
        invariant
            vertices_ok(vs@),
            0 <= i <= 6,
            nvs@.len() == i,
            ax == vs@[0].pos.x && ay == vs@[0].pos.y && az == vs@[0].pos.z,
            forall|j: int|
                0 <= j < i ==> coord_ok(translated_x(#[trigger] vs@[j].pos, vs@[0].pos, x as int))
                    && coord_ok(translated_y(vs@[j].pos, vs@[0].pos, y as int)) && coord_ok(
                    translated_z(vs@[j].pos, vs@[0].pos, z as int),
                ),
            forall|j: int|
                0 <= j < i ==> (#[trigger] nvs@[j]).pos.x == translated_x(
                    vs@[j].pos,
                    vs@[0].pos,
                    x as int,
                ) && nvs@[j].pos.y == translated_y(vs@[j].pos, vs@[0].pos, y as int)
                    && nvs@[j].pos.z == translated_z(vs@[j].pos, vs@[0].pos, z as int) && nvs@[j].uv
                    == vs@[j].uv,
        decreases 6 - i,
    {
        let v = vs[i];
        let nx: i128 = x as i128 + v.pos.x as i128 - ax as i128;
        let ny: i128 = y as i128 + v.pos.y as i128 - ay as i128;
        let nz: i128 = z as i128 + v.pos.z as i128 - az as i128;
        if nx < -MAX_COORD as i128 || nx > MAX_COORD as i128 || ny < -MAX_COORD as i128 || ny
            > MAX_COORD as i128 || nz < -MAX_COORD as i128 || nz > MAX_COORD as i128 {
            return None;
        }
        nvs.push(
            Vertex { pos: Point3 { x: nx as i64, y: ny as i64, z: nz as i64 }, uv: v.uv },
        );
        i = i + 1;
    }
    Some(nvs)
}

/// Integer division truncating toward zero, for a positive divisor; this is
/// the rounding the machine's signed division performs.
pub open spec fn div_trunc(a: int, d: int) -> int
    recommends
        d > 0,
{
    if a >= 0 {
        a / d
    } else {
        -((-a) / d)
    }
}

/// The x numerator of the rotation formula: rotating `p` by the pair
/// `(c, s)` about the pivot `o2 / 2` and scaling by `TWO_ROT`.
pub open spec fn rot_num_x(c: int, s: int, o2: Point3, p: Point3) -> int {
    o2.x * ROT_ONE + c * (2 * p.x - o2.x) - s * (2 * p.y - o2.y)
}

/// The y numerator of the rotation formula.
pub open spec fn rot_num_y(c: int, s: int, o2: Point3, p: Point3) -> int {
    o2.y * ROT_ONE + s * (2 * p.x - o2.x) + c * (2 * p.y - o2.y)
}

/// The x coordinate of `p` rotated by `(c, s)` about the pivot `o2 / 2`.
pub open spec fn rotated_x(c: int, s: int, o2: Point3, p: Point3) -> int {
    div_trunc(rot_num_x(c, s, o2, p), TWO_ROT as int)
}

/// The y coordinate of `p` rotated by `(c, s)` about the pivot `o2 / 2`.
pub open spec fn rotated_y(c: int, s: int, o2: Point3, p: Point3) -> int {
    div_trunc(rot_num_y(c, s, o2, p), TWO_ROT as int)
}

/// Whether rotating every vertex of `vs` by `rot` about the pivot `o2 / 2`
/// keeps all coordinates in range.
pub open spec fn rotation_in_bounds(vs: Seq<Vertex>, o2: Point3, rot: Rotation) -> bool
    recommends
        vs.len() == 6,
{
    forall|i: int|
        0 <= i < 6 ==> coord_ok(rotated_x(rot.cos as int, rot.sin as int, o2, (#[trigger] vs[i]).pos))
            && coord_ok(rotated_y(rot.cos as int, rot.sin as int, o2, vs[i].pos))
}

/// Whether `nvs` is `vs` with every position rotated by `rot` about the
/// pivot `o2 / 2`; z coordinates and texture coordinates are kept.
pub open spec fn is_rotated(nvs: Seq<Vertex>, vs: Seq<Vertex>, o2: Point3, rot: Rotation) -> bool {
    nvs.len() == 6 && vs.len() == 6 && forall|i: int|
        0 <= i < 6 ==> (#[trigger] nvs[i]).pos.x == rotated_x(
            rot.cos as int,
            rot.sin as int,
            o2,
            vs[i].pos,
        ) && nvs[i].pos.y == rotated_y(rot.cos as int, rot.sin as int, o2, vs[i].pos)
            && nvs[i].pos.z == vs[i].pos.z && nvs[i].uv == vs[i].uv
}

/// Bounds on the terms and the total of the rotation numerators, given
/// in-range inputs.
proof fn lemma_rot_num_bound(c: int, s: int, o2: Point3, p: Point3)
    requires
        -ROT_ONE <= c <= ROT_ONE,
        -ROT_ONE <= s <= ROT_ONE,
        origin2_ok(o2),
        point_ok(p),
    ensures
        -0x4_0000_0000_0000_0000 <= c * (2 * p.x - o2.x) <= 0x4_0000_0000_0000_0000,
        -0x4_0000_0000_0000_0000 <= c * (2 * p.y - o2.y) <= 0x4_0000_0000_0000_0000,
        -0x4_0000_0000_0000_0000 <= s * (2 * p.x - o2.x) <= 0x4_0000_0000_0000_0000,
        -0x4_0000_0000_0000_0000 <= s * (2 * p.y - o2.y) <= 0x4_0000_0000_0000_0000,
        -0x2_0000_0000_0000_0000 <= o2.x * ROT_ONE <= 0x2_0000_0000_0000_0000,
        -0x2_0000_0000_0000_0000 <= o2.y * ROT_ONE <= 0x2_0000_0000_0000_0000,
        -0x10_0000_0000_0000_0000 <= rot_num_x(c, s, o2, p) <= 0x10_0000_0000_0000_0000,
        -0x10_0000_0000_0000_0000 <= rot_num_y(c, s, o2, p) <= 0x10_0000_0000_0000_0000,
{
    let dx = 2 * (p.x as int) - o2.x;
    let dy = 2 * (p.y as int) - o2.y;
    assert(-0x4_0000_0000_0000 <= dx <= 0x4_0000_0000_0000);
    assert(-0x4_0000_0000_0000 <= dy <= 0x4_0000_0000_0000);
    assert(-0x4_0000_0000_0000_0000 <= c * dx <= 0x4_0000_0000_0000_0000) by (nonlinear_arith)
        requires
            -0x1_0000 <= c <= 0x1_0000,
            -0x4_0000_0000_0000 <= dx <= 0x4_0000_0000_0000,
    ;
    assert(-0x4_0000_0000_0000_0000 <= c * dy <= 0x4_0000_0000_0000_0000) by (nonlinear_arith)
        requires
            -0x1_0000 <= c <= 0x1_0000,
            -0x4_0000_0000_0000 <= dy <= 0x4_0000_0000_0000,
    ;
    assert(-0x4_0000_0000_0000_0000 <= s * dx <= 0x4_0000_0000_0000_0000) by (nonlinear_arith)
        requires
            -0x1_0000 <= s <= 0x1_0000,
            -0x4_0000_0000_0000 <= dx <= 0x4_0000_0000_0000,
    ;
    assert(-0x4_0000_0000_0000_0000 <= s * dy <= 0x4_0000_0000_0000_0000) by (nonlinear_arith)
        requires
            -0x1_0000 <= s <= 0x1_0000,
            -0x4_0000_0000_0000 <= dy <= 0x4_0000_0000_0000,
    ;
    assert(-0x2_0000_0000_0000_0000 <= o2.x * ROT_ONE <= 0x2_0000_0000_0000_0000)
        by (nonlinear_arith)
        requires
            -0x2_0000_0000_0000 <= o2.x <= 0x2_0000_0000_0000,
            ROT_ONE == 65536,
    ;
    assert(-0x2_0000_0000_0000_0000 <= o2.y * ROT_ONE <= 0x2_0000_0000_0000_0000)
        by (nonlinear_arith)
        requires
            -0x2_0000_0000_0000 <= o2.y <= 0x2_0000_0000_0000,
            ROT_ONE == 65536,
    ;
}

/// The magnitude of a truncating quotient is at most that of the dividend.
proof fn lemma_div_trunc_bound(a: int, d: int, bound: int)
    requires
        d >= 1,
        -bound <= a <= bound,
        0 <= bound,
    ensures
        -bound <= div_trunc(a, d) <= bound,
{
    if a >= 0 {
        vstd::arithmetic::div_mod::lemma_div_basics_4(a, d);
        vstd::arithmetic::div_mod::lemma_div_basics_5(a, d);
    } else {
        vstd::arithmetic::div_mod::lemma_div_basics_4(-a, d);
        vstd::arithmetic::div_mod::lemma_div_basics_5(-a, d);
    }
}

/// Rotates one vertex by `rot` about the pivot `o2 / 2`, or reports that
/// the rotated position leaves the representable world range.
pub fn rotate_vertex(v: &Vertex, o2: &Point3, rot: &Rotation) -> (r: Option<Vertex>)
    requires
        point_ok(v.pos),
        origin2_ok(*o2),
        rot.wf(),
    ensures
        r is Some <==> coord_ok(rotated_x(rot.cos as int, rot.sin as int, *o2, v.pos)) && coord_ok(
            rotated_y(rot.cos as int, rot.sin as int, *o2, v.pos),
        ),
        r matches Some(nv) ==> nv.pos.x == rotated_x(rot.cos as int, rot.sin as int, *o2, v.pos)
            && nv.pos.y == rotated_y(rot.cos as int, rot.sin as int, *o2, v.pos) && nv.pos.z
            == v.pos.z && nv.uv == v.uv && point_ok(nv.pos),
{
    proof {
        lemma_rot_num_bound(rot.cos as int, rot.sin as int, *o2, v.pos);
    }
    let c: i128 = rot.cos as i128;
    let s: i128 = rot.sin as i128;
    let dx: i128 = 2 * (v.pos.x as i128) - o2.x as i128;
    let dy: i128 = 2 * (v.pos.y as i128) - o2.y as i128;
    let num_x: i128 = o2.x as i128 * ROT_ONE as i128 + c * dx - s * dy;
    let num_y: i128 = o2.y as i128 * ROT_ONE as i128 + s * dx + c * dy;
    proof {
        lemma_div_trunc_bound(num_x as int, TWO_ROT as int, 0x10_0000_0000_0000_0000);
        lemma_div_trunc_bound(num_y as int, TWO_ROT as int, 0x10_0000_0000_0000_0000);
    }
    let qx: i128 = match num_x.checked_div(TWO_ROT as i128) {
        Some(q) => q,
        None => { return None; },
    };
    let qy: i128 = match num_y.checked_div(TWO_ROT as i128) {
        Some(q) => q,
        None => { return None; },
    };
    if qx < -MAX_COORD as i128 || qx > MAX_COORD as i128 || qy < -MAX_COORD as i128 || qy
        > MAX_COORD as i128 {
        return None;
    }
    Some(Vertex { pos: Point3 { x: qx as i64, y: qy as i64, z: v.pos.z }, uv: v.uv })
}

/// Rotates the six vertices by `rot` about the pivot `o2 / 2`, or reports
/// that a rotated position leaves the representable world range.
pub fn rotate_vertices(vs: &Vec<Vertex>, o2: &Point3, rot: &Rotation) -> (r: Option<Vec<Vertex>>)
    requires
        vertices_ok(vs@),
        origin2_ok(*o2),
        rot.wf(),
    ensures
        r is Some <==> rotation_in_bounds(vs@, *o2, *rot),
        r matches Some(nvs) ==> is_rotated(nvs@, vs@, *o2, *rot) && vertices_ok(nvs@),
{
    let mut nvs: Vec<Vertex> = Vec::new();
    let mut i: usize = 0;
    while i < 6
        invariant
            vertices_ok(vs@),
            origin2_ok(*o2),
            rot.wf(),
            0 <= i <= 6,
            nvs@.len() == i,
            forall|j: int|
                0 <= j < i ==> coord_ok(
                    rotated_x(rot.cos as int, rot.sin as int, *o2, (#[trigger] vs@[j]).pos),
                ) && coord_ok(rotated_y(rot.cos as int, rot.sin as int, *o2, vs@[j].pos)),
            forall|j: int|
                0 <= j < i ==> (#[trigger] nvs@[j]).pos.x == rotated_x(
                    rot.cos as int,
                    rot.sin as int,
                    *o2,
                    vs@[j].pos,
                ) && nvs@[j].pos.y == rotated_y(rot.cos as int, rot.sin as int, *o2, vs@[j].pos)
                    && nvs@[j].pos.z == vs@[j].pos.z && nvs@[j].uv == vs@[j].uv,
        decreases 6 - i,
    {
        let v = vs[i];
        match rotate_vertex(&v, o2, rot) {
            Some(nv) => {
                nvs.push(nv);
            },
            None => {
                return None;
            },
        }
        i = i + 1;
    }
    Some(nvs)
}

/// The sum of the x coordinates of the vertex positions of `vs`.
pub open spec fn sum_x(vs: Seq<Vertex>) -> int
    decreases vs.len(),
{
    if vs.len() == 0 {
        0
    } else {
        sum_x(vs.drop_last()) + vs.last().pos.x
    }
}

/// The sum of the y coordinates of the vertex positions of `vs`.
pub open spec fn sum_y(vs: Seq<Vertex>) -> int
    decreases vs.len(),
{
    if vs.len() == 0 {
        0
    } else {
        sum_y(vs.drop_last()) + vs.last().pos.y
    }
}

/// The sum of the z coordinates of the vertex positions of `vs`.
pub open spec fn sum_z(vs: Seq<Vertex>) -> int
    decreases vs.len(),
{
    if vs.len() == 0 {
        0
    } else {
        sum_z(vs.drop_last()) + vs.last().pos.z
    }
}

/// Translating a quad moves it whole: if `vs` is the quad anchored at
/// `(x0, y0, z0)` and `nvs` translates it so its first vertex lands on
/// `(x, y, z)`, then `nvs` is exactly the quad anchored at `(x, y, z)`.
pub proof fn lemma_translate_quad(
    vs: Seq<Vertex>,
    nvs: Seq<Vertex>,
    x0: int,
    y0: int,
    z0: int,
    w: int,
    h: int,
    x: int,
    y: int,
    z: int,
)
    requires
        is_quad(vs, x0, y0, z0, w, h),
        quad_in_bounds(x0, y0, z0, w, h),
        is_translated(nvs, vs, x, y, z),
        translation_in_bounds(vs, x, y, z),
    ensures
        is_quad(nvs, x, y, z, w, h),
        quad_in_bounds(x, y, z, w, h),
{
    assert(vs[0].pos == quad_pos(x0, y0, z0, w, h, 0));
    assert(coord_ok(translated_x(vs[0].pos, vs[0].pos, x)));
    assert(coord_ok(translated_x(vs[1].pos, vs[0].pos, x)));
    assert(coord_ok(translated_y(vs[2].pos, vs[0].pos, y)));
    assert(coord_ok(translated_z(vs[0].pos, vs[0].pos, z)));
    assert forall|i: int| 0 <= i < 6 implies nvs[i] == (Vertex {
        pos: quad_pos(x, y, z, w, h, i),
        uv: quad_uv(i),
    }) by {
        assert(vs[i] == (Vertex { pos: quad_pos(x0, y0, z0, w, h, i), uv: quad_uv(i) }));
    }
}

/// When the divisor divides the dividend, truncating division is exact.
proof fn lemma_div_trunc_exact(a: int, d: int)
    requires
        d > 0,
        a % d == 0,
    ensures
        d * div_trunc(a, d) == a,
{
    vstd::arithmetic::div_mod::lemma_fundamental_div_mod(a, d);
    let k = a / d;
    if a >= 0 {
        assert(div_trunc(a, d) == k);
    } else {
        assert(-a == d * (-k)) by (nonlinear_arith)
            requires
                a == d * k,
        ;
        vstd::arithmetic::div_mod::lemma_div_multiples_vanish(-k, d);
        assert((-a) / d == -k);
        assert(div_trunc(a, d) == k);
    }
}

/// Truncating division returns an exact multiple's factor.
proof fn lemma_div_trunc_multiple(k: int, d: int)
    requires
        d > 0,
    ensures
        div_trunc(d * k, d) == k,
{
    vstd::arithmetic::div_mod::lemma_div_multiples_vanish(k, d);
    if d * k < 0 {
        assert(-(d * k) == d * (-k)) by (nonlinear_arith);
        vstd::arithmetic::div_mod::lemma_div_multiples_vanish(-k, d);
    }
}

/// A rotation followed by its inverse restores a point exactly, provided
/// the coefficient pair lies exactly on the fixed-point unit circle and
/// the forward rotation's divisions were exact.  (For other pairs and
/// points the round trip is exact only up to the rounding of `div_trunc`.)
pub proof fn lemma_rotate_inverse_point(c: int, s: int, o2: Point3, p: Point3, q: Point3)
    requires
        c * c + s * s == ROT_ONE as int * ROT_ONE as int,
        rot_num_x(c, s, o2, p) % (TWO_ROT as int) == 0,
        rot_num_y(c, s, o2, p) % (TWO_ROT as int) == 0,
        q.x == rotated_x(c, s, o2, p),
        q.y == rotated_y(c, s, o2, p),
    ensures
        rotated_x(c, -s, o2, q) == p.x,
        rotated_y(c, -s, o2, q) == p.y,
{
    let r = ROT_ONE as int;
    let d = TWO_ROT as int;
    let px = p.x as int;
    let py = p.y as int;
    let o2x = o2.x as int;
    let o2y = o2.y as int;
    let dx = 2 * px - o2x;
    let dy = 2 * py - o2y;
    let nx = rot_num_x(c, s, o2, p);
    let ny = rot_num_y(c, s, o2, p);
    lemma_div_trunc_exact(nx, d);
    lemma_div_trunc_exact(ny, d);
    let qx = q.x as int;
    let qy = q.y as int;
    assert(d * qx == nx);
    assert(d * qy == ny);
    assert(r == 65536 && d == 131072);
    let dx2 = 2 * qx - o2x;
    let dy2 = 2 * qy - o2y;
    assert(r * dx2 == c * dx - s * dy);
    assert(r * dy2 == s * dx + c * dy);
    let nx2 = rot_num_x(c, -s, o2, q);
    let ny2 = rot_num_y(c, -s, o2, q);
    assert((-s) * dx2 == -(s * dx2)) by (nonlinear_arith);
    assert((-s) * dy2 == -(s * dy2)) by (nonlinear_arith);
    assert(nx2 == o2x * r + c * dx2 + s * dy2);
    assert(ny2 == o2y * r - s * dx2 + c * dy2);
    // Multiply through by the scale: the mixed terms collapse to
    // (c*c + s*s) times the original offset, which is the scale squared.
    assert(r * (c * dx2) == c * (r * dx2)) by (nonlinear_arith);
    assert(r * (s * dy2) == s * (r * dy2)) by (nonlinear_arith);
    assert(r * (s * dx2) == s * (r * dx2)) by (nonlinear_arith);
    assert(r * (c * dy2) == c * (r * dy2)) by (nonlinear_arith);
    assert(c * (c * dx - s * dy) + s * (s * dx + c * dy) == (c * c + s * s) * dx)
        by (nonlinear_arith);
    assert(c * (s * dx + c * dy) - s * (c * dx - s * dy) == (c * c + s * s) * dy)
        by (nonlinear_arith);
    assert((c * c + s * s) * dx == r * r * dx) by (nonlinear_arith)
        requires
            c * c + s * s == r * r,
    ;
    assert((c * c + s * s) * dy == r * r * dy) by (nonlinear_arith)
        requires
            c * c + s * s == r * r,
    ;
    assert(r * nx2 == r * (o2x * r) + r * (c * dx2) + r * (s * dy2));
    assert(r * ny2 == r * (o2y * r) - r * (s * dx2) + r * (c * dy2));
    assert(r * nx2 == r * (o2x * r) + r * r * dx);
    assert(r * ny2 == r * (o2y * r) + r * r * dy);
    assert(r * (o2x * r) == r * r * o2x) by (nonlinear_arith);
    assert(r * (o2y * r) == r * r * o2y) by (nonlinear_arith);
    assert(r * nx2 == r * r * (2 * px)) by (nonlinear_arith)
        requires
            r * nx2 == r * r * o2x + r * r * dx,
            dx == 2 * px - o2x,
    ;
    assert(r * ny2 == r * r * (2 * py)) by (nonlinear_arith)
        requires
            r * ny2 == r * r * o2y + r * r * dy,
            dy == 2 * py - o2y,
    ;
    assert(nx2 == d * px);
    assert(ny2 == d * py);
    lemma_div_trunc_multiple(px, d);
    lemma_div_trunc_multiple(py, d);
}

/// Rotating by the identity pair `(ROT_ONE, 0)` moves nothing: the fixed
/// point formula returns every coordinate unchanged.
pub proof fn lemma_rotate_identity(o2: Point3, p: Point3)
    requires
        origin2_ok(o2),
        point_ok(p),
    ensures
        rotated_x(ROT_ONE as int, 0, o2, p) == p.x,
        rotated_y(ROT_ONE as int, 0, o2, p) == p.y,
{
    let px = p.x as int;
    let py = p.y as int;
    assert(rot_num_x(ROT_ONE as int, 0, o2, p) == 131072 * px);
    assert(rot_num_y(ROT_ONE as int, 0, o2, p) == 131072 * py);
    vstd::arithmetic::div_mod::lemma_div_multiples_vanish(px, 131072);
    vstd::arithmetic::div_mod::lemma_div_multiples_vanish(-px, 131072);
    vstd::arithmetic::div_mod::lemma_div_multiples_vanish(py, 131072);
    vstd::arithmetic::div_mod::lemma_div_multiples_vanish(-py, 131072);
    assert(131072 * -px == -(131072 * px));
    assert(131072 * -py == -(131072 * py));
}

/// The vertex-position sum of the quad anchored at `(x, y, z)` with extent
/// `w` by `h` is `(6x + 3w, 6y + 3h, 6z)`: the quad's centroid, one sixth of
/// this sum, is `(x + w/2, y + h/2, z)`.
pub proof fn lemma_quad_centroid(vs: Seq<Vertex>, x: int, y: int, z: int, w: int, h: int)
    requires
        is_quad(vs, x, y, z, w, h),
        quad_in_bounds(x, y, z, w, h),
    ensures
        sum_x(vs) == 6 * x + 3 * w,
        sum_y(vs) == 6 * y + 3 * h,
        sum_z(vs) == 6 * z,
{
    reveal_with_fuel(sum_x, 7);
    reveal_with_fuel(sum_y, 7);
    reveal_with_fuel(sum_z, 7);
    let s5 = vs.drop_last();
    let s4 = s5.drop_last();
    let s3 = s4.drop_last();
    let s2 = s3.drop_last();
    let s1 = s2.drop_last();
    let s0 = s1.drop_last();
    assert(s0.len() == 0);
    assert(s1.last() == vs[0]);
    assert(s2.last() == vs[1]);
    assert(s3.last() == vs[2]);
    assert(s4.last() == vs[3]);
    assert(s5.last() == vs[4]);
    assert(vs.last() == vs[5]);
}

} // verus!
