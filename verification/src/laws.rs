//! Laws relating several scene operations, stated and proved once and for
//! all from the operations' contracts.

use vstd::prelude::*;

use crate::geom::{
    is_quad, lemma_quad_centroid, lemma_rotate_identity, lemma_translate_quad, quad_in_bounds,
    sum_x, sum_y, sum_z, Rotation, ROT_ONE,
};
use crate::strmap::{lemma_idx_unique, map_idx};
use crate::types::{GpuAction, SceneError, TextureSource};
use crate::window::{
    add_image_post, load_texture_post, set_position_post, set_rotation_post, set_size_post,
    WindowState, HANDLE_LIMIT,
};

verus! {

/// After creating an image and then setting its position to `(x, y, z)`,
/// the quad is exactly the axis-aligned quad anchored there, and the sum
/// of its six vertex positions is `(6x + 3w, 6y + 3h, 6z)` for its pixel
/// extent `w` by `h`: the centroid, one sixth of that sum, is
/// `(x + w/2, y + h/2, z)`.
pub proof fn lemma_centroid_after_add_and_position(
    w0: WindowState,
    w1: WindowState,
    w2: WindowState,
    name: String,
    path: String,
    x0: i64,
    y0: i64,
    z0: i64,
    src: TextureSource,
    acts1: Vec<GpuAction>,
    x: i64,
    y: i64,
    z: i64,
    acts2: Vec<GpuAction>,
)
    requires
        add_image_post(
            w0,
            w1,
            name,
            path,
            x0,
            y0,
            z0,
            src,
            Result::<Vec<GpuAction>, SceneError>::Ok(acts1),
        ),
        set_position_post(
            w1,
            w2,
            name@,
            x,
            y,
            z,
            Result::<Vec<GpuAction>, SceneError>::Ok(acts2),
        ),
    ensures
        ({
            let idx = map_idx(w1.img_seq(), name@);
            let wpx = w0.resolved_w(path@, src) as int;
            let hpx = w0.resolved_h(path@, src) as int;
            let nvs = w2.img_seq()[idx].1.vertices@;
            &&& is_quad(nvs, x as int, y as int, z as int, wpx, hpx)
            &&& sum_x(nvs) == 6 * x + 3 * wpx
            &&& sum_y(nvs) == 6 * y + 3 * hpx
            &&& sum_z(nvs) == 6 * z
        }),
{
    let wpx = w0.resolved_w(path@, src) as int;
    let hpx = w0.resolved_h(path@, src) as int;
    // The creation succeeded, so the name was free, the texture resolved,
    // and the quad fit; the new record is the appended table entry.
    assert(!w0.images.has(name@));
    assert(w0.can_resolve(path@, src));
    assert(quad_in_bounds(x0 as int, y0 as int, z0 as int, wpx, hpx));
    let rec = w1.images.spec_get(name@);
    assert(is_quad(rec.vertices@, x0 as int, y0 as int, z0 as int, wpx, hpx));
    let idx = map_idx(w1.img_seq(), name@);
    lemma_idx_unique(w1.img_seq(), name@, w1.img_seq().len() - 1);
    assert(idx == w1.img_seq().len() - 1);
    assert(w1.img_seq()[idx].1 == rec);
    // The move succeeded, so the translated quad stayed in range.
    assert(w1.images.has(name@));
    let nvs = w2.img_seq()[idx].1.vertices@;
    assert(crate::geom::is_translated(nvs, rec.vertices@, x as int, y as int, z as int));
    lemma_translate_quad(
        rec.vertices@,
        nvs,
        x0 as int,
        y0 as int,
        z0 as int,
        wpx,
        hpx,
        x as int,
        y as int,
        z as int,
    );
    lemma_quad_centroid(nvs, x as int, y as int, z as int, wpx, hpx);
}

/// Resizing is idempotent: applying the same pixel extent twice gives the
/// same six vertex positions as applying it once, and the second
/// application cannot fail while handles remain.
pub proof fn lemma_set_size_idempotent(
    w0: WindowState,
    w1: WindowState,
    w2: WindowState,
    name: Seq<char>,
    width_px: u32,
    height_px: u32,
    acts1: Vec<GpuAction>,
    r2: Result<Vec<GpuAction>, SceneError>,
)
    requires
        set_size_post(
            w0,
            w1,
            name,
            width_px,
            height_px,
            Result::<Vec<GpuAction>, SceneError>::Ok(acts1),
        ),
        set_size_post(w1, w2, name, width_px, height_px, r2),
        w1.next_handle < HANDLE_LIMIT,
    ensures
        r2 is Ok,
        ({
            let idx = map_idx(w0.img_seq(), name);
            w2.img_seq()[idx].1.vertices@ == w1.img_seq()[idx].1.vertices@
        }),
{
    // The first resize succeeded, so the name is present and the resized
    // quad is in range; the record was replaced in place.
    assert(w0.images.has(name));
    let idx = map_idx(w0.img_seq(), name);
    let a = w0.img_seq()[idx].1.vertices@[0].pos;
    assert(quad_in_bounds(
        a.x as int,
        a.y as int,
        a.z as int,
        width_px as int,
        height_px as int,
    ));
    let vs1 = w1.img_seq()[idx].1.vertices@;
    assert(is_quad(vs1, a.x as int, a.y as int, a.z as int, width_px as int, height_px as int));
    // The same name resolves to the same slot in the resized table.
    assert(w1.img_seq()[idx].0@ == w0.img_seq()[idx].0@);
    lemma_idx_unique(w1.img_seq(), name, idx);
    assert(map_idx(w1.img_seq(), name) == idx);
    assert(w1.images.has(name));
    // The second resize re-anchors at the same first vertex, which the
    // first resize pinned to the anchor itself.
    let a1 = w1.img_seq()[idx].1.vertices@[0].pos;
    assert(a1 == crate::geom::quad_pos(
        a.x as int,
        a.y as int,
        a.z as int,
        width_px as int,
        height_px as int,
        0,
    ));
    assert(a1 == a);
    assert(r2 is Ok);
    let vs2 = w2.img_seq()[idx].1.vertices@;
    assert(is_quad(vs2, a.x as int, a.y as int, a.z as int, width_px as int, height_px as int));
    assert forall|i: int| 0 <= i < 6 implies vs2[i] == vs1[i] by {}
    assert(vs2 =~= vs1);
}

/// Rotating by the identity pair moves nothing: every vertex position is
/// returned unchanged.  (This is the exactly representable instance of
/// undoing a rotation; a quarter-turn and back, say, reproduces positions
/// only up to the fixed-point rounding of the coefficients.)
pub proof fn lemma_identity_rotation_preserves(
    w0: WindowState,
    w1: WindowState,
    name: Seq<char>,
    acts: Vec<GpuAction>,
)
    requires
        w0.wf(),
        set_rotation_post(
            w0,
            w1,
            name,
            Rotation { cos: ROT_ONE, sin: 0 },
            Result::<Vec<GpuAction>, SceneError>::Ok(acts),
        ),
    ensures
        ({
            let idx = map_idx(w0.img_seq(), name);
            w1.img_seq()[idx].1.vertices@ == w0.img_seq()[idx].1.vertices@
        }),
{
    assert(w0.images.has(name));
    let idx = map_idx(w0.img_seq(), name);
    let rec = w0.img_seq()[idx].1;
    assert(crate::window::record_ok(rec, w0.next_handle));
    let nvs = w1.img_seq()[idx].1.vertices@;
    assert(crate::geom::is_rotated(nvs, rec.vertices@, rec.origin2, Rotation {
        cos: ROT_ONE,
        sin: 0,
    }));
    assert forall|i: int| 0 <= i < 6 implies nvs[i] == rec.vertices@[i] by {
        assert(crate::geom::point_ok(rec.vertices@[i].pos));
        lemma_rotate_identity(rec.origin2, rec.vertices@[i].pos);
    }
    assert(nvs =~= rec.vertices@);
}

/// Rotating an image and then rotating it back restores every vertex
/// position exactly, provided the coefficient pair lies exactly on the
/// fixed-point unit circle and the forward rotation divides exactly at
/// every vertex.  On other inputs the fixed-point divisions round, and the
/// round trip is exact only up to that rounding.
pub proof fn lemma_rotation_round_trip(
    w0: WindowState,
    w1: WindowState,
    w2: WindowState,
    name: Seq<char>,
    rot: Rotation,
    inv: Rotation,
    acts1: Vec<GpuAction>,
    r2: Result<Vec<GpuAction>, SceneError>,
)
    requires
        w0.wf(),
        rot.cos * rot.cos + rot.sin * rot.sin == ROT_ONE * ROT_ONE,
        inv.cos == rot.cos,
        inv.sin == -(rot.sin as int),
        set_rotation_post(w0, w1, name, rot, Result::<Vec<GpuAction>, SceneError>::Ok(acts1)),
        set_rotation_post(w1, w2, name, inv, r2),
        w1.next_handle < HANDLE_LIMIT,
        ({
            let rec = w0.img_seq()[map_idx(w0.img_seq(), name)].1;
            forall|i: int|
                0 <= i < 6 ==> crate::geom::rot_num_x(
                    rot.cos as int,
                    rot.sin as int,
                    rec.origin2,
                    (#[trigger] rec.vertices@[i]).pos,
                ) % (crate::geom::TWO_ROT as int) == 0 && crate::geom::rot_num_y(
                    rot.cos as int,
                    rot.sin as int,
                    rec.origin2,
                    rec.vertices@[i].pos,
                ) % (crate::geom::TWO_ROT as int) == 0
        }),
    ensures
        r2 is Ok,
        ({
            let idx = map_idx(w0.img_seq(), name);
            w2.img_seq()[idx].1.vertices@ == w0.img_seq()[idx].1.vertices@
        }),
{
    // The first rotation succeeded, so the image exists, the pair is in
    // scale, and every rotated vertex stayed in range.
    assert(w0.images.has(name));
    let idx = map_idx(w0.img_seq(), name);
    let rec = w0.img_seq()[idx].1;
    assert(crate::window::record_ok(rec, w0.next_handle));
    assert(rot.wf());
    let vs1 = w1.img_seq()[idx].1.vertices@;
    assert(crate::geom::is_rotated(vs1, rec.vertices@, rec.origin2, rot));
    // The edited record keeps its slot, key, and rotation pivot.
    assert(w1.img_seq()[idx].0@ == w0.img_seq()[idx].0@);
    lemma_idx_unique(w1.img_seq(), name, idx);
    assert(w1.images.has(name));
    assert(w1.img_seq()[idx].1.origin2 == rec.origin2);
    // The inverse rotation sends every vertex back exactly, so it stays in
    // range and the second call must succeed.
    assert forall|i: int| 0 <= i < 6 implies crate::geom::rotated_x(
        inv.cos as int,
        inv.sin as int,
        rec.origin2,
        (#[trigger] vs1[i]).pos,
    ) == rec.vertices@[i].pos.x && crate::geom::rotated_y(
        inv.cos as int,
        inv.sin as int,
        rec.origin2,
        vs1[i].pos,
    ) == rec.vertices@[i].pos.y by {
        crate::geom::lemma_rotate_inverse_point(
            rot.cos as int,
            rot.sin as int,
            rec.origin2,
            rec.vertices@[i].pos,
            vs1[i].pos,
        );
    }
    assert(inv.wf());
    assert(crate::geom::rotation_in_bounds(vs1, rec.origin2, inv)) by {
        assert forall|i: int|
            0 <= i < 6 implies crate::geom::coord_ok(
            crate::geom::rotated_x(inv.cos as int, inv.sin as int, rec.origin2, (#[trigger] vs1[i]).pos),
        ) && crate::geom::coord_ok(
            crate::geom::rotated_y(inv.cos as int, inv.sin as int, rec.origin2, vs1[i].pos),
        ) by {
            assert(crate::geom::point_ok(rec.vertices@[i].pos));
        }
    }
    assert(r2 is Ok);
    let vs2 = w2.img_seq()[idx].1.vertices@;
    assert(crate::geom::is_rotated(vs2, vs1, rec.origin2, inv));
    assert forall|i: int| 0 <= i < 6 implies vs2[i] == rec.vertices@[i] by {
        assert(vs1[i].pos.z == rec.vertices@[i].pos.z && vs1[i].uv == rec.vertices@[i].uv);
    }
    assert(vs2 =~= rec.vertices@);
}

/// The texture cache never uploads one path twice: after a successful
/// load, loading the same path again returns the very same handle,
/// performs no GPU action, and leaves the window untouched.
pub proof fn lemma_texture_cache_dedup(
    w0: WindowState,
    w1: WindowState,
    w2: WindowState,
    path: String,
    src1: TextureSource,
    src2: TextureSource,
    h1: u64,
    acts1: Vec<GpuAction>,
    h2: u64,
    acts2: Vec<GpuAction>,
)
    requires
        load_texture_post(
            w0,
            w1,
            path,
            src1,
            Result::<(u64, Vec<GpuAction>), SceneError>::Ok((h1, acts1)),
        ),
        load_texture_post(
            w1,
            w2,
            path,
            src2,
            Result::<(u64, Vec<GpuAction>), SceneError>::Ok((h2, acts2)),
        ),
    ensures
        h2 == h1,
        acts2@.len() == 0,
        w2.tex_seq() == w1.tex_seq(),
        w2.img_seq() == w1.img_seq(),
        w2.next_handle == w1.next_handle,
{
    if w0.textures.has(path@) {
        assert(h1 == w0.textures.spec_get(path@).handle);
        assert(w1.tex_seq() == w0.tex_seq());
        assert(w1.textures.has(path@));
        assert(w1.textures.spec_get(path@) == w0.textures.spec_get(path@));
    } else {
        // The first load cached a fresh entry for the path at the end of
        // the table, carrying the returned handle.
        assert(src1 is Decoded && w0.next_handle < HANDLE_LIMIT);
        let n = w1.tex_seq().len();
        assert(w1.tex_seq()[n - 1].0@ == path@);
        lemma_idx_unique(w1.tex_seq(), path@, n - 1);
        assert(w1.textures.has(path@));
        assert(w1.textures.spec_get(path@).handle == h1);
    }
    assert(h2 == w1.textures.spec_get(path@).handle);
}

} // verus!
