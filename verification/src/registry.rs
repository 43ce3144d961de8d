//! The scene registry: all live windows, the platform-id routing table,
//! and the image-metadata mirror.
//!
//! The registry maps window ids (small integers chosen by the caller of
//! create-window) to [`WindowState`]s, keeps the routing from platform
//! window ids to those ids, and owns the metadata mirror: a table from
//! image name to the last-applied position, size and rotation parameters,
//! kept for external introspection with a lifecycle independent of the
//! windows.  Every mutation goes through a registry method; a command that
//! targets an absent window fails with `UnknownWindow` and changes nothing.

use vstd::prelude::*;

use crate::geom::Rotation;
use crate::strmap::{map_idx, upserted, StrMap};
use crate::types::{Color, GpuAction, SceneError, TextureSource};
use crate::window::{
    add_image_post, delete_image_post, delete_texture_post, load_texture_post,
    release_of_images, release_of_textures, set_position_post, set_rotation_post, set_size_post,
    WindowState,
};

verus! {

/// Whether the keys of an association sequence are pairwise distinct.
pub open spec fn assoc_unique<K, V>(s: Seq<(K, V)>) -> bool {
    forall|i: int, j: int| 0 <= i < j < s.len() ==> (#[trigger] s[i]).0 != (#[trigger] s[j]).0
}

/// Whether some pair of `s` has key `k`.
pub open spec fn assoc_has<K, V>(s: Seq<(K, V)>, k: K) -> bool {
    exists|i: int| 0 <= i < s.len() && (#[trigger] s[i]).0 == k
}

/// The index of the pair with key `k`; meaningful when `assoc_has(s, k)`
/// and the keys are pairwise distinct.
pub open spec fn assoc_idx<K, V>(s: Seq<(K, V)>, k: K) -> int {
    choose|i: int| 0 <= i < s.len() && (#[trigger] s[i]).0 == k
}

/// Under pairwise-distinct keys, any index whose pair has key `k` is the
/// index that lookup uses.
pub proof fn lemma_assoc_idx_unique<K, V>(s: Seq<(K, V)>, k: K, i: int)
    requires
        assoc_unique(s),
        0 <= i < s.len(),
        s[i].0 == k,
    ensures
        assoc_has(s, k),
        assoc_idx(s, k) == i,
{
    assert(assoc_has(s, k));
    let j = assoc_idx(s, k);
    if i < j {
        assert(s[i].0 != s[j].0);
    } else if j < i {
        assert(s[j].0 != s[i].0);
    }
}

/// The last-applied parameters of one named image, mirrored for external
/// introspection: anchor coordinates in world units, size in pixels, and
/// the rotation pair last applied.
#[derive(Clone, Copy, PartialEq, Eq, Structural, Debug)]
pub struct ImageData {
    pub x: i64,
    pub y: i64,
    pub z: i64,
    pub width: u32,
    pub height: u32,
    pub rotation: Rotation,
}

/// The mirror entry before anything was applied: the origin, no extent,
/// the identity rotation.
pub open spec fn default_image_data() -> ImageData {
    ImageData {
        x: 0,
        y: 0,
        z: 0,
        width: 0,
        height: 0,
        rotation: Rotation { cos: crate::geom::ROT_ONE, sin: 0 },
    }
}

impl Default for ImageData {
    /// The entry before anything was applied.
    fn default() -> (r: ImageData)
        ensures
            r == default_image_data(),
    {
        ImageData { x: 0, y: 0, z: 0, width: 0, height: 0, rotation: Rotation::identity() }
    }
}

/// All live windows, the platform-id translation table, and the metadata
/// mirror.
pub struct SceneRegistry {
    /// Window id to window state; at most one state per id.
    pub windows: Vec<(u32, WindowState)>,
    /// Platform window id to window id, for event routing.
    pub platform: Vec<(u64, u32)>,
    /// Image name to last-applied parameters, written by every image
    /// mutation and read on demand; its lifecycle is independent of the
    /// windows.
    pub images_meta: StrMap<ImageData>,
}

impl SceneRegistry {
    /// Internal consistency: distinct window ids, distinct platform ids,
    /// well-formed windows, and every platform entry routed to a live
    /// window.
    pub open spec fn wf(&self) -> bool {
        &&& assoc_unique(self.windows@)
        &&& assoc_unique(self.platform@)
        &&& self.images_meta.wf()
        &&& forall|i: int| 0 <= i < self.windows@.len() ==> (#[trigger] self.windows@[i]).1.wf()
        &&& forall|j: int|
            0 <= j < self.platform@.len() ==> assoc_has(
                self.windows@,
                (#[trigger] self.platform@[j]).1,
            )
    }

    /// Whether a window with id `id` is live.
    pub open spec fn has_window(&self, id: u32) -> bool {
        assoc_has(self.windows@, id)
    }

    /// The table index of the window with id `id`.
    pub open spec fn window_idx(&self, id: u32) -> int {
        assoc_idx(self.windows@, id)
    }

    /// The state of the window with id `id`.
    pub open spec fn window_at(&self, id: u32) -> WindowState {
        self.windows@[self.window_idx(id)].1
    }

    /// An empty registry.
    pub fn new() -> (r: SceneRegistry)
        ensures
            r.wf(),
            r.windows@.len() == 0,
            r.platform@.len() == 0,
            r.images_meta.pairs@.len() == 0,
    {
        SceneRegistry { windows: Vec::new(), platform: Vec::new(), images_meta: StrMap::new() }
    }

    /// The table index of the window with id `id`, if it is live.
    fn find_window(&self, id: u32) -> (r: Option<usize>)
        requires
            assoc_unique(self.windows@),
        ensures
            match r {
                Some(i) => i < self.windows@.len() && self.windows@[i as int].0 == id
                    && self.has_window(id) && self.window_idx(id) == i,
                None => !self.has_window(id),
            },
    {
        let n = self.windows.len();
        let mut i: usize = 0;
        while i < n
            invariant
                assoc_unique(self.windows@),
                n == self.windows@.len(),
                0 <= i <= n,
                forall|j: int| 0 <= j < i ==> (#[trigger] self.windows@[j]).0 != id,
            decreases n - i,
        {
            if self.windows[i].0 == id {
                proof {
                    lemma_assoc_idx_unique(self.windows@, id, i as int);
                }
                return Some(i);
            }
            i = i + 1;
        }
        None
    }

    /// Whether a platform window id is already routed.
    fn platform_known(&self, platform_id: u64) -> (r: bool)
        ensures
            r == assoc_has(self.platform@, platform_id),
    {
        let n = self.platform.len();
        let mut i: usize = 0;
        while i < n
            invariant
                n == self.platform@.len(),
                0 <= i <= n,
                forall|j: int| 0 <= j < i ==> (#[trigger] self.platform@[j]).0 != platform_id,
            decreases n - i,
        {
            if self.platform[i].0 == platform_id {
                return true;
            }
            i = i + 1;
        }
        false
    }

    /// The window id the platform window `platform_id` is routed to, if
    /// any; used to dispatch platform events to the right window.
    pub fn resolve_platform(&self, platform_id: u64) -> (r: Option<u32>)
        requires
            self.wf(),
        ensures
            match r {
                Some(id) => assoc_has(self.platform@, platform_id) && id == self.platform@[
                    assoc_idx(self.platform@, platform_id)
                ].1 && self.has_window(id),
                None => !assoc_has(self.platform@, platform_id),
            },
    {
        let n = self.platform.len();
        let mut i: usize = 0;
        while i < n
            invariant
                self.wf(),
                n == self.platform@.len(),
                0 <= i <= n,
                forall|j: int| 0 <= j < i ==> (#[trigger] self.platform@[j]).0 != platform_id,
            decreases n - i,
        {
            if self.platform[i].0 == platform_id {
                proof {
                    lemma_assoc_idx_unique(self.platform@, platform_id, i as int);
                }
                return Some(self.platform[i].1);
            }
            i = i + 1;
        }
        None
    }

    /// Creates a window: registers a fresh empty [`WindowState`] under
    /// `id`, routed from the platform window `platform_id`.
    ///
    /// Fails with `DuplicateWindow` if `id` is already live or the
    /// platform window is already routed; nothing changes then.
    pub fn create_window(
        &mut self,
        id: u32,
        platform_id: u64,
        width: u32,
        height: u32,
        title: String,
        background: Color,
        visible: bool,
    ) -> (r: Result<(), SceneError>)
        requires
            old(self).wf(),
        ensures
            final(self).wf(),
            old(self).has_window(id) || assoc_has(old(self).platform@, platform_id) ==> r
                == Result::<(), SceneError>::Err(SceneError::DuplicateWindow) && *final(self)
                == *old(self),
            !old(self).has_window(id) && !assoc_has(old(self).platform@, platform_id) ==> ({
                let w = final(self).windows@.last().1;
                &&& r == Result::<(), SceneError>::Ok(())
                &&& final(self).windows@ == old(self).windows@.push((id, w))
                &&& final(self).platform@ == old(self).platform@.push((platform_id, id))
                &&& final(self).images_meta == old(self).images_meta
                &&& w.wf()
                &&& w.width == width && w.height == height && w.title@ == title@ && w.background
                    == background && w.visible == visible
                &&& w.yaw == 0 && w.pitch == 0
                &&& w.tex_seq().len() == 0 && w.img_seq().len() == 0
                &&& final(self).has_window(id)
            }),
    {
        match self.find_window(id) {
            Some(_) => {
                return Err(SceneError::DuplicateWindow);
            },
            None => {},
        }
        if self.platform_known(platform_id) {
            return Err(SceneError::DuplicateWindow);
        }
        let w = WindowState::new(width, height, title, background, visible);
        self.windows.push((id, w));
        self.platform.push((platform_id, id));
        proof {
            let ws = self.windows@;
            assert forall|i: int, j: int| 0 <= i < j < ws.len() implies (#[trigger] ws[i]).0 != (
            #[trigger] ws[j]).0 by {
                if j < ws.len() - 1 {
                    assert(old(self).windows@[i].0 != old(self).windows@[j].0);
                } else {
                    assert(!assoc_has(old(self).windows@, id));
                }
            }
            let ps = self.platform@;
            assert forall|i: int, j: int| 0 <= i < j < ps.len() implies (#[trigger] ps[i]).0 != (
            #[trigger] ps[j]).0 by {
                if j < ps.len() - 1 {
                    assert(old(self).platform@[i].0 != old(self).platform@[j].0);
                } else {
                    assert(!assoc_has(old(self).platform@, platform_id));
                }
            }
            assert forall|i: int| 0 <= i < ws.len() implies (#[trigger] ws[i]).1.wf() by {
                if i < ws.len() - 1 {
                    assert(old(self).windows@[i].1.wf());
                }
            }
            assert forall|j: int| 0 <= j < ps.len() implies assoc_has(ws, (#[trigger] ps[j]).1) by {
                if j < ps.len() - 1 {
                    assert(assoc_has(old(self).windows@, old(self).platform@[j].1));
                    let k = choose|k: int|
                        0 <= k < old(self).windows@.len() && (#[trigger] old(self).windows@[k]).0
                            == old(self).platform@[j].1;
                    assert(ws[k].0 == ps[j].1);
                } else {
                    assert(ws[ws.len() - 1].0 == ps[j].1);
                }
            }
            lemma_assoc_idx_unique(ws, id, ws.len() - 1);
        }
        Ok(())
    }

    /// Removes the window `id`, dropping its whole render state and
    /// ordering the release of every GPU handle it owned: each image's
    /// drawable, material and buffer, then each cached texture.  Platform
    /// routes to the window are dropped too; pending commands that still
    /// target the id will fail with `UnknownWindow` when drained.  The
    /// metadata mirror is kept: its lifecycle is independent.
    ///
    /// Fails with `UnknownWindow` if `id` is not live; nothing changes
    /// then.
    pub fn remove_window(&mut self, id: u32) -> (r: Result<Vec<GpuAction>, SceneError>)
        requires
            old(self).wf(),
        ensures
            final(self).wf(),
            !old(self).has_window(id) ==> r == Result::<Vec<GpuAction>, SceneError>::Err(
                SceneError::UnknownWindow,
            ) && *final(self) == *old(self),
            old(self).has_window(id) ==> ({
                let w = old(self).window_at(id);
                &&& (r matches Ok(acts) && acts@ == release_of_images(w.img_seq())
                    + release_of_textures(w.tex_seq()))
                &&& final(self).windows@ == old(self).windows@.remove(old(self).window_idx(id))
                &&& final(self).platform@ == old(self).platform@.filter(not_routed_to(id))
                &&& final(self).images_meta == old(self).images_meta
                &&& !final(self).has_window(id)
            }),
    {
        let widx = match self.find_window(id) {
            Some(i) => i,
            None => {
                return Err(SceneError::UnknownWindow);
            },
        };
        let entry = self.windows.remove(widx);
        let acts = entry.1.release_actions();
        let mut kept: Vec<(u64, u32)> = Vec::new();
        let n = self.platform.len();
        let mut i: usize = 0;
        proof {
            reveal(Seq::filter);
        }
        while i < n
            invariant
                n == self.platform@.len(),
                0 <= i <= n,
                self.platform@ == old(self).platform@,
                kept@ =~= old(self).platform@.subrange(0, i as int).filter(not_routed_to(id)),
            decreases n - i,
        {
            let p = self.platform[i];
            if p.1 != id {
                kept.push(p);
            }
            proof {
                reveal(Seq::filter);
                let s = old(self).platform@.subrange(0, i + 1);
                assert(s.drop_last() =~= old(self).platform@.subrange(0, i as int));
                assert(s.last() == old(self).platform@[i as int]);
                assert(kept@ =~= old(self).platform@.subrange(0, i + 1).filter(
                    not_routed_to(id),
                ));
            }
            i = i + 1;
        }
        proof {
            assert(old(self).platform@.subrange(0, n as int) =~= old(self).platform@);
        }
        self.platform = kept;
        proof {
            let olds = old(self).windows@;
            let widx0 = widx as int;
            let ws = self.windows@;
            let ps = self.platform@;
            lemma_filter_keeps_routes(old(self).platform@, id);
            assert forall|a: int, b: int| 0 <= a < b < ws.len() implies (#[trigger] ws[a]).0 != (
            #[trigger] ws[b]).0 by {
                let a0 = if a < widx0 {
                    a
                } else {
                    a + 1
                };
                let b0 = if b < widx0 {
                    b
                } else {
                    b + 1
                };
                assert(olds[a0].0 != olds[b0].0);
            }
            assert forall|a: int| 0 <= a < ws.len() implies (#[trigger] ws[a]).1.wf() by {
                let a0 = if a < widx0 {
                    a
                } else {
                    a + 1
                };
                assert(olds[a0].1.wf());
            }
            assert forall|a: int| 0 <= a < ws.len() implies ws[a].0 != id by {
                let a0 = if a < widx0 {
                    a
                } else {
                    a + 1
                };
                if olds[a0].0 == id {
                    lemma_assoc_idx_unique(olds, id, a0);
                }
            }
            assert forall|j: int| 0 <= j < ps.len() implies assoc_has(ws, (#[trigger] ps[j]).1) by {
                let entry_j = ps[j];
                assert(exists|k: int|
                    0 <= k < old(self).platform@.len() && old(self).platform@[k] == entry_j);
                let j0 = choose|j0: int|
                    0 <= j0 < old(self).platform@.len() && old(self).platform@[j0] == entry_j;
                assert(assoc_has(olds, entry_j.1));
                let k = choose|k: int| 0 <= k < olds.len() && (#[trigger] olds[k]).0 == entry_j.1;
                assert(olds[widx0].0 == id);
                assert(entry_j.1 != id);
                let k1 = if k < widx0 {
                    k
                } else {
                    k - 1
                };
                assert(ws[k1].0 == entry_j.1);
            }
            if assoc_has(ws, id) {
                let a = choose|a: int| 0 <= a < ws.len() && (#[trigger] ws[a]).0 == id;
                assert(ws[a].0 != id);
            }
        }
        Ok(acts)
    }
}

/// Well-formedness is preserved when one window is replaced, under its own
/// id, by a well-formed successor and nothing else about the tables moves.
proof fn lemma_update_window_wf(r0: SceneRegistry, r1: SceneRegistry, widx: int, id: u32)
    requires
        r0.wf(),
        0 <= widx < r0.windows@.len(),
        r0.windows@[widx].0 == id,
        r1.windows@ == r0.windows@.update(widx, (id, r1.windows@[widx].1)),
        r1.windows@[widx].1.wf(),
        r1.platform@ == r0.platform@,
        r1.images_meta.wf(),
    ensures
        r1.wf(),
{
    let ws = r1.windows@;
    let olds = r0.windows@;
    assert forall|a: int, b: int| 0 <= a < b < ws.len() implies (#[trigger] ws[a]).0 != (
    #[trigger] ws[b]).0 by {
        assert(olds[a].0 != olds[b].0);
        assert(ws[a].0 == olds[a].0 && ws[b].0 == olds[b].0);
    }
    assert forall|a: int| 0 <= a < ws.len() implies (#[trigger] ws[a]).1.wf() by {
        if a != widx {
            assert(olds[a].1.wf());
        }
    }
    assert forall|j: int| 0 <= j < r1.platform@.len() implies assoc_has(
        ws,
        (#[trigger] r1.platform@[j]).1,
    ) by {
        assert(assoc_has(olds, r0.platform@[j].1));
        let k = choose|k: int| 0 <= k < olds.len() && (#[trigger] olds[k]).0 == r0.platform@[j].1;
        assert(ws[k].0 == r1.platform@[j].1);
    }
}

impl SceneRegistry {
    /// What every delegated image operation guarantees about the registry
    /// around the targeted window: the window is replaced in place under
    /// its id, and the platform routes are kept.
    pub open spec fn window_updated(&self, old_r: SceneRegistry, id: u32) -> bool {
        let widx = old_r.window_idx(id);
        &&& self.windows@ == old_r.windows@.update(widx, (id, self.windows@[widx].1))
        &&& self.platform@ == old_r.platform@
    }

    /// Loads (or returns the cached) texture `path` in window `id`; see
    /// [`WindowState::load_texture`].  The metadata mirror is untouched.
    ///
    /// Fails with `UnknownWindow` if `id` is not live; nothing changes then.
    pub fn load_texture(&mut self, id: u32, path: &String, src: &TextureSource) -> (r: Result<
        (u64, Vec<GpuAction>),
        SceneError,
    >)
        requires
            old(self).wf(),
        ensures
            final(self).wf(),
            !old(self).has_window(id) ==> r == Result::<(u64, Vec<GpuAction>), SceneError>::Err(
                SceneError::UnknownWindow,
            ) && *final(self) == *old(self),
            old(self).has_window(id) ==> final(self).window_updated(*old(self), id)
                && final(self).images_meta == old(self).images_meta && load_texture_post(
                old(self).window_at(id),
                final(self).windows@[old(self).window_idx(id)].1,
                *path,
                *src,
                r,
            ),
    {
        let widx = match self.find_window(id) {
            Some(i) => i,
            None => {
                return Err(SceneError::UnknownWindow);
            },
        };
        let mut entry = self.windows.remove(widx);
        let r = entry.1.load_texture(path, src);
        self.windows.insert(widx, entry);
        proof {
            assert(self.windows@ =~= old(self).windows@.update(
                widx as int,
                (id, self.windows@[widx as int].1),
            ));
            lemma_update_window_wf(*old(self), *self, widx as int, id);
        }
        r
    }

    /// Creates the named image in window `id`; see
    /// [`WindowState::add_image`].  On success the metadata mirror entry
    /// for the name is set to the applied anchor and the texture's pixel
    /// size, with the identity rotation.
    ///
    /// Fails with `UnknownWindow` if `id` is not live; nothing changes then.
    pub fn add_image(
        &mut self,
        id: u32,
        name: String,
        path: String,
        x: i64,
        y: i64,
        z: i64,
        src: &TextureSource,
    ) -> (r: Result<Vec<GpuAction>, SceneError>)
        requires
            old(self).wf(),
        ensures
            final(self).wf(),
            !old(self).has_window(id) ==> r == Result::<Vec<GpuAction>, SceneError>::Err(
                SceneError::UnknownWindow,
            ) && *final(self) == *old(self),
            old(self).has_window(id) ==> ({
                let w0 = old(self).window_at(id);
                &&& final(self).window_updated(*old(self), id)
                &&& add_image_post(
                    w0,
                    final(self).windows@[old(self).window_idx(id)].1,
                    name,
                    path,
                    x,
                    y,
                    z,
                    *src,
                    r,
                )
                &&& (r is Ok ==> upserted(
                    old(self).images_meta.pairs@,
                    final(self).images_meta.pairs@,
                    name,
                    ImageData {
                        x,
                        y,
                        z,
                        width: w0.resolved_w(path@, *src),
                        height: w0.resolved_h(path@, *src),
                        rotation: Rotation { cos: crate::geom::ROT_ONE, sin: 0 },
                    },
                ))
                &&& (r is Err ==> final(self).images_meta == old(self).images_meta)
            }),
    {
        let widx = match self.find_window(id) {
            Some(i) => i,
            None => {
                return Err(SceneError::UnknownWindow);
            },
        };
        let mut entry = self.windows.remove(widx);
        let r = entry.1.add_image(name.clone(), path, x, y, z, src);
        match &r {
            Ok(_) => {
                let m = entry.1.images.len();
                let rec = entry.1.images.at(m - 1);
                proof {
                    assert(rec.1 == entry.1.images.spec_get(name@)) by {
                        crate::strmap::lemma_idx_unique(entry.1.images.pairs@, name@, m - 1);
                    }
                }
                let wpx = (rec.1.vertices[1].pos.x - rec.1.vertices[0].pos.x) as u32;
                let hpx = (rec.1.vertices[2].pos.y - rec.1.vertices[0].pos.y) as u32;
                self.images_meta.upsert(
                    name,
                    ImageData { x, y, z, width: wpx, height: hpx, rotation: Rotation::identity() },
                );
            },
            Err(_) => {},
        }
        self.windows.insert(widx, entry);
        proof {
            assert(self.windows@ =~= old(self).windows@.update(
                widx as int,
                (id, self.windows@[widx as int].1),
            ));
            lemma_update_window_wf(*old(self), *self, widx as int, id);
        }
        r
    }

    /// Moves the named image in window `id`; see
    /// [`WindowState::set_image_position`].  On success the mirror entry's
    /// anchor is set to the applied coordinates, keeping its other fields
    /// (or their defaults if the name was not mirrored yet).
    ///
    /// Fails with `UnknownWindow` if `id` is not live; nothing changes then.
    pub fn set_image_position(&mut self, id: u32, name: &String, x: i64, y: i64, z: i64) -> (r:
        Result<Vec<GpuAction>, SceneError>)
        requires
            old(self).wf(),
        ensures
            final(self).wf(),
            !old(self).has_window(id) ==> r == Result::<Vec<GpuAction>, SceneError>::Err(
                SceneError::UnknownWindow,
            ) && *final(self) == *old(self),
            old(self).has_window(id) ==> ({
                let prev = if old(self).images_meta.has(name@) {
                    old(self).images_meta.spec_get(name@)
                } else {
                    default_image_data()
                };
                &&& final(self).window_updated(*old(self), id)
                &&& set_position_post(
                    old(self).window_at(id),
                    final(self).windows@[old(self).window_idx(id)].1,
                    name@,
                    x,
                    y,
                    z,
                    r,
                )
                &&& (r is Ok ==> upserted(
                    old(self).images_meta.pairs@,
                    final(self).images_meta.pairs@,
                    *name,
                    ImageData {
                        x,
                        y,
                        z,
                        width: prev.width,
                        height: prev.height,
                        rotation: prev.rotation,
                    },
                ))
                &&& (r is Err ==> final(self).images_meta == old(self).images_meta)
            }),
    {
        let widx = match self.find_window(id) {
            Some(i) => i,
            None => {
                return Err(SceneError::UnknownWindow);
            },
        };
        let mut entry = self.windows.remove(widx);
        let r = entry.1.set_image_position(name, x, y, z);
        match &r {
            Ok(_) => {
                let prev = match self.images_meta.get(name) {
                    Some(d) => *d,
                    None => ImageData::default(),
                };
                self.images_meta.upsert(
                    name.clone(),
                    ImageData {
                        x,
                        y,
                        z,
                        width: prev.width,
                        height: prev.height,
                        rotation: prev.rotation,
                    },
                );
            },
            Err(_) => {},
        }
        self.windows.insert(widx, entry);
        proof {
            assert(self.windows@ =~= old(self).windows@.update(
                widx as int,
                (id, self.windows@[widx as int].1),
            ));
            lemma_update_window_wf(*old(self), *self, widx as int, id);
        }
        r
    }

    /// Resizes the named image in window `id`; see
    /// [`WindowState::set_image_size`].  On success the mirror entry's
    /// size is set to the applied pixel extent, keeping its other fields.
    ///
    /// Fails with `UnknownWindow` if `id` is not live; nothing changes then.
    pub fn set_image_size(&mut self, id: u32, name: &String, width_px: u32, height_px: u32) -> (r:
        Result<Vec<GpuAction>, SceneError>)
        requires
            old(self).wf(),
        ensures
            final(self).wf(),
            !old(self).has_window(id) ==> r == Result::<Vec<GpuAction>, SceneError>::Err(
                SceneError::UnknownWindow,
            ) && *final(self) == *old(self),
            old(self).has_window(id) ==> ({
                let prev = if old(self).images_meta.has(name@) {
                    old(self).images_meta.spec_get(name@)
                } else {
                    default_image_data()
                };
                &&& final(self).window_updated(*old(self), id)
                &&& set_size_post(
                    old(self).window_at(id),
                    final(self).windows@[old(self).window_idx(id)].1,
                    name@,
                    width_px,
                    height_px,
                    r,
                )
                &&& (r is Ok ==> upserted(
                    old(self).images_meta.pairs@,
                    final(self).images_meta.pairs@,
                    *name,
                    ImageData {
                        x: prev.x,
                        y: prev.y,
                        z: prev.z,
                        width: width_px,
                        height: height_px,
                        rotation: prev.rotation,
                    },
                ))
                &&& (r is Err ==> final(self).images_meta == old(self).images_meta)
            }),
    {
        let widx = match self.find_window(id) {
            Some(i) => i,
            None => {
                return Err(SceneError::UnknownWindow);
            },
        };
        let mut entry = self.windows.remove(widx);
        let r = entry.1.set_image_size(name, width_px, height_px);
        match &r {
            Ok(_) => {
                let prev = match self.images_meta.get(name) {
                    Some(d) => *d,
                    None => ImageData::default(),
                };
                self.images_meta.upsert(
                    name.clone(),
                    ImageData {
                        x: prev.x,
                        y: prev.y,
                        z: prev.z,
                        width: width_px,
                        height: height_px,
                        rotation: prev.rotation,
                    },
                );
            },
            Err(_) => {},
        }
        self.windows.insert(widx, entry);
        proof {
            assert(self.windows@ =~= old(self).windows@.update(
                widx as int,
                (id, self.windows@[widx as int].1),
            ));
            lemma_update_window_wf(*old(self), *self, widx as int, id);
        }
        r
    }

    /// Rotates the named image in window `id`; see
    /// [`WindowState::set_image_rotation`].  On success the mirror entry's
    /// rotation is set to the applied pair, keeping its other fields.
    ///
    /// Fails with `UnknownWindow` if `id` is not live; nothing changes then.
    pub fn set_image_rotation(&mut self, id: u32, name: &String, rot: &Rotation) -> (r: Result<
        Vec<GpuAction>,
        SceneError,
    >)
        requires
            old(self).wf(),
        ensures
            final(self).wf(),
            !old(self).has_window(id) ==> r == Result::<Vec<GpuAction>, SceneError>::Err(
                SceneError::UnknownWindow,
            ) && *final(self) == *old(self),
            old(self).has_window(id) ==> ({
                let prev = if old(self).images_meta.has(name@) {
                    old(self).images_meta.spec_get(name@)
                } else {
                    default_image_data()
                };
                &&& final(self).window_updated(*old(self), id)
                &&& set_rotation_post(
                    old(self).window_at(id),
                    final(self).windows@[old(self).window_idx(id)].1,
                    name@,
                    *rot,
                    r,
                )
                &&& (r is Ok ==> upserted(
                    old(self).images_meta.pairs@,
                    final(self).images_meta.pairs@,
                    *name,
                    ImageData {
                        x: prev.x,
                        y: prev.y,
                        z: prev.z,
                        width: prev.width,
                        height: prev.height,
                        rotation: *rot,
                    },
                ))
                &&& (r is Err ==> final(self).images_meta == old(self).images_meta)
            }),
    {
        let widx = match self.find_window(id) {
            Some(i) => i,
            None => {
                return Err(SceneError::UnknownWindow);
            },
        };
        let mut entry = self.windows.remove(widx);
        let r = entry.1.set_image_rotation(name, rot);
        match &r {
            Ok(_) => {
                let prev = match self.images_meta.get(name) {
                    Some(d) => *d,
                    None => ImageData::default(),
                };
                self.images_meta.upsert(
                    name.clone(),
                    ImageData {
                        x: prev.x,
                        y: prev.y,
                        z: prev.z,
                        width: prev.width,
                        height: prev.height,
                        rotation: *rot,
                    },
                );
            },
            Err(_) => {},
        }
        self.windows.insert(widx, entry);
        proof {
            assert(self.windows@ =~= old(self).windows@.update(
                widx as int,
                (id, self.windows@[widx as int].1),
            ));
            lemma_update_window_wf(*old(self), *self, widx as int, id);
        }
        r
    }

    /// Deletes the named image in window `id`; see
    /// [`WindowState::delete_image`].  On success the mirror entry for the
    /// name is removed, if one exists.
    ///
    /// Fails with `UnknownWindow` if `id` is not live; nothing changes then.
    pub fn delete_image(&mut self, id: u32, name: &String) -> (r: Result<
        Vec<GpuAction>,
        SceneError,
    >)
        requires
            old(self).wf(),
        ensures
            final(self).wf(),
            !old(self).has_window(id) ==> r == Result::<Vec<GpuAction>, SceneError>::Err(
                SceneError::UnknownWindow,
            ) && *final(self) == *old(self),
            old(self).has_window(id) ==> ({
                &&& final(self).window_updated(*old(self), id)
                &&& delete_image_post(
                    old(self).window_at(id),
                    final(self).windows@[old(self).window_idx(id)].1,
                    name@,
                    r,
                )
                &&& (r is Ok && old(self).images_meta.has(name@) ==> final(self).images_meta.pairs@
                    == old(self).images_meta.pairs@.remove(
                    map_idx(old(self).images_meta.pairs@, name@),
                ) && !final(self).images_meta.has(name@))
                &&& (r is Ok && !old(self).images_meta.has(name@) ==> final(self).images_meta
                    == old(self).images_meta)
                &&& (r is Err ==> final(self).images_meta == old(self).images_meta)
            }),
    {
        let widx = match self.find_window(id) {
            Some(i) => i,
            None => {
                return Err(SceneError::UnknownWindow);
            },
        };
        let mut entry = self.windows.remove(widx);
        let r = entry.1.delete_image(name);
        match &r {
            Ok(_) => {
                self.images_meta.remove_by_key(name);
            },
            Err(_) => {},
        }
        self.windows.insert(widx, entry);
        proof {
            assert(self.windows@ =~= old(self).windows@.update(
                widx as int,
                (id, self.windows@[widx as int].1),
            ));
            lemma_update_window_wf(*old(self), *self, widx as int, id);
        }
        r
    }

    /// Deletes the cached texture `path` in window `id`; see
    /// [`WindowState::delete_texture`].  The metadata mirror is untouched.
    ///
    /// Fails with `UnknownWindow` if `id` is not live; nothing changes then.
    pub fn delete_texture(&mut self, id: u32, path: &String) -> (r: Result<
        Vec<GpuAction>,
        SceneError,
    >)
        requires
            old(self).wf(),
        ensures
            final(self).wf(),
            !old(self).has_window(id) ==> r == Result::<Vec<GpuAction>, SceneError>::Err(
                SceneError::UnknownWindow,
            ) && *final(self) == *old(self),
            old(self).has_window(id) ==> final(self).window_updated(*old(self), id)
                && final(self).images_meta == old(self).images_meta && delete_texture_post(
                old(self).window_at(id),
                final(self).windows@[old(self).window_idx(id)].1,
                path@,
                r,
            ),
    {
        let widx = match self.find_window(id) {
            Some(i) => i,
            None => {
                return Err(SceneError::UnknownWindow);
            },
        };
        let mut entry = self.windows.remove(widx);
        let r = entry.1.delete_texture(path);
        self.windows.insert(widx, entry);
        proof {
            assert(self.windows@ =~= old(self).windows@.update(
                widx as int,
                (id, self.windows@[widx as int].1),
            ));
            lemma_update_window_wf(*old(self), *self, widx as int, id);
        }
        r
    }

    /// Publishes a metadata mirror entry, replacing any previous one for
    /// the key.  The windows are untouched.
    pub fn insert_images_map(&mut self, key: String, value: ImageData)
        requires
            old(self).wf(),
        ensures
            final(self).wf(),
            upserted(old(self).images_meta.pairs@, final(self).images_meta.pairs@, key, value),
            final(self).images_meta.has(key@),
            final(self).images_meta.spec_get(key@) == value,
            final(self).windows@ == old(self).windows@,
            final(self).platform@ == old(self).platform@,
    {
        self.images_meta.upsert(key, value);
    }

    /// Reads the metadata mirror entry for `key`, if one exists.
    pub fn get_images_map(&self, key: &String) -> (r: Option<ImageData>)
        requires
            self.wf(),
        ensures
            match r {
                Some(d) => self.images_meta.has(key@) && d == self.images_meta.spec_get(key@),
                None => !self.images_meta.has(key@),
            },
    {
        match self.images_meta.get(key) {
            Some(d) => Some(*d),
            None => None,
        }
    }

    /// Removes and returns the metadata mirror entry for `key`, if one
    /// exists.  The windows are untouched.
    pub fn remove_images_map(&mut self, key: &String) -> (r: Option<ImageData>)
        requires
            old(self).wf(),
        ensures
            final(self).wf(),
            final(self).windows@ == old(self).windows@,
            final(self).platform@ == old(self).platform@,
            match r {
                Some(d) => old(self).images_meta.has(key@) && d == old(self).images_meta.spec_get(
                    key@,
                ) && final(self).images_meta.pairs@ == old(self).images_meta.pairs@.remove(
                    map_idx(old(self).images_meta.pairs@, key@),
                ) && !final(self).images_meta.has(key@),
                None => !old(self).images_meta.has(key@) && final(self).images_meta == old(
                    self).images_meta,
            },
    {
        let prev = match self.images_meta.get(key) {
            Some(d) => Some(*d),
            None => None,
        };
        match prev {
            Some(d) => {
                self.images_meta.remove_by_key(key);
                Some(d)
            },
            None => None,
        }
    }
}

/// The predicate keeping the platform routes of every window but `id`.
pub open spec fn not_routed_to(id: u32) -> spec_fn((u64, u32)) -> bool {
    |p: (u64, u32)| p.1 != id
}

/// Filtering the platform table keeps key uniqueness, keeps only routes to
/// other windows, and invents no entry.
proof fn lemma_filter_keeps_routes(s: Seq<(u64, u32)>, id: u32)
    requires
        assoc_unique(s),
    ensures
        assoc_unique(s.filter(not_routed_to(id))),
        forall|j: int|
            0 <= j < s.filter(not_routed_to(id)).len() ==> (#[trigger] s.filter(not_routed_to(id))[j]).1
                != id && exists|k: int| 0 <= k < s.len() && s[k] == s.filter(not_routed_to(id))[j],
    decreases s.len(),
{
    reveal(Seq::filter);
    let f = s.filter(not_routed_to(id));
    if s.len() == 0 {
    } else {
        let sub = s.drop_last();
        assert(assoc_unique(sub)) by {
            assert forall|i: int, j: int| 0 <= i < j < sub.len() implies (#[trigger] sub[i]).0 != (
            #[trigger] sub[j]).0 by {
                assert(s[i].0 != s[j].0);
            }
        }
        lemma_filter_keeps_routes(sub, id);
        let fs = sub.filter(not_routed_to(id));
        assert forall|j: int| 0 <= j < f.len() implies (#[trigger] f[j]).1 != id && exists|k: int|
            0 <= k < s.len() && s[k] == f[j] by {
            if j < fs.len() {
                assert(fs[j].1 != id);
                let k = choose|k: int| 0 <= k < sub.len() && sub[k] == fs[j];
                assert(s[k] == f[j]);
            } else {
                assert(f[j] == s.last());
                assert(s[s.len() - 1] == f[j]);
            }
        }
        assert forall|a: int, b: int| 0 <= a < b < f.len() implies (#[trigger] f[a]).0 != (
        #[trigger] f[b]).0 by {
            if b < fs.len() {
            } else {
                // b is the appended last element of s; a's entry comes from
                // the prefix, whose keys all differ from the last key.
                let k = choose|k: int| 0 <= k < sub.len() && sub[k] == fs[a];
                assert(s[k].0 != s[s.len() - 1].0);
            }
        }
    }
}

} // verus!
