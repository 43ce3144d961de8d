//! Per-window render state: the texture cache and the named-image table.
//!
//! A [`WindowState`] owns one render surface (held by the collaborator), a
//! camera pose, a cache mapping texture paths to GPU texture handles, and a
//! table mapping image names to [`ImageRecord`]s.  The CPU-side vertex copy
//! in each record is the source of truth for position, size and rotation
//! edits; every mutation re-derives a fresh GPU buffer and retargets the
//! drawable before the old buffer is released.

use vstd::prelude::*;

use crate::geom::{
    coord_ok, is_quad, is_rotated, is_translated, origin2_ok, point_ok, quad_in_bounds,
    quad_origin2, rotation_in_bounds, translation_in_bounds, vertices_ok, build_quad,
    rotate_vertices, translate_vertices, Point3, Rotation, Vertex, ROT_ONE,
};
use crate::strmap::{map_idx, StrMap};
use crate::types::{Color, GpuAction, SceneError, TextureSource};

verus! {

/// Handles are allocated from a per-window counter; the counter never
/// reaches this bound in practice, and mutations refuse to run when fewer
/// than four handles remain below it.
pub const HANDLE_LIMIT: u64 = 0x4000_0000_0000_0000;

/// Largest camera pitch magnitude, in tenths of a milliradian: just short
/// of a quarter turn, so the view never flips past straight up or down.
pub const PITCH_LIMIT: i64 = 15533;

/// Bound on the accumulated camera yaw, in tenths of a milliradian; wide
/// enough for many millions of full turns.
pub const YAW_LIMIT: i64 = 0x100_0000_0000;

/// `v` clamped into the interval `[lo, hi]`.
pub open spec fn clamped(v: int, lo: int, hi: int) -> int {
    if v < lo {
        lo
    } else if v > hi {
        hi
    } else {
        v
    }
}

/// A cached texture: its GPU handle and its native pixel dimensions.
#[derive(Clone, Copy, PartialEq, Eq, Structural, Debug)]
pub struct TextureEntry {
    pub handle: u64,
    pub width_px: u32,
    pub height_px: u32,
}

/// One named image: an axis-aligned (possibly rotated) textured quad.
///
/// `vertices` is the CPU-side copy of the six quad vertices, the source of
/// truth for edits; `buffer` is the handle of the GPU buffer currently
/// holding a faithful upload of it.  `origin2` caches twice the quad's
/// centroid at creation time and serves as the rotation pivot; it is not
/// refreshed by later translations (a documented limitation: a rotation
/// issued after a move pivots about the pre-move centroid).
#[derive(Clone, PartialEq, Eq, Debug)]
pub struct ImageRecord {
    pub vertices: Vec<Vertex>,
    pub buffer: u64,
    pub material: u64,
    pub drawable: u64,
    pub texture: u64,
    pub origin2: Point3,
}

/// Whether an image record is internally consistent and its handles were
/// allocated below `next`.
pub open spec fn record_ok(rec: ImageRecord, next: u64) -> bool {
    vertices_ok(rec.vertices@) && origin2_ok(rec.origin2) && rec.buffer < next && rec.material
        < next && rec.drawable < next && rec.texture < next
}

/// The render state of one window.
pub struct WindowState {
    /// Surface size in pixels, as last reported by the platform.
    pub width: u32,
    pub height: u32,
    /// Window title and visibility, as requested at creation.
    pub title: String,
    pub visible: bool,
    /// Background color of the window's stage.
    pub background: Color,
    /// Camera pose: yaw and pitch in tenths of a milliradian.
    pub yaw: i64,
    pub pitch: i64,
    /// Texture cache: path to GPU texture entry, each path uploaded at most
    /// once.
    pub textures: StrMap<TextureEntry>,
    /// Image table: name to image record.
    pub images: StrMap<ImageRecord>,
    /// Next unallocated GPU handle.
    pub next_handle: u64,
}

impl WindowState {
    /// The window's texture cache as a pair sequence.
    pub open spec fn tex_seq(&self) -> Seq<(String, TextureEntry)> {
        self.textures.pairs@
    }

    /// The window's image table as a pair sequence.
    pub open spec fn img_seq(&self) -> Seq<(String, ImageRecord)> {
        self.images.pairs@
    }

    /// Internal consistency: distinct keys in both tables, consistent
    /// records, and every handle allocated below `next_handle`.
    pub open spec fn wf(&self) -> bool {
        &&& self.textures.wf()
        &&& self.images.wf()
        &&& forall|i: int|
            0 <= i < self.img_seq().len() ==> record_ok(
                (#[trigger] self.img_seq()[i]).1,
                self.next_handle,
            )
        &&& forall|i: int|
            0 <= i < self.tex_seq().len() ==> (#[trigger] self.tex_seq()[i]).1.handle
                < self.next_handle
    }

    /// Whether `other` agrees with `self` on everything but the two tables
    /// and the handle counter.
    pub open spec fn same_config(&self, other: &WindowState) -> bool {
        &&& self.width == other.width
        &&& self.height == other.height
        &&& self.title@ == other.title@
        &&& self.visible == other.visible
        &&& self.background == other.background
        &&& self.yaw == other.yaw
        &&& self.pitch == other.pitch
    }

    /// A fresh window state: empty tables, a default camera pose, and no
    /// handles allocated.
    pub fn new(width: u32, height: u32, title: String, background: Color, visible: bool) -> (r:
        WindowState)
        ensures
            r.wf(),
            r.width == width,
            r.height == height,
            r.title@ == title@,
            r.background == background,
            r.visible == visible,
            r.yaw == 0 && r.pitch == 0,
            r.tex_seq().len() == 0,
            r.img_seq().len() == 0,
            r.next_handle == 1,
    {
        WindowState {
            width,
            height,
            title,
            visible,
            background,
            yaw: 0,
            pitch: 0,
            textures: StrMap::new(),
            images: StrMap::new(),
            next_handle: 1,
        }
    }

    /// Returns the cached texture handle for `path`, uploading and caching
    /// the decoded source only if the path is not yet cached.
    ///
    /// A cached path is never uploaded twice: a second load of the same
    /// path returns the handle of the first and performs no action.  A
    /// failed decode is not cached, so a later retry may succeed.
    pub fn load_texture(&mut self, path: &String, src: &TextureSource) -> (r: Result<
        (u64, Vec<GpuAction>),
        SceneError,
    >)
        requires
            old(self).wf(),
        ensures
            load_texture_post(*old(self), *final(self), *path, *src, r),
    {
        let cached = match self.textures.get(path) {
            Some(entry) => Some(entry.handle),
            None => None,
        };
        match cached {
            Some(h) => Ok((h, Vec::new())),
            None => match src {
                TextureSource::Decoded { width_px, height_px } => {
                    if self.next_handle >= HANDLE_LIMIT {
                        return Err(SceneError::OutOfRange);
                    }
                    let h = self.next_handle;
                    self.next_handle = self.next_handle + 1;
                    self.textures.insert_new(
                        path.clone(),
                        TextureEntry { handle: h, width_px: *width_px, height_px: *height_px },
                    );
                    let mut acts: Vec<GpuAction> = Vec::new();
                    acts.push(GpuAction::UploadTexture { texture: h, path: path.clone() });
                    proof {
                        assert forall|i: int| 0 <= i < self.img_seq().len() implies record_ok(
                            (#[trigger] self.img_seq()[i]).1,
                            self.next_handle,
                        ) by {
                            assert(record_ok(old(self).img_seq()[i].1, old(self).next_handle));
                        }
                        assert forall|i: int| 0 <= i < self.tex_seq().len() implies (
                        #[trigger] self.tex_seq()[i]).1.handle < self.next_handle by {
                            if i < self.tex_seq().len() - 1 {
                                assert(old(self).tex_seq()[i].1.handle < old(self).next_handle);
                            }
                        }
                    }
                    Ok((h, acts))
                },
                TextureSource::Unavailable => Err(SceneError::AssetLoadError),
            },
        }
    }

    /// Whether a texture for `path` can be produced: it is cached already,
    /// or `src` carries a decoded image.
    pub open spec fn can_resolve(&self, path: Seq<char>, src: TextureSource) -> bool {
        self.textures.has(path) || src is Decoded
    }

    /// The pixel width the image for `path` will have: the cached entry's
    /// width, or the decoded source's.
    pub open spec fn resolved_w(&self, path: Seq<char>, src: TextureSource) -> u32 {
        if self.textures.has(path) {
            self.textures.spec_get(path).width_px
        } else {
            src->Decoded_width_px
        }
    }

    /// The pixel height the image for `path` will have.
    pub open spec fn resolved_h(&self, path: Seq<char>, src: TextureSource) -> u32 {
        if self.textures.has(path) {
            self.textures.spec_get(path).height_px
        } else {
            src->Decoded_height_px
        }
    }

    /// Creates a named image: resolves its texture (uploading the decoded
    /// source only if the path is not cached), builds the six-vertex quad
    /// anchored at `(x, y, z)` and sized from the texture's native pixel
    /// dimensions, and orders the buffer upload, material creation and
    /// drawable registration.
    ///
    /// Fails with `DuplicateImage` if the name is taken, `AssetLoadError`
    /// if the texture is neither cached nor decodable, and `OutOfRange` if
    /// the quad would leave the representable world range or the handle
    /// space is exhausted; on failure nothing changes.
    pub fn add_image(
        &mut self,
        name: String,
        path: String,
        x: i64,
        y: i64,
        z: i64,
        src: &TextureSource,
    ) -> (r: Result<Vec<GpuAction>, SceneError>)
        requires
            old(self).wf(),
        ensures
            add_image_post(*old(self), *final(self), name, path, x, y, z, *src, r),
    {
        if self.images.contains(&name) {
            return Err(SceneError::DuplicateImage);
        }
        let cached_entry: Option<TextureEntry> = match self.textures.get(&path) {
            Some(e) => Some(*e),
            None => None,
        };
        let (w0, h0): (u32, u32) = match cached_entry {
            Some(e) => (e.width_px, e.height_px),
            None => match src {
                TextureSource::Decoded { width_px, height_px } => (*width_px, *height_px),
                TextureSource::Unavailable => {
                    return Err(SceneError::AssetLoadError);
                },
            },
        };
        if self.next_handle > HANDLE_LIMIT - 4 {
            return Err(SceneError::OutOfRange);
        }
        let vs: Vec<Vertex> = match build_quad(x, y, z, w0, h0) {
            Some(vs) => vs,
            None => {
                return Err(SceneError::OutOfRange);
            },
        };
        let mut acts: Vec<GpuAction> = Vec::new();
        let t: u64;
        match cached_entry {
            Some(e) => {
                t = e.handle;
            },
            None => {
                t = self.next_handle;
                self.next_handle = self.next_handle + 1;
                self.textures.insert_new(
                    path.clone(),
                    TextureEntry { handle: t, width_px: w0, height_px: h0 },
                );
                acts.push(GpuAction::UploadTexture { texture: t, path: path });
            },
        }
        let b = self.next_handle;
        self.next_handle = self.next_handle + 3;
        let wi = w0 as i64;
        let hi = h0 as i64;
        let origin2 = Point3 { x: 2 * x + wi, y: 2 * y + hi, z: 2 * z };
        let vs_gpu = vs.clone();
        proof {
            assert(vs_gpu@ =~= vs@);
        }
        acts.push(GpuAction::AllocateBuffer { buffer: b, vertices: vs_gpu });
        acts.push(GpuAction::CreateMaterial { material: b + 1, texture: t });
        acts.push(GpuAction::RegisterDrawable { drawable: b + 2, buffer: b, material: b + 1 });
        let rec = ImageRecord {
            vertices: vs,
            buffer: b,
            material: b + 1,
            drawable: b + 2,
            texture: t,
            origin2,
        };
        self.images.insert_new(name, rec);
        proof {
            assert forall|i: int| 0 <= i < self.img_seq().len() implies record_ok(
                (#[trigger] self.img_seq()[i]).1,
                self.next_handle,
            ) by {
                if i < self.img_seq().len() - 1 {
                    assert(record_ok(old(self).img_seq()[i].1, old(self).next_handle));
                }
            }
            assert forall|i: int| 0 <= i < self.tex_seq().len() implies (
            #[trigger] self.tex_seq()[i]).1.handle < self.next_handle by {
                if i < old(self).tex_seq().len() {
                    assert(old(self).tex_seq()[i].1.handle < old(self).next_handle);
                }
            }
        }
        Ok(acts)
    }

    /// Whether `new` is `old_w` with the image at table index `idx` edited:
    /// its record holds the vertices `nvs` in a freshly allocated buffer,
    /// everything else about the record and the window is kept, and `acts`
    /// orders the new buffer's upload, the drawable's atomic retarget, and
    /// only then the old buffer's release.
    pub open spec fn buffer_swapped(
        old_w: WindowState,
        new: WindowState,
        idx: int,
        nvs: Seq<Vertex>,
        acts: Seq<GpuAction>,
    ) -> bool {
        let oldrec = old_w.img_seq()[idx].1;
        let newrec = new.img_seq()[idx].1;
        &&& new.img_seq() == old_w.img_seq().update(idx, (old_w.img_seq()[idx].0, newrec))
        &&& newrec.vertices@ == nvs
        &&& newrec.buffer == old_w.next_handle
        &&& newrec.material == oldrec.material
        &&& newrec.drawable == oldrec.drawable
        &&& newrec.texture == oldrec.texture
        &&& newrec.origin2 == oldrec.origin2
        &&& new.next_handle == old_w.next_handle + 1
        &&& new.tex_seq() == old_w.tex_seq()
        &&& acts.len() == 3
        &&& (acts[0] matches GpuAction::AllocateBuffer { buffer, vertices } && buffer
            == old_w.next_handle && vertices@ == nvs)
        &&& acts[1] == (GpuAction::SetDrawableBuffer {
            drawable: oldrec.drawable,
            buffer: old_w.next_handle,
        })
        &&& acts[2] == (GpuAction::ReleaseBuffer { buffer: oldrec.buffer })
    }

    /// Replaces the record at index `idx` with one holding `nvs` in a fresh
    /// buffer and returns the swap actions.  Shared tail of the three edit
    /// operations.
    fn swap_buffer(&mut self, idx: usize, nvs: Vec<Vertex>) -> (acts: Vec<GpuAction>)
        requires
            old(self).wf(),
            idx < old(self).img_seq().len(),
            vertices_ok(nvs@),
            old(self).next_handle < HANDLE_LIMIT,
        ensures
            final(self).wf(),
            final(self).same_config(old(self)),
            WindowState::buffer_swapped(*old(self), *final(self), idx as int, nvs@, acts@),
    {
        proof {
            assert(record_ok(old(self).img_seq()[idx as int].1, old(self).next_handle));
        }
        let material = self.images.at(idx).1.material;
        let drawable = self.images.at(idx).1.drawable;
        let texture = self.images.at(idx).1.texture;
        let old_buffer = self.images.at(idx).1.buffer;
        let origin2 = self.images.at(idx).1.origin2;
        let nb = self.next_handle;
        self.next_handle = self.next_handle + 1;
        let nvs_gpu = nvs.clone();
        proof {
            assert(nvs_gpu@ =~= nvs@);
        }
        let newrec = ImageRecord { vertices: nvs, buffer: nb, material, drawable, texture, origin2 };
        self.images.set_at(idx, newrec);
        let mut acts: Vec<GpuAction> = Vec::new();
        acts.push(GpuAction::AllocateBuffer { buffer: nb, vertices: nvs_gpu });
        acts.push(GpuAction::SetDrawableBuffer { drawable, buffer: nb });
        acts.push(GpuAction::ReleaseBuffer { buffer: old_buffer });
        proof {
            assert forall|i: int| 0 <= i < self.img_seq().len() implies record_ok(
                (#[trigger] self.img_seq()[i]).1,
                self.next_handle,
            ) by {
                assert(record_ok(old(self).img_seq()[i].1, old(self).next_handle));
            }
            assert forall|i: int| 0 <= i < self.tex_seq().len() implies (
            #[trigger] self.tex_seq()[i]).1.handle < self.next_handle by {
                assert(old(self).tex_seq()[i].1.handle < old(self).next_handle);
            }
        }
        acts
    }

    /// Moves the image `name` so that its anchor (the first vertex's
    /// current position) lands on `(x, y, z)`, translating all six vertices
    /// by the same delta and so preserving the quad's extent and rotation.
    /// The cached rotation pivot is not refreshed.
    ///
    /// Fails with `UnknownImage` if the name is absent and with `OutOfRange`
    /// if a translated coordinate would leave the representable world range
    /// or the handle space is exhausted; on failure nothing changes.
    pub fn set_image_position(&mut self, name: &String, x: i64, y: i64, z: i64) -> (r: Result<
        Vec<GpuAction>,
        SceneError,
    >)
        requires
            old(self).wf(),
        ensures
            set_position_post(*old(self), *final(self), name@, x, y, z, r),
    {
        let idx = match self.images.find(name) {
            Some(i) => i,
            None => {
                return Err(SceneError::UnknownImage);
            },
        };
        if self.next_handle >= HANDLE_LIMIT {
            return Err(SceneError::OutOfRange);
        }
        proof {
            assert(record_ok(self.img_seq()[idx as int].1, self.next_handle));
        }
        let nvs = match translate_vertices(&self.images.at(idx).1.vertices, x, y, z) {
            Some(n) => n,
            None => {
                return Err(SceneError::OutOfRange);
            },
        };
        Ok(self.swap_buffer(idx, nvs))
    }

    /// Resizes the image `name` to `width_px` by `height_px` pixels,
    /// re-deriving all six vertices from the first vertex's current
    /// position (the anchor); any rotation previously applied to the quad
    /// shape is discarded.  The cached rotation pivot is not refreshed.
    ///
    /// Fails with `UnknownImage` if the name is absent and with `OutOfRange`
    /// if the resized quad would leave the representable world range or the
    /// handle space is exhausted; on failure nothing changes.
    pub fn set_image_size(&mut self, name: &String, width_px: u32, height_px: u32) -> (r: Result<
        Vec<GpuAction>,
        SceneError,
    >)
        requires
            old(self).wf(),
        ensures
            set_size_post(*old(self), *final(self), name@, width_px, height_px, r),
    {
        let idx = match self.images.find(name) {
            Some(i) => i,
            None => {
                return Err(SceneError::UnknownImage);
            },
        };
        if self.next_handle >= HANDLE_LIMIT {
            return Err(SceneError::OutOfRange);
        }
        proof {
            assert(record_ok(self.img_seq()[idx as int].1, self.next_handle));
        }
        let a = self.images.at(idx).1.vertices[0].pos;
        let nvs = match build_quad(a.x, a.y, a.z, width_px, height_px) {
            Some(n) => n,
            None => {
                return Err(SceneError::OutOfRange);
            },
        };
        Ok(self.swap_buffer(idx, nvs))
    }

    /// Rotates the image `name` by `rot` about its cached pivot (twice the
    /// centroid at creation time, not refreshed by later moves): each vertex
    /// position is rotated about the z-axis through the pivot.  Repeated
    /// relative rotations compound.
    ///
    /// Fails with `UnknownImage` if the name is absent and with `OutOfRange`
    /// if the rotation pair is out of scale, a rotated coordinate would
    /// leave the representable world range, or the handle space is
    /// exhausted; on failure nothing changes.
    pub fn set_image_rotation(&mut self, name: &String, rot: &Rotation) -> (r: Result<
        Vec<GpuAction>,
        SceneError,
    >)
        requires
            old(self).wf(),
        ensures
            set_rotation_post(*old(self), *final(self), name@, *rot, r),
    {
        let idx = match self.images.find(name) {
            Some(i) => i,
            None => {
                return Err(SceneError::UnknownImage);
            },
        };
        if rot.cos < -ROT_ONE || rot.cos > ROT_ONE || rot.sin < -ROT_ONE || rot.sin > ROT_ONE {
            return Err(SceneError::OutOfRange);
        }
        if self.next_handle >= HANDLE_LIMIT {
            return Err(SceneError::OutOfRange);
        }
        proof {
            assert(record_ok(self.img_seq()[idx as int].1, self.next_handle));
        }
        let origin2 = self.images.at(idx).1.origin2;
        let nvs = match rotate_vertices(&self.images.at(idx).1.vertices, &origin2, rot) {
            Some(n) => n,
            None => {
                return Err(SceneError::OutOfRange);
            },
        };
        Ok(self.swap_buffer(idx, nvs))
    }

    /// Removes the image `name` and orders the release of its drawable,
    /// material and buffer handles, in that order.
    ///
    /// Fails with `UnknownImage` if the name is absent, leaving the image
    /// table (and everything else) unchanged.
    pub fn delete_image(&mut self, name: &String) -> (r: Result<Vec<GpuAction>, SceneError>)
        requires
            old(self).wf(),
        ensures
            delete_image_post(*old(self), *final(self), name@, r),
    {
        let idx = match self.images.find(name) {
            Some(i) => i,
            None => {
                return Err(SceneError::UnknownImage);
            },
        };
        let (_, rec) = self.images.remove_at(idx);
        let mut acts: Vec<GpuAction> = Vec::new();
        acts.push(GpuAction::ReleaseDrawable { drawable: rec.drawable });
        acts.push(GpuAction::ReleaseMaterial { material: rec.material });
        acts.push(GpuAction::ReleaseBuffer { buffer: rec.buffer });
        proof {
            assert forall|i: int| 0 <= i < self.img_seq().len() implies record_ok(
                (#[trigger] self.img_seq()[i]).1,
                self.next_handle,
            ) by {
                if i < idx {
                    assert(record_ok(old(self).img_seq()[i].1, old(self).next_handle));
                } else {
                    assert(record_ok(old(self).img_seq()[i + 1].1, old(self).next_handle));
                }
            }
            assert forall|i: int| 0 <= i < self.tex_seq().len() implies (
            #[trigger] self.tex_seq()[i]).1.handle < self.next_handle by {
                assert(old(self).tex_seq()[i].1.handle < old(self).next_handle);
            }
        }
        Ok(acts)
    }

    /// Whether some image still references the texture handle `handle`.
    pub open spec fn texture_referenced(&self, handle: u64) -> bool {
        exists|i: int| 0 <= i < self.img_seq().len() && (#[trigger] self.img_seq()[i]).1.texture
            == handle
    }

    /// Removes the cached texture for `path` and orders its release.
    ///
    /// Fails with `UnknownTexture` if the path is not cached and with
    /// `TextureInUse` if any image still references the texture (so a
    /// drawable's material is never left pointing at a released texture);
    /// on failure nothing changes.
    pub fn delete_texture(&mut self, path: &String) -> (r: Result<Vec<GpuAction>, SceneError>)
        requires
            old(self).wf(),
        ensures
            delete_texture_post(*old(self), *final(self), path@, r),
    {
        let idx = match self.textures.find(path) {
            Some(i) => i,
            None => {
                return Err(SceneError::UnknownTexture);
            },
        };
        let handle = self.textures.at(idx).1.handle;
        let n = self.images.len();
        let mut i: usize = 0;
        while i < n
            invariant
                *self == *old(self),
                self.wf(),
                self.textures.has(path@),
                idx < self.tex_seq().len(),
                self.tex_seq()[idx as int].0@ == path@,
                map_idx(self.tex_seq(), path@) == idx,
                handle == self.tex_seq()[idx as int].1.handle,
                n == self.img_seq().len(),
                0 <= i <= n,
                forall|j: int| 0 <= j < i ==> (#[trigger] self.img_seq()[j]).1.texture != handle,
            decreases n - i,
        {
            if self.images.at(i).1.texture == handle {
                return Err(SceneError::TextureInUse);
            }
            i = i + 1;
        }
        self.textures.remove_at(idx);
        let mut acts: Vec<GpuAction> = Vec::new();
        acts.push(GpuAction::ReleaseTexture { texture: handle });
        proof {
            assert forall|i2: int| 0 <= i2 < self.tex_seq().len() implies (
            #[trigger] self.tex_seq()[i2]).1.handle < self.next_handle by {
                if i2 < idx {
                    assert(old(self).tex_seq()[i2].1.handle < old(self).next_handle);
                } else {
                    assert(old(self).tex_seq()[i2 + 1].1.handle < old(self).next_handle);
                }
            }
        }
        Ok(acts)
    }

    /// Turns the camera by the given yaw and pitch deltas, in tenths of a
    /// milliradian.  The pitch is clamped to [`PITCH_LIMIT`] so the camera
    /// never flips past straight up or down; the yaw is clamped only at a
    /// generous machine bound.  Nothing else about the window changes.
    pub fn orbit_camera(&mut self, dyaw: i64, dpitch: i64)
        requires
            old(self).wf(),
        ensures
            final(self).wf(),
            final(self).yaw == clamped(old(self).yaw + dyaw, -YAW_LIMIT as int, YAW_LIMIT as int),
            final(self).pitch == clamped(
                old(self).pitch + dpitch,
                -PITCH_LIMIT as int,
                PITCH_LIMIT as int,
            ),
            final(self).img_seq() == old(self).img_seq(),
            final(self).tex_seq() == old(self).tex_seq(),
            final(self).next_handle == old(self).next_handle,
            final(self).width == old(self).width && final(self).height == old(self).height,
            final(self).title@ == old(self).title@,
            final(self).visible == old(self).visible,
            final(self).background == old(self).background,
    {
        let ny: i128 = self.yaw as i128 + dyaw as i128;
        self.yaw = if ny < -YAW_LIMIT as i128 {
            -YAW_LIMIT
        } else if ny > YAW_LIMIT as i128 {
            YAW_LIMIT
        } else {
            ny as i64
        };
        let np: i128 = self.pitch as i128 + dpitch as i128;
        self.pitch = if np < -PITCH_LIMIT as i128 {
            -PITCH_LIMIT
        } else if np > PITCH_LIMIT as i128 {
            PITCH_LIMIT
        } else {
            np as i64
        };
        proof {
            assert forall|i: int| 0 <= i < self.img_seq().len() implies record_ok(
                (#[trigger] self.img_seq()[i]).1,
                self.next_handle,
            ) by {
                assert(record_ok(old(self).img_seq()[i].1, old(self).next_handle));
            }
            assert forall|i: int| 0 <= i < self.tex_seq().len() implies (
            #[trigger] self.tex_seq()[i]).1.handle < self.next_handle by {
                assert(old(self).tex_seq()[i].1.handle < old(self).next_handle);
            }
        }
    }

    /// The actions releasing every GPU handle the window owns: for each
    /// image its drawable, material and buffer, then each cached texture.
    pub fn release_actions(&self) -> (r: Vec<GpuAction>)
        ensures
            r@ == release_of_images(self.img_seq()) + release_of_textures(self.tex_seq()),
    {
        let mut acts: Vec<GpuAction> = Vec::new();
        let n = self.images.len();
        let mut i: usize = 0;
        while i < n
            invariant
                n == self.img_seq().len(),
                0 <= i <= n,
                acts@ =~= release_of_images(self.img_seq().subrange(0, i as int)),
            decreases n - i,
        {
            let rec = self.images.at(i);
            acts.push(GpuAction::ReleaseDrawable { drawable: rec.1.drawable });
            acts.push(GpuAction::ReleaseMaterial { material: rec.1.material });
            acts.push(GpuAction::ReleaseBuffer { buffer: rec.1.buffer });
            proof {
                let s = self.img_seq().subrange(0, i + 1);
                assert(s.drop_last() =~= self.img_seq().subrange(0, i as int));
                assert(s.last() == self.img_seq()[i as int]);
                assert(acts@ =~= release_of_images(self.img_seq().subrange(0, i + 1)));
            }
            i = i + 1;
        }
        proof {
            assert(self.img_seq().subrange(0, n as int) =~= self.img_seq());
        }
        let m = self.textures.len();
        let mut k: usize = 0;
        while k < m
            invariant
                m == self.tex_seq().len(),
                0 <= k <= m,
                acts@ =~= release_of_images(self.img_seq()) + release_of_textures(
                    self.tex_seq().subrange(0, k as int),
                ),
            decreases m - k,
        {
            let entry = self.textures.at(k);
            acts.push(GpuAction::ReleaseTexture { texture: entry.1.handle });
            proof {
                let s = self.tex_seq().subrange(0, k + 1);
                assert(s.drop_last() =~= self.tex_seq().subrange(0, k as int));
                assert(s.last() == self.tex_seq()[k as int]);
                assert(acts@ =~= release_of_images(self.img_seq()) + release_of_textures(
                    self.tex_seq().subrange(0, k + 1),
                ));
            }
            k = k + 1;
        }
        proof {
            assert(self.tex_seq().subrange(0, m as int) =~= self.tex_seq());
        }
        acts
    }
}

/// What [`WindowState::load_texture`] guarantees, relating the window
/// before (`w0`) and after (`w1`) the call to its result.
pub open spec fn load_texture_post(
    w0: WindowState,
    w1: WindowState,
    path: String,
    src: TextureSource,
    r: Result<(u64, Vec<GpuAction>), SceneError>,
) -> bool {
    &&& w1.wf()
    &&& w1.same_config(&w0)
    &&& w1.img_seq() == w0.img_seq()
    // A cached path: its handle is returned, nothing changes, no upload.
    &&& (w0.textures.has(path@) ==> (r matches Ok((h, acts)) && h == w0.textures.spec_get(
        path@,
    ).handle && acts@.len() == 0 && w1.tex_seq() == w0.tex_seq() && w1.next_handle
        == w0.next_handle))
    // A decodable new path: a fresh handle is cached and one upload ordered.
    &&& (!w0.textures.has(path@) && (src matches TextureSource::Decoded { .. })
        && w0.next_handle < HANDLE_LIMIT ==> (r matches Ok((h, acts)) && h == w0.next_handle
        && w1.tex_seq() == w0.tex_seq().push(
        (
            path,
            TextureEntry {
                handle: h,
                width_px: src->Decoded_width_px,
                height_px: src->Decoded_height_px,
            },
        ),
    ) && w1.next_handle == w0.next_handle + 1 && acts@.len() == 1 && acts@[0]
        == (GpuAction::UploadTexture { texture: h, path: path })))
    // An undecodable new path: the error is reported and the cache is not
    // poisoned.
    &&& (!w0.textures.has(path@) && src is Unavailable ==> r == Result::<
        (u64, Vec<GpuAction>),
        SceneError,
    >::Err(SceneError::AssetLoadError) && w1 == w0)
    &&& (!w0.textures.has(path@) && (src matches TextureSource::Decoded { .. })
        && w0.next_handle >= HANDLE_LIMIT ==> r == Result::<(u64, Vec<GpuAction>), SceneError>::Err(
        SceneError::OutOfRange,
    ) && w1 == w0)
}

/// What [`WindowState::add_image`] guarantees, relating the window before
/// (`w0`) and after (`w1`) the call to its result.
pub open spec fn add_image_post(
    w0: WindowState,
    w1: WindowState,
    name: String,
    path: String,
    x: i64,
    y: i64,
    z: i64,
    src: TextureSource,
    r: Result<Vec<GpuAction>, SceneError>,
) -> bool {
    &&& w1.wf()
    &&& w1.same_config(&w0)
    &&& (w0.images.has(name@) ==> r == Result::<Vec<GpuAction>, SceneError>::Err(
        SceneError::DuplicateImage,
    ) && w1 == w0)
    &&& (!w0.images.has(name@) && !w0.can_resolve(path@, src) ==> r == Result::<
        Vec<GpuAction>,
        SceneError,
    >::Err(SceneError::AssetLoadError) && w1 == w0)
    &&& (!w0.images.has(name@) && w0.can_resolve(path@, src) && w0.next_handle > HANDLE_LIMIT - 4
        ==> r == Result::<Vec<GpuAction>, SceneError>::Err(SceneError::OutOfRange) && w1 == w0)
    &&& (!w0.images.has(name@) && w0.can_resolve(path@, src) && w0.next_handle <= HANDLE_LIMIT - 4
        && !quad_in_bounds(
        x as int,
        y as int,
        z as int,
        w0.resolved_w(path@, src) as int,
        w0.resolved_h(path@, src) as int,
    ) ==> r == Result::<Vec<GpuAction>, SceneError>::Err(SceneError::OutOfRange) && w1 == w0)
    // Success: the name was free, the texture resolved, and the quad fits.
    // One record is appended; the exact handles, vertices and GPU actions
    // are pinned below.
    &&& ({
        let cached = w0.textures.has(path@);
        let wpx = w0.resolved_w(path@, src) as int;
        let hpx = w0.resolved_h(path@, src) as int;
        let t: int = if cached {
            w0.textures.spec_get(path@).handle as int
        } else {
            w0.next_handle as int
        };
        let b: int = if cached {
            w0.next_handle as int
        } else {
            w0.next_handle + 1
        };
        !w0.images.has(name@) && w0.can_resolve(path@, src) && w0.next_handle <= HANDLE_LIMIT - 4
            && quad_in_bounds(x as int, y as int, z as int, wpx, hpx) ==> (r matches Ok(acts) && {
            let rec = w1.images.spec_get(name@);
            &&& w1.images.has(name@)
            &&& w1.img_seq() == w0.img_seq().push((name, rec))
            &&& is_quad(rec.vertices@, x as int, y as int, z as int, wpx, hpx)
            &&& rec.origin2 == quad_origin2(x as int, y as int, z as int, wpx, hpx)
            &&& rec.texture == t
            &&& rec.buffer == b
            &&& rec.material == b + 1
            &&& rec.drawable == b + 2
            &&& w1.next_handle == w0.next_handle + (if cached {
                3int
            } else {
                4int
            })
            &&& (cached ==> w1.tex_seq() == w0.tex_seq() && acts@.len() == 3)
            &&& (!cached ==> w1.tex_seq() == w0.tex_seq().push(
                (
                    path,
                    TextureEntry { handle: t as u64, width_px: wpx as u32, height_px: hpx as u32 },
                ),
            ) && acts@.len() == 4 && acts@[0] == (GpuAction::UploadTexture {
                texture: t as u64,
                path: path,
            }))
            &&& ({
                let base = acts@.len() - 3;
                &&& (acts@[base] matches GpuAction::AllocateBuffer { buffer, vertices } && buffer
                    == b && vertices@ == rec.vertices@)
                &&& acts@[base + 1] == (GpuAction::CreateMaterial {
                    material: (b + 1) as u64,
                    texture: t as u64,
                })
                &&& acts@[base + 2] == (GpuAction::RegisterDrawable {
                    drawable: (b + 2) as u64,
                    buffer: b as u64,
                    material: (b + 1) as u64,
                })
            })
        })
    })
}

/// What [`WindowState::set_image_position`] guarantees, relating the
/// window before (`w0`) and after (`w1`) the call to its result.
pub open spec fn set_position_post(
    w0: WindowState,
    w1: WindowState,
    name: Seq<char>,
    x: i64,
    y: i64,
    z: i64,
    r: Result<Vec<GpuAction>, SceneError>,
) -> bool {
    &&& w1.wf()
    &&& w1.same_config(&w0)
    &&& (!w0.images.has(name) ==> r == Result::<Vec<GpuAction>, SceneError>::Err(
        SceneError::UnknownImage,
    ) && w1 == w0)
    &&& ({
        let idx = map_idx(w0.img_seq(), name);
        let oldrec = w0.img_seq()[idx].1;
        &&& (w0.images.has(name) && (w0.next_handle >= HANDLE_LIMIT || !translation_in_bounds(
            oldrec.vertices@,
            x as int,
            y as int,
            z as int,
        )) ==> r == Result::<Vec<GpuAction>, SceneError>::Err(SceneError::OutOfRange) && w1 == w0)
        &&& (w0.images.has(name) && w0.next_handle < HANDLE_LIMIT && translation_in_bounds(
            oldrec.vertices@,
            x as int,
            y as int,
            z as int,
        ) ==> (r matches Ok(acts) && is_translated(
            w1.img_seq()[idx].1.vertices@,
            oldrec.vertices@,
            x as int,
            y as int,
            z as int,
        ) && WindowState::buffer_swapped(w0, w1, idx, w1.img_seq()[idx].1.vertices@, acts@)))
    })
}

/// What [`WindowState::set_image_size`] guarantees, relating the window
/// before (`w0`) and after (`w1`) the call to its result.
pub open spec fn set_size_post(
    w0: WindowState,
    w1: WindowState,
    name: Seq<char>,
    width_px: u32,
    height_px: u32,
    r: Result<Vec<GpuAction>, SceneError>,
) -> bool {
    &&& w1.wf()
    &&& w1.same_config(&w0)
    &&& (!w0.images.has(name) ==> r == Result::<Vec<GpuAction>, SceneError>::Err(
        SceneError::UnknownImage,
    ) && w1 == w0)
    &&& ({
        let idx = map_idx(w0.img_seq(), name);
        let a = w0.img_seq()[idx].1.vertices@[0].pos;
        &&& (w0.images.has(name) && (w0.next_handle >= HANDLE_LIMIT || !quad_in_bounds(
            a.x as int,
            a.y as int,
            a.z as int,
            width_px as int,
            height_px as int,
        )) ==> r == Result::<Vec<GpuAction>, SceneError>::Err(SceneError::OutOfRange) && w1 == w0)
        &&& (w0.images.has(name) && w0.next_handle < HANDLE_LIMIT && quad_in_bounds(
            a.x as int,
            a.y as int,
            a.z as int,
            width_px as int,
            height_px as int,
        ) ==> (r matches Ok(acts) && is_quad(
            w1.img_seq()[idx].1.vertices@,
            a.x as int,
            a.y as int,
            a.z as int,
            width_px as int,
            height_px as int,
        ) && WindowState::buffer_swapped(w0, w1, idx, w1.img_seq()[idx].1.vertices@, acts@)))
    })
}

/// What [`WindowState::set_image_rotation`] guarantees, relating the
/// window before (`w0`) and after (`w1`) the call to its result.
pub open spec fn set_rotation_post(
    w0: WindowState,
    w1: WindowState,
    name: Seq<char>,
    rot: Rotation,
    r: Result<Vec<GpuAction>, SceneError>,
) -> bool {
    &&& w1.wf()
    &&& w1.same_config(&w0)
    &&& (!w0.images.has(name) ==> r == Result::<Vec<GpuAction>, SceneError>::Err(
        SceneError::UnknownImage,
    ) && w1 == w0)
    &&& ({
        let idx = map_idx(w0.img_seq(), name);
        let oldrec = w0.img_seq()[idx].1;
        &&& (w0.images.has(name) && (!rot.wf() || w0.next_handle >= HANDLE_LIMIT
            || !rotation_in_bounds(oldrec.vertices@, oldrec.origin2, rot)) ==> r == Result::<
            Vec<GpuAction>,
            SceneError,
        >::Err(SceneError::OutOfRange) && w1 == w0)
        &&& (w0.images.has(name) && rot.wf() && w0.next_handle < HANDLE_LIMIT
            && rotation_in_bounds(oldrec.vertices@, oldrec.origin2, rot) ==> (r matches Ok(acts)
            && is_rotated(w1.img_seq()[idx].1.vertices@, oldrec.vertices@, oldrec.origin2, rot)
            && WindowState::buffer_swapped(w0, w1, idx, w1.img_seq()[idx].1.vertices@, acts@)))
    })
}

/// What [`WindowState::delete_image`] guarantees, relating the window
/// before (`w0`) and after (`w1`) the call to its result.
pub open spec fn delete_image_post(
    w0: WindowState,
    w1: WindowState,
    name: Seq<char>,
    r: Result<Vec<GpuAction>, SceneError>,
) -> bool {
    &&& w1.wf()
    &&& w1.same_config(&w0)
    &&& (!w0.images.has(name) ==> r == Result::<Vec<GpuAction>, SceneError>::Err(
        SceneError::UnknownImage,
    ) && w1 == w0)
    &&& ({
        let idx = map_idx(w0.img_seq(), name);
        let oldrec = w0.img_seq()[idx].1;
        w0.images.has(name) ==> (r matches Ok(acts) && w1.img_seq() == w0.img_seq().remove(idx)
            && !w1.images.has(name) && w1.tex_seq() == w0.tex_seq() && w1.next_handle
            == w0.next_handle && acts@ =~= release_of_record(oldrec))
    })
}

/// What [`WindowState::delete_texture`] guarantees, relating the window
/// before (`w0`) and after (`w1`) the call to its result.
pub open spec fn delete_texture_post(
    w0: WindowState,
    w1: WindowState,
    path: Seq<char>,
    r: Result<Vec<GpuAction>, SceneError>,
) -> bool {
    &&& w1.wf()
    &&& w1.same_config(&w0)
    &&& (!w0.textures.has(path) ==> r == Result::<Vec<GpuAction>, SceneError>::Err(
        SceneError::UnknownTexture,
    ) && w1 == w0)
    &&& (w0.textures.has(path) && w0.texture_referenced(w0.textures.spec_get(path).handle) ==> r
        == Result::<Vec<GpuAction>, SceneError>::Err(SceneError::TextureInUse) && w1 == w0)
    &&& (w0.textures.has(path) && !w0.texture_referenced(w0.textures.spec_get(path).handle) ==> ({
        let idx = map_idx(w0.tex_seq(), path);
        r matches Ok(acts) && w1.tex_seq() == w0.tex_seq().remove(idx) && !w1.textures.has(path)
            && w1.img_seq() == w0.img_seq() && w1.next_handle == w0.next_handle && acts@.len() == 1
            && acts@[0] == (GpuAction::ReleaseTexture {
            texture: w0.textures.spec_get(path).handle,
        })
    }))
}

/// The release actions for one image record: drawable, material, buffer.
pub open spec fn release_of_record(rec: ImageRecord) -> Seq<GpuAction> {
    seq![
        GpuAction::ReleaseDrawable { drawable: rec.drawable },
        GpuAction::ReleaseMaterial { material: rec.material },
        GpuAction::ReleaseBuffer { buffer: rec.buffer },
    ]
}

/// The release actions for a whole image table, in table order.
pub open spec fn release_of_images(s: Seq<(String, ImageRecord)>) -> Seq<GpuAction>
    decreases s.len(),
{
    if s.len() == 0 {
        Seq::empty()
    } else {
        release_of_images(s.drop_last()) + release_of_record(s.last().1)
    }
}

/// The release actions for a whole texture cache, in cache order.
pub open spec fn release_of_textures(s: Seq<(String, TextureEntry)>) -> Seq<GpuAction>
    decreases s.len(),
{
    if s.len() == 0 {
        Seq::empty()
    } else {
        release_of_textures(s.drop_last()) + seq![
            GpuAction::ReleaseTexture { texture: s.last().1.handle },
        ]
    }
}

} // verus!
