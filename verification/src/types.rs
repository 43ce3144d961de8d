//! Shared scene types: errors, colors, decoded textures, and the actions
//! the GPU collaborator is asked to perform.
//!
//! The manager never talks to the GPU itself.  Every mutation returns the
//! exact list of [`GpuAction`] values that the caller (the render loop that
//! owns the real device) must carry out, in order.  Handles are opaque
//! integers allocated by the manager; the collaborator maps them to real
//! GPU objects.

use vstd::prelude::*;

use crate::geom::Vertex;

verus! {

/// Why a scene mutation was refused.  Failures are per-command and never
/// poison later commands.
#[derive(Clone, Copy, PartialEq, Eq, Structural, Debug)]
pub enum SceneError {
    /// The targeted window id is not (or no longer) present.
    UnknownWindow,
    /// A window with the given id already exists.
    DuplicateWindow,
    /// The targeted image name is not present in the window's image table.
    UnknownImage,
    /// An image with the given name already exists in the window.
    DuplicateImage,
    /// The targeted texture path is not cached in the window.
    UnknownTexture,
    /// The texture is still referenced by at least one image and may not be
    /// deleted.
    TextureInUse,
    /// The texture's source could not be decoded; nothing was cached.
    AssetLoadError,
    /// A render target could not be acquired for a frame; the frame is
    /// skipped and the next one retried.
    SurfaceAcquireError,
    /// A machine limit was hit: a coordinate left the representable world
    /// range, or the handle space is exhausted.  The scene is unchanged.
    OutOfRange,
}

/// An RGBA color with 8-bit channels.
#[derive(Clone, Copy, PartialEq, Eq, Structural, Debug)]
pub struct Color {
    pub r: u8,
    pub g: u8,
    pub b: u8,
    pub a: u8,
}

/// The outcome of decoding a texture's source, performed by the producer
/// before the command is enqueued so that the consumer thread never blocks
/// on I/O.
#[derive(Clone, Copy, PartialEq, Eq, Structural, Debug)]
pub enum TextureSource {
    /// The source decoded to an image of the given pixel dimensions.
    Decoded { width_px: u32, height_px: u32 },
    /// The source could not be decoded.
    Unavailable,
}

/// One instruction to the GPU collaborator.  Each mutation returns the
/// instructions it requires, in the order they must run; in particular a
/// drawable is always retargeted to a freshly allocated buffer before the
/// old buffer is released, so a concurrent redraw never observes a
/// half-updated quad.
#[derive(Clone, PartialEq, Eq, Debug)]
pub enum GpuAction {
    /// Upload the decoded image at `path` and bind it to handle `texture`.
    UploadTexture { texture: u64, path: String },
    /// Upload `vertices` into a new GPU vertex buffer bound to `buffer`.
    AllocateBuffer { buffer: u64, vertices: Vec<Vertex> },
    /// Create a material bound to `texture` under handle `material`.
    CreateMaterial { material: u64, texture: u64 },
    /// Register a drawable tying `buffer` and `material` together.
    RegisterDrawable { drawable: u64, buffer: u64, material: u64 },
    /// Atomically retarget `drawable` to `buffer`.
    SetDrawableBuffer { drawable: u64, buffer: u64 },
    /// Release the vertex buffer `buffer`.
    ReleaseBuffer { buffer: u64 },
    /// Release the material `material`.
    ReleaseMaterial { material: u64 },
    /// Release the drawable `drawable`.
    ReleaseDrawable { drawable: u64 },
    /// Release the texture `texture`.
    ReleaseTexture { texture: u64 },
}

} // verus!
