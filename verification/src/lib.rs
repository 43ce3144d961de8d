//! A command-driven scene-state manager for a multi-window 2D/3D renderer.
//!
//! The library sits between a windowing/event-loop layer and a GPU rendering
//! backend.  Producer threads enqueue scene-mutation commands; a single
//! consumer thread drains the channel and applies each command to per-window
//! render state (texture caches, named image quads, draw records).  The GPU
//! and the platform window system are external collaborators: every mutation
//! returns the exact list of GPU actions (buffer uploads, drawable updates,
//! handle releases) that the collaborator must perform, and all geometry is
//! kept in fixed-point integer world coordinates, one unit per texture pixel.

pub mod channel;
pub mod geom;
pub mod laws;
pub mod registry;
pub mod strmap;
pub mod types;
pub mod window;
