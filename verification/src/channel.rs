//! The command channel and the command processor.
//!
//! Producers describe scene mutations as [`Command`] values and enqueue
//! them; the thread that owns the [`SceneRegistry`] drains the channel once
//! per loop iteration and applies each command in strict FIFO order.  A
//! failed command (one targeting a window removed after it was enqueued,
//! say) reports its error in its [`CommandOutcome`] and never halts the
//! draining of later commands.

use vstd::prelude::*;

use crate::geom::Rotation;
use crate::registry::{default_image_data, ImageData, SceneRegistry};
use crate::strmap::{map_idx, upserted};
use crate::types::{Color, GpuAction, SceneError, TextureSource};
use crate::window::{
    add_image_post, delete_image_post, delete_texture_post, load_texture_post,
    release_of_images, release_of_textures, set_position_post, set_rotation_post, set_size_post,
};

verus! {

/// One requested scene mutation, immutable once enqueued.  Texture decoding
/// is performed by the producer, before enqueueing, so commands that need
/// image data carry a [`TextureSource`] and the consumer never blocks on
/// I/O.
#[derive(Clone, PartialEq, Eq, Debug)]
pub enum Command {
    CreateWindow {
        id: u32,
        platform_id: u64,
        width: u32,
        height: u32,
        title: String,
        background: Color,
        visible: bool,
    },
    DeleteWindow { id: u32 },
    LoadTexture { window_id: u32, path: String, source: TextureSource },
    AddImage {
        window_id: u32,
        name: String,
        path: String,
        x: i64,
        y: i64,
        z: i64,
        source: TextureSource,
    },
    SetImagePosition { window_id: u32, name: String, x: i64, y: i64, z: i64 },
    SetImageSize { window_id: u32, name: String, width_px: u32, height_px: u32 },
    SetImageRotation { window_id: u32, name: String, rotation: Rotation },
    DeleteImage { window_id: u32, name: String },
    DeleteTexture { window_id: u32, path: String },
}

impl Command {
    /// The live window the command targets, if any.  `CreateWindow`
    /// targets none: it brings its window into being.
    pub open spec fn target_window(&self) -> Option<u32> {
        match *self {
            Command::CreateWindow { .. } => None,
            Command::DeleteWindow { id } => Some(id),
            Command::LoadTexture { window_id, .. } => Some(window_id),
            Command::AddImage { window_id, .. } => Some(window_id),
            Command::SetImagePosition { window_id, .. } => Some(window_id),
            Command::SetImageSize { window_id, .. } => Some(window_id),
            Command::SetImageRotation { window_id, .. } => Some(window_id),
            Command::DeleteImage { window_id, .. } => Some(window_id),
            Command::DeleteTexture { window_id, .. } => Some(window_id),
        }
    }
}

/// How one drained command ended: applied, with the GPU actions the
/// collaborator must now perform, or failed, with the error.  (A command
/// sitting in the channel is enqueued; the processor dispatches it and
/// moves it to one of these two final states.)
#[derive(Clone, PartialEq, Eq, Debug)]
pub enum CommandOutcome {
    Applied { actions: Vec<GpuAction> },
    Failed { error: SceneError },
}

/// Whether `out` reports the result `r`: its actions on success, its error
/// on failure.
pub open spec fn outcome_of(out: CommandOutcome, r: Result<Vec<GpuAction>, SceneError>) -> bool {
    match r {
        Ok(acts) => out == (CommandOutcome::Applied { actions: acts }),
        Err(e) => out == (CommandOutcome::Failed { error: e }),
    }
}

/// An ordered multi-producer single-consumer queue of commands.  The
/// consumer drains from the front, so commands leave in the order the
/// channel received them.  (Producers on other threads share the channel
/// behind a lock; the channel itself is plain state.)
pub struct CommandChannel {
    pub queue: Vec<Command>,
}

impl View for CommandChannel {
    type V = Seq<Command>;

    open spec fn view(&self) -> Seq<Command> {
        self.queue@
    }
}

impl CommandChannel {
    /// An empty channel.
    pub fn new() -> (r: CommandChannel)
        ensures
            r@.len() == 0,
    {
        CommandChannel { queue: Vec::new() }
    }

    /// The number of commands waiting.
    pub fn len(&self) -> (r: usize)
        ensures
            r == self@.len(),
    {
        self.queue.len()
    }

    /// Appends a command at the back of the queue.
    pub fn enqueue(&mut self, c: Command)
        ensures
            final(self)@ == old(self)@.push(c),
    {
        self.queue.push(c);
    }

    /// Removes and returns the oldest waiting command, if any.
    pub fn dequeue(&mut self) -> (r: Option<Command>)
        ensures
            old(self)@.len() == 0 ==> r is None && *final(self) == *old(self),
            old(self)@.len() > 0 ==> r == Some(old(self)@[0]) && final(self)@ == old(
                self,
            )@.remove(0),
    {
        if self.queue.len() == 0 {
            None
        } else {
            Some(self.queue.remove(0))
        }
    }
}

/// What applying one command to the registry guarantees: the per-command
/// relation between the registry before (`r0`) and after (`r1`) and the
/// reported outcome.  Each arm restates the contract of the registry
/// method the command dispatches to, with the method's result carried into
/// the outcome.
pub open spec fn apply_post(
    r0: SceneRegistry,
    r1: SceneRegistry,
    cmd: Command,
    out: CommandOutcome,
) -> bool {
    match cmd {
        Command::CreateWindow { id, platform_id, width, height, title, background, visible } => {
            &&& (r0.has_window(id) || crate::registry::assoc_has(r0.platform@, platform_id) ==> out
                == (CommandOutcome::Failed { error: SceneError::DuplicateWindow }) && r1 == r0)
            &&& (!r0.has_window(id) && !crate::registry::assoc_has(r0.platform@, platform_id)
                ==> ({
                let w = r1.windows@.last().1;
                &&& (out matches CommandOutcome::Applied { actions } && actions@.len() == 0)
                &&& r1.windows@ == r0.windows@.push((id, w))
                &&& r1.platform@ == r0.platform@.push((platform_id, id))
                &&& r1.images_meta == r0.images_meta
                &&& w.wf()
                &&& w.width == width && w.height == height && w.title@ == title@ && w.background
                    == background && w.visible == visible
                &&& w.tex_seq().len() == 0 && w.img_seq().len() == 0
                &&& r1.has_window(id)
            }))
        },
        Command::DeleteWindow { id } => {
            &&& (!r0.has_window(id) ==> out == (CommandOutcome::Failed {
                error: SceneError::UnknownWindow,
            }) && r1 == r0)
            &&& (r0.has_window(id) ==> ({
                let w = r0.window_at(id);
                &&& (out matches CommandOutcome::Applied { actions } && actions@
                    == release_of_images(w.img_seq()) + release_of_textures(w.tex_seq()))
                &&& r1.windows@ == r0.windows@.remove(r0.window_idx(id))
                &&& r1.platform@ == r0.platform@.filter(crate::registry::not_routed_to(id))
                &&& r1.images_meta == r0.images_meta
                &&& !r1.has_window(id)
            }))
        },
        Command::LoadTexture { window_id, path, source } => {
            &&& (!r0.has_window(window_id) ==> out == (CommandOutcome::Failed {
                error: SceneError::UnknownWindow,
            }) && r1 == r0)
            &&& (r0.has_window(window_id) ==> r1.window_updated(r0, window_id) && r1.images_meta
                == r0.images_meta && exists|res: Result<(u64, Vec<GpuAction>), SceneError>|
                #![auto]
                load_texture_post(
                    r0.window_at(window_id),
                    r1.windows@[r0.window_idx(window_id)].1,
                    path,
                    source,
                    res,
                ) && (match res {
                    Ok((h, acts)) => out == (CommandOutcome::Applied { actions: acts }),
                    Err(e) => out == (CommandOutcome::Failed { error: e }),
                }))
        },
        Command::AddImage { window_id, name, path, x, y, z, source } => {
            &&& (!r0.has_window(window_id) ==> out == (CommandOutcome::Failed {
                error: SceneError::UnknownWindow,
            }) && r1 == r0)
            &&& (r0.has_window(window_id) ==> ({
                let w0 = r0.window_at(window_id);
                &&& r1.window_updated(r0, window_id)
                &&& exists|res: Result<Vec<GpuAction>, SceneError>|
                    #![auto]
                    {
                        &&& add_image_post(
                            w0,
                            r1.windows@[r0.window_idx(window_id)].1,
                            name,
                            path,
                            x,
                            y,
                            z,
                            source,
                            res,
                        )
                        &&& outcome_of(out, res)
                        &&& (res is Ok ==> upserted(
                            r0.images_meta.pairs@,
                            r1.images_meta.pairs@,
                            name,
                            ImageData {
                                x,
                                y,
                                z,
                                width: w0.resolved_w(path@, source),
                                height: w0.resolved_h(path@, source),
                                rotation: Rotation { cos: crate::geom::ROT_ONE, sin: 0 },
                            },
                        ))
                        &&& (res is Err ==> r1.images_meta == r0.images_meta)
                    }
            }))
        },
        Command::SetImagePosition { window_id, name, x, y, z } => {
            &&& (!r0.has_window(window_id) ==> out == (CommandOutcome::Failed {
                error: SceneError::UnknownWindow,
            }) && r1 == r0)
            &&& (r0.has_window(window_id) ==> ({
                let prev = if r0.images_meta.has(name@) {
                    r0.images_meta.spec_get(name@)
                } else {
                    default_image_data()
                };
                &&& r1.window_updated(r0, window_id)
                &&& exists|res: Result<Vec<GpuAction>, SceneError>|
                    #![auto]
                    {
                        &&& set_position_post(
                            r0.window_at(window_id),
                            r1.windows@[r0.window_idx(window_id)].1,
                            name@,
                            x,
                            y,
                            z,
                            res,
                        )
                        &&& outcome_of(out, res)
                        &&& (res is Ok ==> upserted(
                            r0.images_meta.pairs@,
                            r1.images_meta.pairs@,
                            name,
                            ImageData {
                                x,
                                y,
                                z,
                                width: prev.width,
                                height: prev.height,
                                rotation: prev.rotation,
                            },
                        ))
                        &&& (res is Err ==> r1.images_meta == r0.images_meta)
                    }
            }))
        },
        Command::SetImageSize { window_id, name, width_px, height_px } => {
            &&& (!r0.has_window(window_id) ==> out == (CommandOutcome::Failed {
                error: SceneError::UnknownWindow,
            }) && r1 == r0)
            &&& (r0.has_window(window_id) ==> ({
                let prev = if r0.images_meta.has(name@) {
                    r0.images_meta.spec_get(name@)
                } else {
                    default_image_data()
                };
                &&& r1.window_updated(r0, window_id)
                &&& exists|res: Result<Vec<GpuAction>, SceneError>|
                    #![auto]
                    {
                        &&& set_size_post(
                            r0.window_at(window_id),
                            r1.windows@[r0.window_idx(window_id)].1,
                            name@,
                            width_px,
                            height_px,
                            res,
                        )
                        &&& outcome_of(out, res)
                        &&& (res is Ok ==> upserted(
                            r0.images_meta.pairs@,
                            r1.images_meta.pairs@,
                            name,
                            ImageData {
                                x: prev.x,
                                y: prev.y,
                                z: prev.z,
                                width: width_px,
                                height: height_px,
                                rotation: prev.rotation,
                            },
                        ))
                        &&& (res is Err ==> r1.images_meta == r0.images_meta)
                    }
            }))
        },
        Command::SetImageRotation { window_id, name, rotation } => {
            &&& (!r0.has_window(window_id) ==> out == (CommandOutcome::Failed {
                error: SceneError::UnknownWindow,
            }) && r1 == r0)
            &&& (r0.has_window(window_id) ==> ({
                let prev = if r0.images_meta.has(name@) {
                    r0.images_meta.spec_get(name@)
                } else {
                    default_image_data()
                };
                &&& r1.window_updated(r0, window_id)
                &&& exists|res: Result<Vec<GpuAction>, SceneError>|
                    #![auto]
                    {
                        &&& set_rotation_post(
                            r0.window_at(window_id),
                            r1.windows@[r0.window_idx(window_id)].1,
                            name@,
                            rotation,
                            res,
                        )
                        &&& outcome_of(out, res)
                        &&& (res is Ok ==> upserted(
                            r0.images_meta.pairs@,
                            r1.images_meta.pairs@,
                            name,
                            ImageData {
                                x: prev.x,
                                y: prev.y,
                                z: prev.z,
                                width: prev.width,
                                height: prev.height,
                                rotation: rotation,
                            },
                        ))
                        &&& (res is Err ==> r1.images_meta == r0.images_meta)
                    }
            }))
        },
        Command::DeleteImage { window_id, name } => {
            &&& (!r0.has_window(window_id) ==> out == (CommandOutcome::Failed {
                error: SceneError::UnknownWindow,
            }) && r1 == r0)
            &&& (r0.has_window(window_id) ==> r1.window_updated(r0, window_id) && exists|
                res: Result<Vec<GpuAction>, SceneError>,
            |
                #![auto]
                {
                    &&& delete_image_post(
                        r0.window_at(window_id),
                        r1.windows@[r0.window_idx(window_id)].1,
                        name@,
                        res,
                    )
                    &&& outcome_of(out, res)
                    &&& (res is Ok && r0.images_meta.has(name@) ==> r1.images_meta.pairs@
                        == r0.images_meta.pairs@.remove(map_idx(r0.images_meta.pairs@, name@)))
                    &&& (res is Ok && !r0.images_meta.has(name@) ==> r1.images_meta
                        == r0.images_meta)
                    &&& (res is Err ==> r1.images_meta == r0.images_meta)
                })
        },
        Command::DeleteTexture { window_id, path } => {
            &&& (!r0.has_window(window_id) ==> out == (CommandOutcome::Failed {
                error: SceneError::UnknownWindow,
            }) && r1 == r0)
            &&& (r0.has_window(window_id) ==> r1.window_updated(r0, window_id) && r1.images_meta
                == r0.images_meta && exists|res: Result<Vec<GpuAction>, SceneError>|
                #![auto]
                delete_texture_post(
                    r0.window_at(window_id),
                    r1.windows@[r0.window_idx(window_id)].1,
                    path@,
                    res,
                ) && outcome_of(out, res))
        },
    }
}

/// Applies one command to the registry and reports how it ended.
///
/// A command targeting a window that is not (or no longer) live fails with
/// `UnknownWindow` and leaves the registry exactly as it was: a window
/// removed after the command was enqueued makes the command fail, never
/// panic or corrupt anything.
#[verifier::rlimit(60)]
pub fn apply_command(reg: &mut SceneRegistry, cmd: Command) -> (out: CommandOutcome)
    requires
        old(reg).wf(),
    ensures
        final(reg).wf(),
        apply_post(*old(reg), *final(reg), cmd, out),
        cmd.target_window() matches Some(id) && !old(reg).has_window(id) ==> out
            == (CommandOutcome::Failed { error: SceneError::UnknownWindow }) && *final(reg) == *old(
            reg,
        ),
{
    let ghost gcmd = cmd;
    match cmd {
        Command::CreateWindow { id, platform_id, width, height, title, background, visible } => {
            let out = match reg.create_window(id, platform_id, width, height, title, background, visible) {
                Ok(()) => CommandOutcome::Applied { actions: Vec::new() },
                Err(e) => CommandOutcome::Failed { error: e },
            };
            proof {
                assert(apply_post(*old(reg), *reg, gcmd, out));
            }
            out
        },
        Command::DeleteWindow { id } => {
            let out = match reg.remove_window(id) {
                Ok(actions) => CommandOutcome::Applied { actions },
                Err(e) => CommandOutcome::Failed { error: e },
            };
            proof {
                assert(apply_post(*old(reg), *reg, gcmd, out));
            }
            out
        },
        Command::LoadTexture { window_id, path, source } => {
            let r = reg.load_texture(window_id, &path, &source);
            let ghost gr = r;
            let out = match r {
                Ok((_, actions)) => CommandOutcome::Applied { actions },
                Err(e) => CommandOutcome::Failed { error: e },
            };
            // In every arm below, restating the registry method's
            // guarantees of its actual result witnesses the existential in
            // `apply_post`.
            proof {
                if old(reg).has_window(window_id) {
                    assert(load_texture_post(
                        old(reg).window_at(window_id),
                        reg.windows@[old(reg).window_idx(window_id)].1,
                        path,
                        source,
                        gr,
                    ));
                }
                assert(apply_post(*old(reg), *reg, gcmd, out));
            }
            out
        },
        Command::AddImage { window_id, name, path, x, y, z, source } => {
            let ghost gname = name;
            let ghost gpath = path;
            let r = reg.add_image(window_id, name, path, x, y, z, &source);
            let ghost gr = r;
            let out = match r {
                Ok(actions) => CommandOutcome::Applied { actions },
                Err(e) => CommandOutcome::Failed { error: e },
            };
            proof {
                if old(reg).has_window(window_id) {
                    assert(add_image_post(
                        old(reg).window_at(window_id),
                        reg.windows@[old(reg).window_idx(window_id)].1,
                        gname,
                        gpath,
                        x,
                        y,
                        z,
                        source,
                        gr,
                    ));
                    assert(outcome_of(out, gr));
                    assert(gr is Ok ==> upserted(
                        old(reg).images_meta.pairs@,
                        reg.images_meta.pairs@,
                        gname,
                        ImageData {
                            x,
                            y,
                            z,
                            width: old(reg).window_at(window_id).resolved_w(gpath@, source),
                            height: old(reg).window_at(window_id).resolved_h(gpath@, source),
                            rotation: Rotation { cos: crate::geom::ROT_ONE, sin: 0 },
                        },
                    ));
                    assert(gr is Err ==> reg.images_meta == old(reg).images_meta);
                }
                assert(apply_post(*old(reg), *reg, gcmd, out));
            }
            out
        },
        Command::SetImagePosition { window_id, name, x, y, z } => {
            let r = reg.set_image_position(window_id, &name, x, y, z);
            let ghost gr = r;
            let out = match r {
                Ok(actions) => CommandOutcome::Applied { actions },
                Err(e) => CommandOutcome::Failed { error: e },
            };
            proof {
                if old(reg).has_window(window_id) {
                    let ghost prev = if old(reg).images_meta.has(name@) {
                        old(reg).images_meta.spec_get(name@)
                    } else {
                        default_image_data()
                    };
                    assert(set_position_post(
                        old(reg).window_at(window_id),
                        reg.windows@[old(reg).window_idx(window_id)].1,
                        name@,
                        x,
                        y,
                        z,
                        gr,
                    ));
                    assert(outcome_of(out, gr));
                    assert(gr is Ok ==> upserted(
                        old(reg).images_meta.pairs@,
                        reg.images_meta.pairs@,
                        name,
                        ImageData {
                            x,
                            y,
                            z,
                            width: prev.width,
                            height: prev.height,
                            rotation: prev.rotation,
                        },
                    ));
                    assert(gr is Err ==> reg.images_meta == old(reg).images_meta);
                }
                assert(apply_post(*old(reg), *reg, gcmd, out));
            }
            out
        },
        Command::SetImageSize { window_id, name, width_px, height_px } => {
            let r = reg.set_image_size(window_id, &name, width_px, height_px);
            let ghost gr = r;
            let out = match r {
                Ok(actions) => CommandOutcome::Applied { actions },
                Err(e) => CommandOutcome::Failed { error: e },
            };
            proof {
                if old(reg).has_window(window_id) {
                    let ghost prev = if old(reg).images_meta.has(name@) {
                        old(reg).images_meta.spec_get(name@)
                    } else {
                        default_image_data()
                    };
                    assert(set_size_post(
                        old(reg).window_at(window_id),
                        reg.windows@[old(reg).window_idx(window_id)].1,
                        name@,
                        width_px,
                        height_px,
                        gr,
                    ));
                    assert(outcome_of(out, gr));
                    assert(gr is Ok ==> upserted(
                        old(reg).images_meta.pairs@,
                        reg.images_meta.pairs@,
                        name,
                        ImageData {
                            x: prev.x,
                            y: prev.y,
                            z: prev.z,
                            width: width_px,
                            height: height_px,
                            rotation: prev.rotation,
                        },
                    ));
                    assert(gr is Err ==> reg.images_meta == old(reg).images_meta);
                }
                assert(apply_post(*old(reg), *reg, gcmd, out));
            }
            out
        },
        Command::SetImageRotation { window_id, name, rotation } => {
            let r = reg.set_image_rotation(window_id, &name, &rotation);
            let ghost gr = r;
            let out = match r {
                Ok(actions) => CommandOutcome::Applied { actions },
                Err(e) => CommandOutcome::Failed { error: e },
            };
            proof {
                if old(reg).has_window(window_id) {
                    let ghost prev = if old(reg).images_meta.has(name@) {
                        old(reg).images_meta.spec_get(name@)
                    } else {
                        default_image_data()
                    };
                    assert(set_rotation_post(
                        old(reg).window_at(window_id),
                        reg.windows@[old(reg).window_idx(window_id)].1,
                        name@,
                        rotation,
                        gr,
                    ));
                    assert(outcome_of(out, gr));
                    assert(gr is Ok ==> upserted(
                        old(reg).images_meta.pairs@,
                        reg.images_meta.pairs@,
                        name,
                        ImageData {
                            x: prev.x,
                            y: prev.y,
                            z: prev.z,
                            width: prev.width,
                            height: prev.height,
                            rotation: rotation,
                        },
                    ));
                    assert(gr is Err ==> reg.images_meta == old(reg).images_meta);
                }
                assert(apply_post(*old(reg), *reg, gcmd, out));
            }
            out
        },
        Command::DeleteImage { window_id, name } => {
            let r = reg.delete_image(window_id, &name);
            let ghost gr = r;
            let out = match r {
                Ok(actions) => CommandOutcome::Applied { actions },
                Err(e) => CommandOutcome::Failed { error: e },
            };
            proof {
                if old(reg).has_window(window_id) {
                    assert(delete_image_post(
                        old(reg).window_at(window_id),
                        reg.windows@[old(reg).window_idx(window_id)].1,
                        name@,
                        gr,
                    ));
                    assert(outcome_of(out, gr));
                    assert(gr is Ok && old(reg).images_meta.has(name@)
                        ==> reg.images_meta.pairs@ == old(reg).images_meta.pairs@.remove(
                        map_idx(old(reg).images_meta.pairs@, name@),
                    ));
                    assert(gr is Ok && !old(reg).images_meta.has(name@) ==> reg.images_meta == old(
                        reg).images_meta);
                    assert(gr is Err ==> reg.images_meta == old(reg).images_meta);
                }
                assert(apply_post(*old(reg), *reg, gcmd, out));
            }
            out
        },
        Command::DeleteTexture { window_id, path } => {
            let r = reg.delete_texture(window_id, &path);
            let ghost gr = r;
            let out = match r {
                Ok(actions) => CommandOutcome::Applied { actions },
                Err(e) => CommandOutcome::Failed { error: e },
            };
            proof {
                if old(reg).has_window(window_id) {
                    assert(delete_texture_post(
                        old(reg).window_at(window_id),
                        reg.windows@[old(reg).window_idx(window_id)].1,
                        path@,
                        gr,
                    ));
                    assert(outcome_of(out, gr));
                }
                assert(apply_post(*old(reg), *reg, gcmd, out));
            }
            out
        },
    }
}

/// Whether draining the command sequence `cmds` from registry `r0` can end
/// in registry `r1` with the outcome sequence `outs`: each command is
/// applied to the state the previous ones left, in order, and reports one
/// outcome; a failure leaves its state intact and draining goes on.
pub open spec fn drained(
    r0: SceneRegistry,
    cmds: Seq<Command>,
    r1: SceneRegistry,
    outs: Seq<CommandOutcome>,
) -> bool
    decreases cmds.len(),
{
    if cmds.len() == 0 {
        r1 == r0 && outs.len() == 0
    } else {
        exists|mid: SceneRegistry, out: CommandOutcome|
            #![auto]
            {
                &&& apply_post(r0, mid, cmds[0], out)
                &&& mid.wf()
                &&& outs.len() > 0
                &&& outs[0] == out
                &&& drained(mid, cmds.subrange(1, cmds.len() as int), r1, outs.subrange(1, outs.len() as int))
            }
    }
}

/// Extending a drain by one more applied command at the back.
proof fn lemma_drained_snoc(
    r0: SceneRegistry,
    cmds: Seq<Command>,
    rm: SceneRegistry,
    outs: Seq<CommandOutcome>,
    c: Command,
    r2: SceneRegistry,
    o: CommandOutcome,
)
    requires
        drained(r0, cmds, rm, outs),
        apply_post(rm, r2, c, o),
        r2.wf(),
    ensures
        drained(r0, cmds.push(c), r2, outs.push(o)),
    decreases cmds.len(),
{
    if cmds.len() == 0 {
        assert(rm == r0 && outs.len() == 0);
        let pc = cmds.push(c);
        let po = outs.push(o);
        assert(pc[0] == c && po[0] == o);
        assert(pc.subrange(1, pc.len() as int) =~= Seq::<Command>::empty());
        assert(po.subrange(1, po.len() as int) =~= Seq::<CommandOutcome>::empty());
        assert(drained(r2, pc.subrange(1, pc.len() as int), r2, po.subrange(1, po.len() as int)));
        assert(apply_post(r0, r2, pc[0], po[0]) && r2.wf() && po.len() > 0 && po[0] == o
            && drained(r2, pc.subrange(1, pc.len() as int), r2, po.subrange(1, po.len() as int)));
    } else {
        let w = choose|m: SceneRegistry, u: CommandOutcome|
            #![auto]
            {
                &&& apply_post(r0, m, cmds[0], u)
                &&& m.wf()
                &&& outs.len() > 0
                &&& outs[0] == u
                &&& drained(
                    m,
                    cmds.subrange(1, cmds.len() as int),
                    rm,
                    outs.subrange(1, outs.len() as int),
                )
            };
        let m = w.0;
        let u = w.1;
        assert(apply_post(r0, m, cmds[0], u) && m.wf() && outs[0] == u && drained(
            m,
            cmds.subrange(1, cmds.len() as int),
            rm,
            outs.subrange(1, outs.len() as int),
        ));
        lemma_drained_snoc(
            m,
            cmds.subrange(1, cmds.len() as int),
            rm,
            outs.subrange(1, outs.len() as int),
            c,
            r2,
            o,
        );
        let pc = cmds.push(c);
        let po = outs.push(o);
        assert(pc.subrange(1, pc.len() as int) =~= cmds.subrange(1, cmds.len() as int).push(c));
        assert(po.subrange(1, po.len() as int) =~= outs.subrange(1, outs.len() as int).push(o));
        assert(pc[0] == cmds[0] && po[0] == outs[0]);
        assert(apply_post(r0, m, pc[0], po[0]) && m.wf() && po.len() > 0 && po[0] == u && drained(
            m,
            pc.subrange(1, pc.len() as int),
            r2,
            po.subrange(1, po.len() as int),
        ));
    }
}

/// Drains the whole channel: applies every waiting command to the registry
/// in FIFO order, isolating failures, and returns one outcome per command
/// in the same order.  The channel is left empty.
pub fn drain_channel(reg: &mut SceneRegistry, chan: &mut CommandChannel) -> (outs: Vec<
    CommandOutcome,
>)
    requires
        old(reg).wf(),
    ensures
        final(reg).wf(),
        final(chan)@.len() == 0,
        outs@.len() == old(chan)@.len(),
        drained(*old(reg), old(chan)@, *final(reg), outs@),
{
    let mut outs: Vec<CommandOutcome> = Vec::new();
    proof {
        assert(old(chan)@.subrange(0, 0) =~= Seq::<Command>::empty());
    }
    while chan.len() != 0
        invariant
            reg.wf(),
            outs@.len() + chan@.len() == old(chan)@.len(),
            chan@ =~= old(chan)@.subrange(outs@.len() as int, old(chan)@.len() as int),
            drained(*old(reg), old(chan)@.subrange(0, outs@.len() as int), *reg, outs@),
        decreases chan@.len(),
    {
        match chan.dequeue() {
            Some(c) => {
                let ghost pre_reg = *reg;
                let ghost pre_outs = outs@;
                let out = apply_command(reg, c);
                outs.push(out);
                proof {
                    lemma_drained_snoc(
                        *old(reg),
                        old(chan)@.subrange(0, pre_outs.len() as int),
                        pre_reg,
                        pre_outs,
                        c,
                        *reg,
                        out,
                    );
                    assert(old(chan)@.subrange(0, pre_outs.len() as int).push(c)
                        =~= old(chan)@.subrange(0, pre_outs.len() as int + 1));
                    assert(chan@ =~= old(chan)@.subrange(
                        outs@.len() as int,
                        old(chan)@.len() as int,
                    ));
                }
            },
            None => {},
        }
    }
    proof {
        assert(old(chan)@.subrange(0, outs@.len() as int) =~= old(chan)@);
    }
    outs
}

} // verus!
