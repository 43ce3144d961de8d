//! The registry, the command channel, and end-to-end command scenarios.

use scenecore::channel::{apply_command, drain_channel, Command, CommandChannel, CommandOutcome};
use scenecore::geom::{Rotation, ROT_ONE};
use scenecore::registry::{ImageData, SceneRegistry};
use scenecore::types::{Color, SceneError, TextureSource};

fn bg() -> Color {
    Color { r: 25, g: 51, b: 76, a: 255 }
}

fn decoded(w: u32, h: u32) -> TextureSource {
    TextureSource::Decoded { width_px: w, height_px: h }
}

fn create_window_cmd(id: u32, platform_id: u64) -> Command {
    Command::CreateWindow {
        id,
        platform_id,
        width: 800,
        height: 600,
        title: "t".to_string(),
        background: bg(),
        visible: true,
    }
}

fn applied(out: &CommandOutcome) -> bool {
    matches!(out, CommandOutcome::Applied { .. })
}

fn failed_with(out: &CommandOutcome, want: SceneError) -> bool {
    matches!(out, CommandOutcome::Failed { error } if *error == want)
}

#[test]
fn create_then_add_image_yields_one_record_at_the_anchor() {
    let mut reg = SceneRegistry::new();
    let mut chan = CommandChannel::new();
    chan.enqueue(create_window_cmd(0, 77));
    chan.enqueue(Command::AddImage {
        window_id: 0,
        name: "img".to_string(),
        path: "a.png".to_string(),
        x: 0,
        y: 0,
        z: 0,
        source: decoded(64, 32),
    });
    let outs = drain_channel(&mut reg, &mut chan);
    assert_eq!(outs.len(), 2);
    assert!(applied(&outs[0]));
    assert!(applied(&outs[1]));
    assert_eq!(chan.len(), 0);
    assert_eq!(reg.windows.len(), 1);
    let w = &reg.windows[0].1;
    assert_eq!(w.images.pairs.len(), 1);
    assert_eq!(w.images.pairs[0].0, "img");
    let v0 = w.images.pairs[0].1.vertices[0].pos;
    assert_eq!((v0.x, v0.y, v0.z), (0, 0, 0));
}

#[test]
fn add_resize_delete_leaves_the_table_empty_and_releases_the_handles() {
    let mut reg = SceneRegistry::new();
    reg.create_window(0, 77, 800, 600, "t".to_string(), bg(), true).unwrap();
    reg.add_image(0, "img".to_string(), "a.png".to_string(), 0, 0, 0, &decoded(64, 32)).unwrap();
    reg.set_image_size(0, &"img".to_string(), 100, 50).unwrap();
    let rec = reg.windows[0].1.images.pairs[0].1.clone();
    let acts = reg.delete_image(0, &"img".to_string()).unwrap();
    assert_eq!(reg.windows[0].1.images.pairs.len(), 0);
    assert_eq!(
        acts,
        vec![
            scenecore::types::GpuAction::ReleaseDrawable { drawable: rec.drawable },
            scenecore::types::GpuAction::ReleaseMaterial { material: rec.material },
            scenecore::types::GpuAction::ReleaseBuffer { buffer: rec.buffer },
        ]
    );
    // The mirror entry went with the image.
    assert!(reg.get_images_map(&"img".to_string()).is_none());
}

#[test]
fn commands_for_a_removed_window_fail_without_corrupting_the_registry() {
    let mut reg = SceneRegistry::new();
    let mut chan = CommandChannel::new();
    reg.create_window(0, 77, 800, 600, "t".to_string(), bg(), true).unwrap();
    reg.create_window(1, 78, 400, 300, "u".to_string(), bg(), true).unwrap();
    reg.add_image(1, "keep".to_string(), "k.png".to_string(), 1, 2, 3, &decoded(4, 4)).unwrap();
    // The mutation is enqueued first, then the window goes away.
    chan.enqueue(Command::SetImagePosition {
        window_id: 0,
        name: "img".to_string(),
        x: 1,
        y: 2,
        z: 3,
    });
    chan.enqueue(Command::DeleteWindow { id: 0 });
    chan.enqueue(Command::SetImageSize {
        window_id: 0,
        name: "img".to_string(),
        width_px: 10,
        height_px: 10,
    });
    chan.enqueue(Command::LoadTexture {
        window_id: 1,
        path: "b.png".to_string(),
        source: decoded(2, 2),
    });
    let outs = drain_channel(&mut reg, &mut chan);
    assert_eq!(outs.len(), 4);
    // The first command still found window 0 but not the image.
    assert!(failed_with(&outs[0], SceneError::UnknownImage));
    assert!(applied(&outs[1]));
    // After the removal the command fails cleanly ...
    assert!(failed_with(&outs[2], SceneError::UnknownWindow));
    // ... and later commands for other windows still apply.
    assert!(applied(&outs[3]));
    assert_eq!(reg.windows.len(), 1);
    assert_eq!(reg.windows[0].0, 1);
    assert_eq!(reg.windows[0].1.images.pairs.len(), 1);
}

#[test]
fn duplicate_window_ids_are_refused() {
    let mut reg = SceneRegistry::new();
    reg.create_window(0, 77, 800, 600, "t".to_string(), bg(), true).unwrap();
    let err = reg.create_window(0, 99, 10, 10, "x".to_string(), bg(), false).unwrap_err();
    assert_eq!(err, SceneError::DuplicateWindow);
    let err = reg.create_window(5, 77, 10, 10, "x".to_string(), bg(), false).unwrap_err();
    assert_eq!(err, SceneError::DuplicateWindow);
    assert_eq!(reg.windows.len(), 1);
}

#[test]
fn removing_a_window_drops_its_platform_route() {
    let mut reg = SceneRegistry::new();
    reg.create_window(0, 77, 800, 600, "t".to_string(), bg(), true).unwrap();
    reg.create_window(1, 78, 800, 600, "u".to_string(), bg(), true).unwrap();
    assert_eq!(reg.resolve_platform(77), Some(0));
    assert_eq!(reg.resolve_platform(78), Some(1));
    reg.remove_window(0).unwrap();
    assert_eq!(reg.resolve_platform(77), None);
    assert_eq!(reg.resolve_platform(78), Some(1));
    let err = reg.remove_window(0).unwrap_err();
    assert_eq!(err, SceneError::UnknownWindow);
}

#[test]
fn removing_a_window_releases_everything_it_owned() {
    let mut reg = SceneRegistry::new();
    reg.create_window(0, 77, 800, 600, "t".to_string(), bg(), true).unwrap();
    reg.add_image(0, "one".to_string(), "a.png".to_string(), 0, 0, 0, &decoded(4, 4)).unwrap();
    reg.add_image(0, "two".to_string(), "a.png".to_string(), 5, 5, 5, &decoded(4, 4)).unwrap();
    let acts = reg.remove_window(0).unwrap();
    // Two images at three releases each, one shared texture.
    assert_eq!(acts.len(), 7);
    assert_eq!(reg.windows.len(), 0);
}

#[test]
fn the_channel_is_drained_in_fifo_order() {
    let mut reg = SceneRegistry::new();
    let mut chan = CommandChannel::new();
    // Creating, deleting, then re-creating the same id only works when the
    // commands run in exactly the order they were enqueued.
    chan.enqueue(create_window_cmd(0, 77));
    chan.enqueue(Command::DeleteWindow { id: 0 });
    chan.enqueue(create_window_cmd(0, 78));
    let outs = drain_channel(&mut reg, &mut chan);
    assert!(outs.iter().all(applied));
    assert_eq!(reg.windows.len(), 1);
    assert_eq!(reg.resolve_platform(78), Some(0));
    assert_eq!(reg.resolve_platform(77), None);
}

#[test]
fn loading_a_texture_twice_through_commands_uploads_once() {
    let mut reg = SceneRegistry::new();
    reg.create_window(0, 77, 800, 600, "t".to_string(), bg(), true).unwrap();
    let (h1, acts1) = reg.load_texture(0, &"a.png".to_string(), &decoded(16, 16)).unwrap();
    let (h2, acts2) = reg.load_texture(0, &"a.png".to_string(), &decoded(16, 16)).unwrap();
    assert_eq!(h1, h2);
    assert_eq!(acts1.len(), 1);
    assert_eq!(acts2.len(), 0);
    assert_eq!(reg.windows[0].1.textures.pairs.len(), 1);
}

#[test]
fn the_metadata_mirror_tracks_last_applied_parameters() {
    let mut reg = SceneRegistry::new();
    reg.create_window(0, 77, 800, 600, "t".to_string(), bg(), true).unwrap();
    reg.add_image(0, "img".to_string(), "a.png".to_string(), 10, 20, 30, &decoded(64, 32)).unwrap();
    let d = reg.get_images_map(&"img".to_string()).unwrap();
    assert_eq!((d.x, d.y, d.z), (10, 20, 30));
    assert_eq!((d.width, d.height), (64, 32));
    assert_eq!(d.rotation, Rotation { cos: ROT_ONE, sin: 0 });

    reg.set_image_position(0, &"img".to_string(), 1, 2, 3).unwrap();
    let d = reg.get_images_map(&"img".to_string()).unwrap();
    assert_eq!((d.x, d.y, d.z), (1, 2, 3));
    assert_eq!((d.width, d.height), (64, 32));

    reg.set_image_size(0, &"img".to_string(), 100, 50).unwrap();
    let d = reg.get_images_map(&"img".to_string()).unwrap();
    assert_eq!((d.width, d.height), (100, 50));
    assert_eq!((d.x, d.y, d.z), (1, 2, 3));

    let rot = Rotation { cos: 0, sin: ROT_ONE };
    reg.set_image_rotation(0, &"img".to_string(), &rot).unwrap();
    let d = reg.get_images_map(&"img".to_string()).unwrap();
    assert_eq!(d.rotation, rot);

    reg.delete_image(0, &"img".to_string()).unwrap();
    assert!(reg.get_images_map(&"img".to_string()).is_none());
}

#[test]
fn the_mirror_can_be_driven_directly() {
    let mut reg = SceneRegistry::new();
    let entry = ImageData {
        x: 7,
        y: 8,
        z: 9,
        width: 1,
        height: 2,
        rotation: Rotation { cos: ROT_ONE, sin: 0 },
    };
    reg.insert_images_map("ext".to_string(), entry);
    assert_eq!(reg.get_images_map(&"ext".to_string()), Some(entry));
    assert_eq!(reg.remove_images_map(&"ext".to_string()), Some(entry));
    assert_eq!(reg.remove_images_map(&"ext".to_string()), None);
}

#[test]
fn centroid_after_add_and_move_sits_at_the_quad_middle() {
    let mut reg = SceneRegistry::new();
    reg.create_window(0, 77, 800, 600, "t".to_string(), bg(), true).unwrap();
    reg.add_image(0, "img".to_string(), "a.png".to_string(), 5, 7, 9, &decoded(10, 4)).unwrap();
    reg.set_image_position(0, &"img".to_string(), 100, 200, 300).unwrap();
    let rec = &reg.windows[0].1.images.pairs[0].1;
    let sx: i64 = rec.vertices.iter().map(|v| v.pos.x).sum();
    let sy: i64 = rec.vertices.iter().map(|v| v.pos.y).sum();
    let sz: i64 = rec.vertices.iter().map(|v| v.pos.z).sum();
    // Six vertices whose average is (x + w/2, y + h/2, z).
    assert_eq!((sx, sy, sz), (6 * 100 + 3 * 10, 6 * 200 + 3 * 4, 6 * 300));
}

#[test]
fn a_move_out_of_world_range_fails_and_changes_nothing() {
    let mut reg = SceneRegistry::new();
    reg.create_window(0, 77, 800, 600, "t".to_string(), bg(), true).unwrap();
    reg.add_image(0, "img".to_string(), "a.png".to_string(), 1, 2, 3, &decoded(4, 4)).unwrap();
    let before: Vec<i64> = reg.windows[0].1.images.pairs[0].1.vertices.iter().map(|v| v.pos.x).collect();
    let err = reg
        .set_image_position(0, &"img".to_string(), scenecore::geom::MAX_COORD, 0, 0)
        .unwrap_err();
    assert_eq!(err, SceneError::OutOfRange);
    let after: Vec<i64> = reg.windows[0].1.images.pairs[0].1.vertices.iter().map(|v| v.pos.x).collect();
    assert_eq!(before, after);
    // The mirror still shows the creation-time parameters.
    let d = reg.get_images_map(&"img".to_string()).unwrap();
    assert_eq!((d.x, d.y, d.z), (1, 2, 3));
}

#[test]
fn apply_command_reports_each_error_in_its_outcome() {
    let mut reg = SceneRegistry::new();
    reg.create_window(0, 77, 800, 600, "t".to_string(), bg(), true).unwrap();
    let out = apply_command(
        &mut reg,
        Command::AddImage {
            window_id: 0,
            name: "img".to_string(),
            path: "a.png".to_string(),
            x: 0,
            y: 0,
            z: 0,
            source: TextureSource::Unavailable,
        },
    );
    assert!(failed_with(&out, SceneError::AssetLoadError));
    let out = apply_command(&mut reg, Command::DeleteImage {
        window_id: 0,
        name: "img".to_string(),
    });
    assert!(failed_with(&out, SceneError::UnknownImage));
    let out = apply_command(&mut reg, Command::DeleteTexture {
        window_id: 0,
        path: "a.png".to_string(),
    });
    assert!(failed_with(&out, SceneError::UnknownTexture));
    let out = apply_command(&mut reg, Command::SetImageRotation {
        window_id: 9,
        name: "img".to_string(),
        rotation: Rotation { cos: ROT_ONE, sin: 0 },
    });
    assert!(failed_with(&out, SceneError::UnknownWindow));
}
