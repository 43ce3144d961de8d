//! Window-level scene operations: texture cache, image table, GPU actions.

use scenecore::geom::{Rotation, ROT_ONE};
use scenecore::types::{Color, GpuAction, SceneError, TextureSource};
use scenecore::window::{WindowState, PITCH_LIMIT};

fn bg() -> Color {
    Color { r: 25, g: 51, b: 76, a: 255 }
}

fn window() -> WindowState {
    WindowState::new(800, 600, "test".to_string(), bg(), true)
}

fn decoded(w: u32, h: u32) -> TextureSource {
    TextureSource::Decoded { width_px: w, height_px: h }
}

#[test]
fn loading_a_path_twice_yields_the_same_handle_and_one_upload() {
    let mut w = window();
    let (h1, acts1) = w.load_texture(&"a.png".to_string(), &decoded(64, 32)).unwrap();
    assert_eq!(acts1.len(), 1);
    match &acts1[0] {
        GpuAction::UploadTexture { texture, path } => {
            assert_eq!(*texture, h1);
            assert_eq!(path, "a.png");
        },
        other => panic!("expected an upload, got {:?}", other),
    }
    // A second load, even with different decode results, is served from the
    // cache: same handle, no GPU action, no new entry.
    let (h2, acts2) = w.load_texture(&"a.png".to_string(), &decoded(999, 999)).unwrap();
    assert_eq!(h2, h1);
    assert!(acts2.is_empty());
    assert_eq!(w.textures.pairs.len(), 1);
}

#[test]
fn a_failed_decode_does_not_poison_the_cache() {
    let mut w = window();
    let err = w.load_texture(&"a.png".to_string(), &TextureSource::Unavailable).unwrap_err();
    assert_eq!(err, SceneError::AssetLoadError);
    assert_eq!(w.textures.pairs.len(), 0);
    // A later retry with a decodable source succeeds.
    assert!(w.load_texture(&"a.png".to_string(), &decoded(8, 8)).is_ok());
    assert_eq!(w.textures.pairs.len(), 1);
}

#[test]
fn add_image_builds_the_quad_from_the_texture_size() {
    let mut w = window();
    let acts = w
        .add_image("img".to_string(), "a.png".to_string(), 0, 0, 0, &decoded(64, 32))
        .unwrap();
    // Upload, buffer, material, drawable.
    assert_eq!(acts.len(), 4);
    assert!(matches!(acts[0], GpuAction::UploadTexture { .. }));
    assert!(matches!(acts[1], GpuAction::AllocateBuffer { .. }));
    assert!(matches!(acts[2], GpuAction::CreateMaterial { .. }));
    assert!(matches!(acts[3], GpuAction::RegisterDrawable { .. }));
    assert_eq!(w.images.pairs.len(), 1);
    let rec = &w.images.pairs[0].1;
    assert_eq!(rec.vertices.len(), 6);
    assert_eq!((rec.vertices[0].pos.x, rec.vertices[0].pos.y, rec.vertices[0].pos.z), (0, 0, 0));
    // One pixel is one coordinate unit: the far corner sits at (64, 32).
    assert_eq!((rec.vertices[4].pos.x, rec.vertices[4].pos.y), (64, 32));
    // The pivot caches twice the centroid.
    assert_eq!((rec.origin2.x, rec.origin2.y, rec.origin2.z), (64, 32, 0));
}

#[test]
fn duplicate_image_names_are_refused() {
    let mut w = window();
    w.add_image("img".to_string(), "a.png".to_string(), 0, 0, 0, &decoded(4, 4)).unwrap();
    let err = w
        .add_image("img".to_string(), "b.png".to_string(), 9, 9, 9, &decoded(4, 4))
        .unwrap_err();
    assert_eq!(err, SceneError::DuplicateImage);
    assert_eq!(w.images.pairs.len(), 1);
    // The failed creation cached nothing for the second path.
    assert_eq!(w.textures.pairs.len(), 1);
}

#[test]
fn an_image_out_of_world_range_is_refused_whole() {
    let mut w = window();
    let err = w
        .add_image(
            "img".to_string(),
            "a.png".to_string(),
            scenecore::geom::MAX_COORD,
            0,
            0,
            &decoded(4, 4),
        )
        .unwrap_err();
    assert_eq!(err, SceneError::OutOfRange);
    assert_eq!(w.images.pairs.len(), 0);
    assert_eq!(w.textures.pairs.len(), 0);
}

#[test]
fn set_position_swaps_the_buffer_before_releasing_the_old_one() {
    let mut w = window();
    w.add_image("img".to_string(), "a.png".to_string(), 5, 7, 9, &decoded(10, 4)).unwrap();
    let old_buffer = w.images.pairs[0].1.buffer;
    let drawable = w.images.pairs[0].1.drawable;
    let acts = w.set_image_position(&"img".to_string(), 100, 200, 300).unwrap();
    let new_buffer = w.images.pairs[0].1.buffer;
    assert_ne!(new_buffer, old_buffer);
    assert_eq!(acts.len(), 3);
    match &acts[0] {
        GpuAction::AllocateBuffer { buffer, vertices } => {
            assert_eq!(*buffer, new_buffer);
            assert_eq!(vertices.len(), 6);
            assert_eq!((vertices[0].pos.x, vertices[0].pos.y, vertices[0].pos.z), (100, 200, 300));
        },
        other => panic!("expected a buffer upload, got {:?}", other),
    }
    assert_eq!(acts[1], GpuAction::SetDrawableBuffer { drawable, buffer: new_buffer });
    assert_eq!(acts[2], GpuAction::ReleaseBuffer { buffer: old_buffer });
    // The whole quad moved: the far corner follows the anchor.
    let rec = &w.images.pairs[0].1;
    assert_eq!((rec.vertices[4].pos.x, rec.vertices[4].pos.y, rec.vertices[4].pos.z), (110, 204, 300));
    // The rotation pivot is deliberately stale: still the creation-time one.
    assert_eq!((rec.origin2.x, rec.origin2.y), (2 * 5 + 10, 2 * 7 + 4));
}

#[test]
fn set_size_applied_twice_gives_identical_vertices() {
    let mut w = window();
    w.add_image("img".to_string(), "a.png".to_string(), 3, 4, 5, &decoded(10, 4)).unwrap();
    w.set_image_size(&"img".to_string(), 100, 50).unwrap();
    let first: Vec<(i64, i64, i64)> = w.images.pairs[0].1.vertices.iter().map(|v| (v.pos.x, v.pos.y, v.pos.z)).collect();
    w.set_image_size(&"img".to_string(), 100, 50).unwrap();
    let second: Vec<(i64, i64, i64)> = w.images.pairs[0].1.vertices.iter().map(|v| (v.pos.x, v.pos.y, v.pos.z)).collect();
    assert_eq!(first, second);
    assert_eq!(first[0], (3, 4, 5));
    assert_eq!(first[4], (103, 54, 5));
}

#[test]
fn rotation_and_its_inverse_on_an_image_restore_positions_within_rounding() {
    let mut w = window();
    w.add_image("img".to_string(), "a.png".to_string(), 100, 200, 0, &decoded(60, 40)).unwrap();
    let before: Vec<(i64, i64)> = w.images.pairs[0].1.vertices.iter().map(|v| (v.pos.x, v.pos.y)).collect();
    let rot = Rotation { cos: 56756, sin: 32768 };
    w.set_image_rotation(&"img".to_string(), &rot).unwrap();
    w.set_image_rotation(&"img".to_string(), &rot.inverse()).unwrap();
    let after: Vec<(i64, i64)> = w.images.pairs[0].1.vertices.iter().map(|v| (v.pos.x, v.pos.y)).collect();
    for ((x0, y0), (x1, y1)) in before.iter().zip(after.iter()) {
        assert!((x0 - x1).abs() <= 2);
        assert!((y0 - y1).abs() <= 2);
    }
}

#[test]
fn an_out_of_scale_rotation_pair_is_refused() {
    let mut w = window();
    w.add_image("img".to_string(), "a.png".to_string(), 0, 0, 0, &decoded(4, 4)).unwrap();
    let err = w
        .set_image_rotation(&"img".to_string(), &Rotation { cos: ROT_ONE + 1, sin: 0 })
        .unwrap_err();
    assert_eq!(err, SceneError::OutOfRange);
}

#[test]
fn deleting_a_missing_image_reports_unknown_and_changes_nothing() {
    let mut w = window();
    w.add_image("img".to_string(), "a.png".to_string(), 0, 0, 0, &decoded(4, 4)).unwrap();
    let err = w.delete_image(&"ghostly".to_string()).unwrap_err();
    assert_eq!(err, SceneError::UnknownImage);
    assert_eq!(w.images.pairs.len(), 1);
    assert_eq!(w.textures.pairs.len(), 1);
}

#[test]
fn deleting_an_image_releases_its_three_handles() {
    let mut w = window();
    w.add_image("img".to_string(), "a.png".to_string(), 0, 0, 0, &decoded(4, 4)).unwrap();
    let rec = w.images.pairs[0].1.clone();
    let acts = w.delete_image(&"img".to_string()).unwrap();
    assert_eq!(w.images.pairs.len(), 0);
    assert_eq!(
        acts,
        vec![
            GpuAction::ReleaseDrawable { drawable: rec.drawable },
            GpuAction::ReleaseMaterial { material: rec.material },
            GpuAction::ReleaseBuffer { buffer: rec.buffer },
        ]
    );
}

#[test]
fn a_texture_still_referenced_cannot_be_deleted() {
    let mut w = window();
    w.add_image("img".to_string(), "a.png".to_string(), 0, 0, 0, &decoded(4, 4)).unwrap();
    let err = w.delete_texture(&"a.png".to_string()).unwrap_err();
    assert_eq!(err, SceneError::TextureInUse);
    assert_eq!(w.textures.pairs.len(), 1);
    // Once the image is gone the texture can be released.
    w.delete_image(&"img".to_string()).unwrap();
    let handle = w.textures.pairs[0].1.handle;
    let acts = w.delete_texture(&"a.png".to_string()).unwrap();
    assert_eq!(acts, vec![GpuAction::ReleaseTexture { texture: handle }]);
    assert_eq!(w.textures.pairs.len(), 0);
}

#[test]
fn deleting_an_uncached_texture_reports_unknown() {
    let mut w = window();
    let err = w.delete_texture(&"a.png".to_string()).unwrap_err();
    assert_eq!(err, SceneError::UnknownTexture);
}

#[test]
fn the_camera_pitch_is_clamped() {
    let mut w = window();
    w.orbit_camera(300, -200);
    assert_eq!(w.yaw, 300);
    assert_eq!(w.pitch, -200);
    w.orbit_camera(0, -1_000_000);
    assert_eq!(w.pitch, -PITCH_LIMIT);
    w.orbit_camera(0, 3_000_000);
    assert_eq!(w.pitch, PITCH_LIMIT);
}

#[test]
fn release_actions_cover_every_handle_the_window_owns() {
    let mut w = window();
    w.add_image("one".to_string(), "a.png".to_string(), 0, 0, 0, &decoded(4, 4)).unwrap();
    w.add_image("two".to_string(), "b.png".to_string(), 9, 9, 9, &decoded(8, 8)).unwrap();
    let acts = w.release_actions();
    // Three releases per image, then one per cached texture.
    assert_eq!(acts.len(), 8);
    assert!(matches!(acts[0], GpuAction::ReleaseDrawable { .. }));
    assert!(matches!(acts[1], GpuAction::ReleaseMaterial { .. }));
    assert!(matches!(acts[2], GpuAction::ReleaseBuffer { .. }));
    assert!(matches!(acts[6], GpuAction::ReleaseTexture { .. }));
    assert!(matches!(acts[7], GpuAction::ReleaseTexture { .. }));
}
