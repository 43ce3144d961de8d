//! Quad geometry: construction, translation, rotation.

use scenecore::geom::{build_quad, rotate_vertices, translate_vertices, Point3, Rotation, ROT_ONE};

fn positions(vs: &Vec<scenecore::geom::Vertex>) -> Vec<(i64, i64, i64)> {
    vs.iter().map(|v| (v.pos.x, v.pos.y, v.pos.z)).collect()
}

#[test]
fn quad_vertices_follow_the_fixed_winding() {
    let vs = build_quad(10, 20, 5, 2, 3).unwrap();
    assert_eq!(
        positions(&vs),
        vec![
            (10, 20, 5),
            (12, 20, 5),
            (10, 23, 5),
            (12, 20, 5),
            (12, 23, 5),
            (10, 23, 5),
        ]
    );
    let uvs: Vec<(u8, u8)> = vs.iter().map(|v| (v.uv.u, v.uv.v)).collect();
    assert_eq!(uvs, vec![(0, 1), (1, 1), (0, 0), (1, 1), (1, 0), (0, 0)]);
}

#[test]
fn quad_out_of_range_is_refused() {
    assert!(build_quad(scenecore::geom::MAX_COORD, 0, 0, 1, 1).is_none());
    assert!(build_quad(0, 0, scenecore::geom::MAX_COORD + 1, 1, 1).is_none());
    assert!(build_quad(scenecore::geom::MAX_COORD - 10, 0, 0, 10, 1).is_some());
}

#[test]
fn translation_moves_the_anchor_and_keeps_the_shape() {
    let vs = build_quad(5, 7, 9, 10, 4).unwrap();
    let nvs = translate_vertices(&vs, 100, 200, 300).unwrap();
    assert_eq!(
        positions(&nvs),
        vec![
            (100, 200, 300),
            (110, 200, 300),
            (100, 204, 300),
            (110, 200, 300),
            (110, 204, 300),
            (100, 204, 300),
        ]
    );
    for (a, b) in vs.iter().zip(nvs.iter()) {
        assert_eq!(a.uv, b.uv);
    }
}

#[test]
fn quarter_turn_rotates_about_the_centroid() {
    // Quad at the origin, 4 by 2: centroid (2, 1), stored doubled.
    let vs = build_quad(0, 0, 0, 4, 2).unwrap();
    let o2 = Point3 { x: 4, y: 2, z: 0 };
    let quarter = Rotation { cos: 0, sin: ROT_ONE };
    let nvs = rotate_vertices(&vs, &o2, &quarter).unwrap();
    // (x, y) -> centroid + (-(y - cy), x - cx)
    assert_eq!(
        positions(&nvs),
        vec![(3, -1, 0), (3, 3, 0), (1, -1, 0), (3, 3, 0), (1, 3, 0), (1, -1, 0)]
    );
}

#[test]
fn identity_rotation_moves_nothing() {
    let vs = build_quad(-37, 12, 3, 13, 9).unwrap();
    let o2 = Point3 { x: 2 * -37 + 13, y: 2 * 12 + 9, z: 6 };
    let nvs = rotate_vertices(&vs, &o2, &Rotation::identity()).unwrap();
    assert_eq!(positions(&vs), positions(&nvs));
}

#[test]
fn quarter_turn_and_back_is_exact() {
    // A quarter turn lies exactly on the fixed-point unit circle, and on a
    // quad with an even extent its divisions are exact, so the round trip
    // restores every position exactly.
    let vs = build_quad(0, 0, 0, 4, 2).unwrap();
    let o2 = Point3 { x: 4, y: 2, z: 0 };
    let quarter = Rotation { cos: 0, sin: ROT_ONE };
    let there = rotate_vertices(&vs, &o2, &quarter).unwrap();
    let back = rotate_vertices(&there, &o2, &quarter.inverse()).unwrap();
    assert_eq!(positions(&vs), positions(&back));
}

#[test]
fn rotation_and_its_inverse_restore_positions_within_rounding() {
    // Roughly thirty degrees in fixed point: cos ~ 0.866, sin = 0.5.
    let vs = build_quad(100, 200, 0, 60, 40).unwrap();
    let o2 = Point3 { x: 2 * 100 + 60, y: 2 * 200 + 40, z: 0 };
    let rot = Rotation { cos: 56756, sin: 32768 };
    let there = rotate_vertices(&vs, &o2, &rot).unwrap();
    let back = rotate_vertices(&there, &o2, &rot.inverse()).unwrap();
    for (a, b) in vs.iter().zip(back.iter()) {
        assert!((a.pos.x - b.pos.x).abs() <= 2, "x drifted: {} vs {}", a.pos.x, b.pos.x);
        assert!((a.pos.y - b.pos.y).abs() <= 2, "y drifted: {} vs {}", a.pos.y, b.pos.y);
        assert_eq!(a.pos.z, b.pos.z);
    }
}
