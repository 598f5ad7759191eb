use rust_gl::geometry::Geometry;
use rust_gl::vertex::{Vec3, HALF, NEG_HALF, UNIT};

#[test]
fn cube_has_24_vertices_and_36_indices() {
    let cube = Geometry::cube();
    assert_eq!(cube.vertices.len(), 24);
    assert_eq!(cube.indices.len(), 36);
}

#[test]
fn cube_indices_form_six_groups_of_two_triangles() {
    let cube = Geometry::cube();
    for f in 0..6u8 {
        let base = 4 * f;
        let group = &cube.indices[(6 * f) as usize..(6 * f + 6) as usize];
        assert_eq!(group, &[base, base + 1, base + 2, base, base + 2, base + 3]);
    }
}

#[test]
fn cube_indices_address_cube_vertices() {
    let cube = Geometry::cube();
    for &i in &cube.indices {
        assert!((i as usize) < cube.vertices.len());
    }
}

#[test]
fn cube_faces_share_outward_normals() {
    let cube = Geometry::cube();
    let expected = [
        Vec3 { x: 0, y: 0, z: UNIT },
        Vec3 { x: UNIT, y: 0, z: 0 },
        Vec3 { x: 0, y: 0, z: -UNIT },
        Vec3 { x: -UNIT, y: 0, z: 0 },
        Vec3 { x: 0, y: UNIT, z: 0 },
        Vec3 { x: 0, y: -UNIT, z: 0 },
    ];
    for f in 0..6usize {
        for k in 0..4usize {
            assert_eq!(cube.vertices[4 * f + k].normal, expected[f]);
        }
    }
}

#[test]
fn triangle_produces_three_white_vertices() {
    let tri = Geometry::triangle();
    assert_eq!(tri.vertices.len(), 3);
    assert_eq!(tri.indices, vec![0, 1, 2]);
    assert_eq!(tri.vertices[0].position, Vec3 { x: NEG_HALF, y: NEG_HALF, z: 0 });
    assert_eq!(tri.vertices[2].position, Vec3 { x: 0, y: HALF, z: 0 });
    for v in &tri.vertices {
        assert_eq!(v.color.x, UNIT);
        assert_eq!(v.color.w, UNIT);
        assert_eq!(v.normal, Vec3 { x: 0, y: 0, z: UNIT });
    }
}

#[test]
fn quad_produces_two_triangles() {
    let quad = Geometry::quad();
    assert_eq!(quad.vertices.len(), 4);
    assert_eq!(quad.indices, vec![0, 1, 2, 0, 2, 3]);
    assert_eq!(quad.vertices[0].position, Vec3 { x: 0, y: UNIT, z: 0 });
    assert_eq!(quad.vertices[3].position, Vec3 { x: 0, y: 0, z: 0 });
}

#[test]
fn cube_triangles_wind_counter_clockwise() {
    // For each face triangle, the cross product of its edges must point
    // along the face's outward normal: counter-clockwise winding when seen
    // from outside.
    let cube = Geometry::cube();
    let pos = |i: u8| {
        let p = cube.vertices[i as usize].position;
        [p.x as i64, p.y as i64, p.z as i64]
    };
    for t in 0..12usize {
        let a = pos(cube.indices[3 * t]);
        let b = pos(cube.indices[3 * t + 1]);
        let c = pos(cube.indices[3 * t + 2]);
        let e1 = [b[0] - a[0], b[1] - a[1], b[2] - a[2]];
        let e2 = [c[0] - a[0], c[1] - a[1], c[2] - a[2]];
        let cross = [
            e1[1] * e2[2] - e1[2] * e2[1],
            e1[2] * e2[0] - e1[0] * e2[2],
            e1[0] * e2[1] - e1[1] * e2[0],
        ];
        let n = cube.vertices[cube.indices[3 * t] as usize].normal;
        let dot = cross[0] * n.x as i64 + cross[1] * n.y as i64 + cross[2] * n.z as i64;
        assert!(dot > 0, "triangle {} winds the wrong way", t);
    }
}
