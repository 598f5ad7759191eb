//! CPU-side primitive geometry: vertex and index lists for a triangle, a
//! quad and a cube, with the exact data each constructor produces stated as
//! specification sequences.

use vstd::prelude::*;

use crate::vertex::{spec_vtx, vtx, Vertex, HALF, NEG_HALF, NEG_UNIT, UNIT};

verus! {

/// CPU-side geometry: an ordered vertex list and an 8-bit index list.
/// Pure data; GPU ownership lives in `Primitive`.
pub struct Geometry<V> {
    pub vertices: Vec<V>,
    pub indices: Vec<u8>,
}

/// The vertices of the unit triangle: white, facing +z.
pub open spec fn triangle_vertices() -> Seq<Vertex> {
    seq![
        spec_vtx(NEG_HALF, NEG_HALF, 0, 0, 0, UNIT, 0, 0),
        spec_vtx(HALF, NEG_HALF, 0, 0, 0, UNIT, UNIT, 0),
        spec_vtx(0, HALF, 0, 0, 0, UNIT, HALF, UNIT),
    ]
}

/// The indices of the unit triangle.
pub open spec fn triangle_indices() -> Seq<u8> {
    seq![0, 1, 2]
}

/// The vertices of the unit quad: white, facing +z, ordered bottom-left,
/// bottom-right, top-right, top-left.
pub open spec fn quad_vertices() -> Seq<Vertex> {
    seq![
        spec_vtx(0, UNIT, 0, 0, 0, UNIT, 0, UNIT),
        spec_vtx(UNIT, UNIT, 0, 0, 0, UNIT, UNIT, UNIT),
        spec_vtx(UNIT, 0, 0, 0, 0, UNIT, UNIT, 0),
        spec_vtx(0, 0, 0, 0, 0, UNIT, 0, 0),
    ]
}

/// The indices of the unit quad: two triangles.
pub open spec fn quad_indices() -> Seq<u8> {
    seq![0, 1, 2, 0, 2, 3]
}

/// The 24 cube vertices: 6 faces of 4 vertices each, in face order front,
/// right, back, left, top, bottom, each face with its outward normal.
pub open spec fn cube_vertices() -> Seq<Vertex> {
    seq![
        // Front: +z
        spec_vtx(NEG_HALF, NEG_HALF, HALF, 0, 0, UNIT, 0, 0),
        spec_vtx(HALF, NEG_HALF, HALF, 0, 0, UNIT, UNIT, 0),
        spec_vtx(HALF, HALF, HALF, 0, 0, UNIT, UNIT, UNIT),
        spec_vtx(NEG_HALF, HALF, HALF, 0, 0, UNIT, 0, UNIT),
        // Right: +x
        spec_vtx(HALF, NEG_HALF, HALF, UNIT, 0, 0, 0, 0),
        spec_vtx(HALF, NEG_HALF, NEG_HALF, UNIT, 0, 0, UNIT, 0),
        spec_vtx(HALF, HALF, NEG_HALF, UNIT, 0, 0, UNIT, UNIT),
        spec_vtx(HALF, HALF, HALF, UNIT, 0, 0, 0, UNIT),
        // Back: -z
        spec_vtx(HALF, NEG_HALF, NEG_HALF, 0, 0, NEG_UNIT, 0, 0),
        spec_vtx(NEG_HALF, NEG_HALF, NEG_HALF, 0, 0, NEG_UNIT, UNIT, 0),
        spec_vtx(NEG_HALF, HALF, NEG_HALF, 0, 0, NEG_UNIT, UNIT, UNIT),
        spec_vtx(HALF, HALF, NEG_HALF, 0, 0, NEG_UNIT, 0, UNIT),
        // Left: -x
        spec_vtx(NEG_HALF, NEG_HALF, NEG_HALF, NEG_UNIT, 0, 0, 0, 0),
        spec_vtx(NEG_HALF, NEG_HALF, HALF, NEG_UNIT, 0, 0, UNIT, 0),
        spec_vtx(NEG_HALF, HALF, HALF, NEG_UNIT, 0, 0, UNIT, UNIT),
        spec_vtx(NEG_HALF, HALF, NEG_HALF, NEG_UNIT, 0, 0, 0, UNIT),
        // Top: +y
        spec_vtx(NEG_HALF, HALF, HALF, 0, UNIT, 0, 0, 0),
        spec_vtx(HALF, HALF, HALF, 0, UNIT, 0, UNIT, 0),
        spec_vtx(HALF, HALF, NEG_HALF, 0, UNIT, 0, UNIT, UNIT),
        spec_vtx(NEG_HALF, HALF, NEG_HALF, 0, UNIT, 0, 0, UNIT),
        // Bottom: -y
        spec_vtx(NEG_HALF, NEG_HALF, NEG_HALF, 0, NEG_UNIT, 0, 0, 0),
        spec_vtx(HALF, NEG_HALF, NEG_HALF, 0, NEG_UNIT, 0, UNIT, 0),
        spec_vtx(HALF, NEG_HALF, HALF, 0, NEG_UNIT, 0, UNIT, UNIT),
        spec_vtx(NEG_HALF, NEG_HALF, HALF, 0, NEG_UNIT, 0, 0, UNIT),
    ]
}

/// The 36 cube indices: per face `f`, the two triangles
/// `(4f, 4f+1, 4f+2)` and `(4f, 4f+2, 4f+3)`.
pub open spec fn cube_indices() -> Seq<u8> {
    seq![
        0, 1, 2, 0, 2, 3, // front
        4, 5, 6, 4, 6, 7, // right
        8, 9, 10, 8, 10, 11, // back
        12, 13, 14, 12, 14, 15, // left
        16, 17, 18, 16, 18, 19, // top
        20, 21, 22, 20, 22, 23, // bottom
    ]
}

/// The index pattern of one cube face: two triangles over that face's four
/// vertices, winding counter-clockwise when seen from outside.
pub open spec fn face_indices(f: int) -> Seq<u8> {
    seq![
        (4 * f) as u8,
        (4 * f + 1) as u8,
        (4 * f + 2) as u8,
        (4 * f) as u8,
        (4 * f + 2) as u8,
        (4 * f + 3) as u8,
    ]
}

/// The cube produces 24 vertices and 36 indices, and the index list is the
/// concatenation of the six per-face triangle-pair groups.
pub proof fn lemma_cube_shape()
    ensures
        cube_vertices().len() == 24,
        cube_indices().len() == 36,
        cube_indices() == face_indices(0) + face_indices(1) + face_indices(2) + face_indices(3)
            + face_indices(4) + face_indices(5),
{
    assert(cube_indices() =~= face_indices(0) + face_indices(1) + face_indices(2)
        + face_indices(3) + face_indices(4) + face_indices(5));
}

/// Every cube index addresses one of the 24 cube vertices, and the four
/// vertices of each face share that face's normal.
pub proof fn lemma_cube_well_formed()
    ensures
        forall|i: int| 0 <= i < 36 ==> 0 <= #[trigger] cube_indices()[i] < 24,
        forall|f: int, k: int|
            #![trigger cube_vertices()[k], cube_vertices()[4 * f]]
            0 <= f < 6 && 4 * f <= k < 4 * f + 4 ==> cube_vertices()[k].normal
                == cube_vertices()[4 * f].normal,
{
    assert forall|i: int| 0 <= i < 36 implies 0 <= #[trigger] cube_indices()[i] < 24 by {
        lemma_cube_shape();
        let f = i / 6;
        assert(cube_indices()[i] == (face_indices(f))[i % 6]);
    }
    assert forall|f: int, k: int|
        #![trigger cube_vertices()[k], cube_vertices()[4 * f]]
        0 <= f < 6 && 4 * f <= k < 4 * f + 4 implies cube_vertices()[k].normal
        == cube_vertices()[4 * f].normal by {
        assert(k == 4 * f || k == 4 * f + 1 || k == 4 * f + 2 || k == 4 * f + 3);
    }
}

impl Geometry<Vertex> {
    /// A white unit triangle facing +z.
    pub fn triangle() -> (r: Self)
        ensures
            r.vertices@ == triangle_vertices(),
            r.indices@ == triangle_indices(),
    {
        let vertices = vec![
            vtx(NEG_HALF, NEG_HALF, 0, 0, 0, UNIT, 0, 0),
            vtx(HALF, NEG_HALF, 0, 0, 0, UNIT, UNIT, 0),
            vtx(0, HALF, 0, 0, 0, UNIT, HALF, UNIT),
        ];
        let indices = vec![0, 1, 2];
        proof {
            assert(vertices@ =~= triangle_vertices());
            assert(indices@ =~= triangle_indices());
        }
        Self { vertices, indices }
    }

    /// A white unit quad facing +z, with vertices ordered bottom-left,
    /// bottom-right, top-right, top-left.
    pub fn quad() -> (r: Self)
        ensures
            r.vertices@ == quad_vertices(),
            r.indices@ == quad_indices(),
    {
        let vertices = vec![
            vtx(0, UNIT, 0, 0, 0, UNIT, 0, UNIT),
            vtx(UNIT, UNIT, 0, 0, 0, UNIT, UNIT, UNIT),
            vtx(UNIT, 0, 0, 0, 0, UNIT, UNIT, 0),
            vtx(0, 0, 0, 0, 0, UNIT, 0, 0),
        ];
        let indices = vec![0, 1, 2, 0, 2, 3];
        proof {
            assert(vertices@ =~= quad_vertices());
            assert(indices@ =~= quad_indices());
        }
        Self { vertices, indices }
    }

    /// A white unit cube centered at the origin: 6 faces of 4 vertices each
    /// with outward normals, and 36 indices forming two counter-clockwise
    /// triangles per face.
    pub fn cube() -> (r: Self)
        ensures
            r.vertices@ == cube_vertices(),
            r.indices@ == cube_indices(),
    {
        let vertices = vec![
            // Front: +z
            vtx(NEG_HALF, NEG_HALF, HALF, 0, 0, UNIT, 0, 0),
            vtx(HALF, NEG_HALF, HALF, 0, 0, UNIT, UNIT, 0),
            vtx(HALF, HALF, HALF, 0, 0, UNIT, UNIT, UNIT),
            vtx(NEG_HALF, HALF, HALF, 0, 0, UNIT, 0, UNIT),
            // Right: +x
            vtx(HALF, NEG_HALF, HALF, UNIT, 0, 0, 0, 0),
            vtx(HALF, NEG_HALF, NEG_HALF, UNIT, 0, 0, UNIT, 0),
            vtx(HALF, HALF, NEG_HALF, UNIT, 0, 0, UNIT, UNIT),
            vtx(HALF, HALF, HALF, UNIT, 0, 0, 0, UNIT),
            // Back: -z
            vtx(HALF, NEG_HALF, NEG_HALF, 0, 0, NEG_UNIT, 0, 0),
            vtx(NEG_HALF, NEG_HALF, NEG_HALF, 0, 0, NEG_UNIT, UNIT, 0),
            vtx(NEG_HALF, HALF, NEG_HALF, 0, 0, NEG_UNIT, UNIT, UNIT),
            vtx(HALF, HALF, NEG_HALF, 0, 0, NEG_UNIT, 0, UNIT),
            // Left: -x
            vtx(NEG_HALF, NEG_HALF, NEG_HALF, NEG_UNIT, 0, 0, 0, 0),
            vtx(NEG_HALF, NEG_HALF, HALF, NEG_UNIT, 0, 0, UNIT, 0),
            vtx(NEG_HALF, HALF, HALF, NEG_UNIT, 0, 0, UNIT, UNIT),
            vtx(NEG_HALF, HALF, NEG_HALF, NEG_UNIT, 0, 0, 0, UNIT),
            // Top: +y
            vtx(NEG_HALF, HALF, HALF, 0, UNIT, 0, 0, 0),
            vtx(HALF, HALF, HALF, 0, UNIT, 0, UNIT, 0),
            vtx(HALF, HALF, NEG_HALF, 0, UNIT, 0, UNIT, UNIT),
            vtx(NEG_HALF, HALF, NEG_HALF, 0, UNIT, 0, 0, UNIT),
            // Bottom: -y
            vtx(NEG_HALF, NEG_HALF, NEG_HALF, 0, NEG_UNIT, 0, 0, 0),
            vtx(HALF, NEG_HALF, NEG_HALF, 0, NEG_UNIT, 0, UNIT, 0),
            vtx(HALF, NEG_HALF, HALF, 0, NEG_UNIT, 0, UNIT, UNIT),
            vtx(NEG_HALF, NEG_HALF, HALF, 0, NEG_UNIT, 0, 0, UNIT),
        ];
        let indices = vec![
            0, 1, 2, 0, 2, 3, // front
            4, 5, 6, 4, 6, 7, // right
            8, 9, 10, 8, 10, 11, // back
            12, 13, 14, 12, 14, 15, // left
            16, 17, 18, 16, 18, 19, // top
            20, 21, 22, 20, 22, 23, // bottom
        ];
        proof {
            assert(vertices@ =~= cube_vertices());
            assert(indices@ =~= cube_indices());
        }
        Self { vertices, indices }
    }
}

} // verus!
