//! The static quad geometry.
//!
//! Vertex coordinates and colors use the same fixed-point convention as the
//! camera: thousandths of a world unit for positions, thousandths of full
//! intensity for color channels.  The only content the session ever draws
//! is one quad of four vertices and six indices, two counter-clockwise
//! triangles sharing one diagonal edge.

use crate::camera::Vec3Milli;
use vstd::prelude::*;

verus! {

/// A color in thousandths of full channel intensity.
#[derive(Clone, Copy, Debug, PartialEq, Eq, Structural)]
pub struct ColorMilli {
    pub r: i64,
    pub g: i64,
    pub b: i64,
}

/// One vertex of the static geometry: a position in thousandths of a world
/// unit and a color in thousandths of full intensity.
#[derive(Clone, Copy, Debug, PartialEq, Eq, Structural)]
pub struct Vertex {
    pub position: Vec3Milli,
    pub color: ColorMilli,
}

/// Rejection of malformed geometry at construction time.
#[derive(Clone, Copy, Debug, PartialEq, Eq, Structural)]
pub enum GeometryError {
    IndexOutOfRange,
}

/// An indexed triangle list: vertices plus indices into them, grouped in
/// triples, each triple one triangle.
pub struct GeometryBuffers {
    pub vertices: Vec<Vertex>,
    pub indices: Vec<u16>,
}

impl GeometryBuffers {
    /// Every index refers to an existing vertex.
    pub open spec fn well_formed(self) -> bool {
        forall|i: int|
            0 <= i < self.indices@.len() ==> (self.indices@[i] as int) < self.vertices@.len()
    }

    /// Build geometry buffers, rejecting any index that does not refer to
    /// an existing vertex.
    pub fn new(vertices: Vec<Vertex>, indices: Vec<u16>) -> (r: Result<
        GeometryBuffers,
        GeometryError,
    >)
        ensures
            match r {
                Ok(g) => {
                    &&& g.vertices@ == vertices@
                    &&& g.indices@ == indices@
                    &&& g.well_formed()
                },
                Err(e) => {
                    &&& e == GeometryError::IndexOutOfRange
                    &&& exists|i: int|
                        0 <= i < indices@.len() && (indices@[i] as int) >= vertices@.len()
                },
            },
    {
        let mut i: usize = 0;
        while i < indices.len()
            invariant
                0 <= i <= indices@.len(),
                forall|j: int| 0 <= j < i ==> (indices@[j] as int) < vertices@.len(),
            decreases indices@.len() - i,
        {
            if indices[i] as usize >= vertices.len() {
                return Err(GeometryError::IndexOutOfRange);
            }
            i += 1;
        }
        Ok(GeometryBuffers { vertices, indices })
    }

    /// The fixed quad: corners at half a unit from the origin in the x/y
    /// plane, colored with the three primaries and white.
    pub fn quad() -> (g: GeometryBuffers)
        ensures
            g.vertices@ == quad_vertices(),
            g.indices@ == quad_indices(),
            g.well_formed(),
    {
        let vertices: Vec<Vertex> = vec![
            Vertex {
                position: Vec3Milli { x: -500, y: -500, z: 0 },
                color: ColorMilli { r: 1000, g: 0, b: 0 },
            },
            Vertex {
                position: Vec3Milli { x: 500, y: -500, z: 0 },
                color: ColorMilli { r: 0, g: 1000, b: 0 },
            },
            Vertex {
                position: Vec3Milli { x: 500, y: 500, z: 0 },
                color: ColorMilli { r: 0, g: 0, b: 1000 },
            },
            Vertex {
                position: Vec3Milli { x: -500, y: 500, z: 0 },
                color: ColorMilli { r: 1000, g: 1000, b: 1000 },
            },
        ];
        let indices: Vec<u16> = vec![0, 1, 2, 2, 3, 0];
        proof {
            assert(vertices@ =~= quad_vertices());
            assert(indices@ =~= quad_indices());
        }
        GeometryBuffers { vertices, indices }
    }
}

/// The four corners of the quad, in thousandths of a unit.
pub open spec fn quad_vertices() -> Seq<Vertex> {
    seq![
        Vertex {
            position: Vec3Milli { x: -500i64, y: -500i64, z: 0 },
            color: ColorMilli { r: 1000, g: 0, b: 0 },
        },
        Vertex {
            position: Vec3Milli { x: 500, y: -500i64, z: 0 },
            color: ColorMilli { r: 0, g: 1000, b: 0 },
        },
        Vertex {
            position: Vec3Milli { x: 500, y: 500, z: 0 },
            color: ColorMilli { r: 0, g: 0, b: 1000 },
        },
        Vertex {
            position: Vec3Milli { x: -500i64, y: 500, z: 0 },
            color: ColorMilli { r: 1000, g: 1000, b: 1000 },
        },
    ]
}

/// The six indices of the quad's two triangles.
pub open spec fn quad_indices() -> Seq<u16> {
    seq![0u16, 1u16, 2u16, 2u16, 3u16, 0u16]
}

/// Twice the signed area of the triangle `(a, b, c)` projected on the x/y
/// plane; positive when the triangle winds counter-clockwise as seen from
/// the default camera side (positive z).
pub open spec fn double_signed_area(a: Vertex, b: Vertex, c: Vertex) -> int {
    (b.position.x - a.position.x) * (c.position.y - a.position.y) - (b.position.y
        - a.position.y) * (c.position.x - a.position.x)
}

/// The quad's triangulation is sound: all six indices name one of the four
/// vertices, the two triangles share the diagonal edge (traversed once as
/// `2, 0` and once as `0, 2`, so with opposite orientation), both wind
/// counter-clockwise, and their areas sum to exactly the area of the quad
/// itself, so the two triangles cover it once, with no overlap and no gap.
pub proof fn lemma_quad_triangulation()
    ensures
        quad_indices().len() == 6,
        quad_vertices().len() == 4,
        forall|i: int| 0 <= i < 6 ==> (quad_indices()[i] as int) < 4,
        quad_indices()[2] == quad_indices()[3],
        quad_indices()[0] == quad_indices()[5],
        double_signed_area(
            quad_vertices()[quad_indices()[0] as int],
            quad_vertices()[quad_indices()[1] as int],
            quad_vertices()[quad_indices()[2] as int],
        ) == 1_000_000,
        double_signed_area(
            quad_vertices()[quad_indices()[3] as int],
            quad_vertices()[quad_indices()[4] as int],
            quad_vertices()[quad_indices()[5] as int],
        ) == 1_000_000,
        double_signed_area(
            quad_vertices()[quad_indices()[0] as int],
            quad_vertices()[quad_indices()[1] as int],
            quad_vertices()[quad_indices()[2] as int],
        ) + double_signed_area(
            quad_vertices()[quad_indices()[3] as int],
            quad_vertices()[quad_indices()[4] as int],
            quad_vertices()[quad_indices()[5] as int],
        ) == 2 * 1000 * 1000,
{
    assert(forall|i: int| 0 <= i < 6 ==> (quad_indices()[i] as int) < 4) by {
        assert(quad_indices()[0] == 0u16);
        assert(quad_indices()[1] == 1u16);
        assert(quad_indices()[2] == 2u16);
        assert(quad_indices()[3] == 2u16);
        assert(quad_indices()[4] == 3u16);
        assert(quad_indices()[5] == 0u16);
    }
    let v0 = quad_vertices()[0];
    let v1 = quad_vertices()[1];
    let v2 = quad_vertices()[2];
    let v3 = quad_vertices()[3];
    assert(v1.position.x - v0.position.x == 1000);
    assert(v2.position.y - v0.position.y == 1000);
    assert(v1.position.y - v0.position.y == 0);
    assert(v2.position.x - v0.position.x == 1000);
    assert(double_signed_area(v0, v1, v2) == 1_000_000);
    assert(v3.position.x - v2.position.x == -1000);
    assert(v0.position.y - v2.position.y == -1000);
    assert(v3.position.y - v2.position.y == 0);
    assert(v0.position.x - v2.position.x == -1000);
    assert(double_signed_area(v2, v3, v0) == 1_000_000);
}

} // verus!
