//! The geometry that every frame draws: one quad that covers the whole
//! render target, as two counter-clockwise triangles.
//!
//! Coordinates are whole numbers: clip-space positions are -1 or 1 and
//! texture coordinates are 0 or 1.

use vstd::prelude::*;

verus! {

/// One corner of the quad.
#[derive(Copy, Clone, Debug)]
pub struct Vertex {
    /// Clip-space position `[x, y]`.
    pub position: [i8; 2],
    /// Texture coordinate `[u, v]`, with `v` growing downwards.
    pub tex_coords: [u8; 2],
}

/// Indices into the vertex table, three per triangle.
pub const INDICES: [u16; 6] = [0, 1, 2, 0, 2, 3];

/// The four corners of the quad, counter-clockwise from the bottom left.
pub open spec fn quad() -> Seq<Vertex> {
    seq![
        Vertex { position: [-1i8, -1i8], tex_coords: [0u8, 1u8] },
        Vertex { position: [1i8, -1i8], tex_coords: [1u8, 1u8] },
        Vertex { position: [1i8, 1i8], tex_coords: [1u8, 0u8] },
        Vertex { position: [-1i8, 1i8], tex_coords: [0u8, 0u8] },
    ]
}

/// Twice the signed area of the triangle `a`, `b`, `c`: positive when the
/// corners run counter-clockwise.
pub open spec fn doubled_area(a: Vertex, b: Vertex, c: Vertex) -> int {
    (b.position[0] - a.position[0]) * (c.position[1] - a.position[1]) - (b.position[1]
        - a.position[1]) * (c.position[0] - a.position[0])
}

/// Twice the signed area of the `triangle`-th triangle of the index table.
pub open spec fn triangle_doubled_area(triangle: int) -> int
    recommends
        0 <= triangle < 2,
{
    doubled_area(
        quad()[INDICES[3 * triangle] as int],
        quad()[INDICES[3 * triangle + 1] as int],
        quad()[INDICES[3 * triangle + 2] as int],
    )
}

/// The vertex table.
pub fn vertices() -> (table: [Vertex; 4])
    ensures
        table@ == quad(),
{
    let table = [
        Vertex { position: [-1, -1], tex_coords: [0, 1] },
        Vertex { position: [1, -1], tex_coords: [1, 1] },
        Vertex { position: [1, 1], tex_coords: [1, 0] },
        Vertex { position: [-1, 1], tex_coords: [0, 0] },
    ];
    assert(table@ =~= quad());
    table
}

/// Number of entries of the index table.
pub fn num_indices() -> (n: u32)
    ensures
        n == INDICES@.len(),
        n == 6,
{
    6
}

/// Every index names a vertex, both triangles face the viewer under
/// counter-clockwise front faces, and together they have the area of the
/// whole clip-space square, which is 4.
pub proof fn lemma_quad_covers_target()
    ensures
        forall|i: int| 0 <= i < INDICES@.len() ==> 0 <= #[trigger] INDICES[i] < quad().len(),
        triangle_doubled_area(0) > 0,
        triangle_doubled_area(1) > 0,
        triangle_doubled_area(0) + triangle_doubled_area(1) == 2 * 4,
{
    let a = quad()[0];
    let b = quad()[1];
    let c = quad()[2];
    let d = quad()[3];
    assert(a.position[0] == -1 && a.position[1] == -1);
    assert(b.position[0] == 1 && b.position[1] == -1);
    assert(c.position[0] == 1 && c.position[1] == 1);
    assert(d.position[0] == -1 && d.position[1] == 1);
    assert(INDICES[0] == 0 && INDICES[1] == 1 && INDICES[2] == 2);
    assert(INDICES[3] == 0 && INDICES[4] == 2 && INDICES[5] == 3);
    assert(doubled_area(a, b, c) == 4);
    assert(doubled_area(a, c, d) == 4);
    assert(triangle_doubled_area(0) == doubled_area(a, b, c));
    assert(triangle_doubled_area(1) == doubled_area(a, c, d));
}

} // verus!
