//! Rectangles as meshes: four vertices and the six indices of two triangles.
//!
//! Indices are 16 bits wide. A rectangle whose first vertex stands at place
//! `n` of the vertex list gets the indices that start at `n` modulo 65536, so
//! they name the rectangle's own vertices as long as the list, the rectangle
//! included, holds no more than 65536 vertices.

use vstd::prelude::*;
use crate::renderer::{ColorVertex, TextureVertex};

verus! {

/// The corners of the rectangle at `position` with extent `size`: top left,
/// top right, bottom left, bottom right, each in `color`.
pub open spec fn color_quad_vertices(
    position: (u32, u32),
    size: (u32, u32),
    color: (u8, u8, u8, u8),
) -> Seq<ColorVertex> {
    let right = (position.0 + size.0) as u32;
    let bottom = (position.1 + size.1) as u32;
    seq![
        ColorVertex { position: (position.0, position.1), color },
        ColorVertex { position: (right, position.1), color },
        ColorVertex { position: (position.0, bottom), color },
        ColorVertex { position: (right, bottom), color },
    ]
}

/// The corners of the rectangle at `position` with extent `size`, in the
/// order of `color_quad_vertices`, each with the texture corner that belongs
/// to it: (0, 0) top left, (1, 0) top right, (0, 1) bottom left, (1, 1)
/// bottom right.
pub open spec fn texture_quad_vertices(position: (u32, u32), size: (u32, u32)) -> Seq<
    TextureVertex,
> {
    let right = (position.0 + size.0) as u32;
    let bottom = (position.1 + size.1) as u32;
    seq![
        TextureVertex { position: (position.0, position.1), texture: (0, 0) },
        TextureVertex { position: (right, position.1), texture: (1, 0) },
        TextureVertex { position: (position.0, bottom), texture: (0, 1) },
        TextureVertex { position: (right, bottom), texture: (1, 1) },
    ]
}

/// The 16-bit index that names place `offset` of a vertex list.
pub open spec fn index_base(offset: int) -> int {
    offset % 0x1_0000
}

/// The indices of the two triangles of a rectangle whose first vertex stands
/// at place `offset`: corners 0, 1, 2 and corners 2, 1, 3.
pub open spec fn quad_indices(offset: int) -> Seq<u16> {
    let base = index_base(offset);
    seq![
        base as u16,
        (base + 1) as u16,
        (base + 2) as u16,
        (base + 2) as u16,
        (base + 1) as u16,
        (base + 3) as u16,
    ]
}

/// Every index is below `vertex_count`, so each names a vertex of the list.
pub open spec fn indices_in_bounds(indices: Seq<u16>, vertex_count: int) -> bool {
    forall|i: int| 0 <= i < indices.len() ==> (#[trigger] indices[i]) < vertex_count
}

/// The indices of a rectangle are those of its own four vertices, as long as
/// the last of them stands below place 65536.
pub proof fn lemma_quad_indices_name_own_vertices(offset: int)
    requires
        0 <= offset,
        offset + 4 <= 0x1_0000,
    ensures
        quad_indices(offset) =~= seq![
            offset as u16,
            (offset + 1) as u16,
            (offset + 2) as u16,
            (offset + 2) as u16,
            (offset + 1) as u16,
            (offset + 3) as u16,
        ],
        forall|i: int|
            0 <= i < 6 ==> offset <= (#[trigger] quad_indices(offset)[i]) < offset + 4,
{
}

/// A mesh whose indices all name vertices keeps that property when a
/// rectangle is added to it, as long as it then holds no more than 65536
/// vertices.
pub proof fn lemma_quad_keeps_indices_in_bounds(indices: Seq<u16>, vertex_count: int)
    requires
        0 <= vertex_count,
        vertex_count + 4 <= 0x1_0000,
        indices_in_bounds(indices, vertex_count),
    ensures
        indices_in_bounds(indices + quad_indices(vertex_count), vertex_count + 4),
{
    lemma_quad_indices_name_own_vertices(vertex_count);
    let grown = indices + quad_indices(vertex_count);
    assert forall|i: int| 0 <= i < grown.len() implies (#[trigger] grown[i]) < vertex_count
        + 4 by {
        if i < indices.len() {
            assert(grown[i] == indices[i]);
        } else {
            assert(grown[i] == quad_indices(vertex_count)[i - indices.len()]);
        }
    }
}

/// Appends the six indices of a rectangle whose first vertex stands at place
/// `offset`.
fn push_quad_indices(indices: &mut Vec<u16>, offset: usize)
    requires
        index_base(offset as int) + 3 <= u16::MAX,
    ensures
        final(indices)@ == old(indices)@ + quad_indices(offset as int),
{
    let base: u16 = (offset % 0x1_0000) as u16;
    indices.push(base);
    indices.push(base + 1);
    indices.push(base + 2);
    indices.push(base + 2);
    indices.push(base + 1);
    indices.push(base + 3);
    assert(indices@ =~= old(indices)@ + quad_indices(offset as int));
}

/// Adds to the mesh a rectangle of one colour, with its corner at
/// `position` and the extent `size`.
///
/// The far corner has to fit in 32 bits, and so has the largest index in 16.
pub fn draw_color_quad(
    vertices: &mut Vec<ColorVertex>,
    indices: &mut Vec<u16>,
    position: (u32, u32),
    size: (u32, u32),
    color: (u8, u8, u8, u8),
)
    requires
        position.0 + size.0 <= u32::MAX,
        position.1 + size.1 <= u32::MAX,
        index_base(old(vertices)@.len() as int) + 3 <= u16::MAX,
    ensures
        final(vertices)@ == old(vertices)@ + color_quad_vertices(position, size, color),
        final(indices)@ == old(indices)@ + quad_indices(old(vertices)@.len() as int),
{
    let (width, height) = size;
    let offset: usize = vertices.len();

    vertices.push(ColorVertex { position: (position.0, position.1), color });
    vertices.push(ColorVertex { position: (position.0 + width, position.1), color });
    vertices.push(ColorVertex { position: (position.0, position.1 + height), color });
    vertices.push(ColorVertex { position: (position.0 + width, position.1 + height), color });
    assert(vertices@ =~= old(vertices)@ + color_quad_vertices(position, size, color));

    push_quad_indices(indices, offset);
}

/// Adds to the mesh a rectangle that shows a whole texture, with its corner
/// at `position` and the extent `size`.
///
/// The far corner has to fit in 32 bits, and so has the largest index in 16.
pub fn draw_texture_quad(
    vertices: &mut Vec<TextureVertex>,
    indices: &mut Vec<u16>,
    position: (u32, u32),
    size: (u32, u32),
)
    requires
        position.0 + size.0 <= u32::MAX,
        position.1 + size.1 <= u32::MAX,
        index_base(old(vertices)@.len() as int) + 3 <= u16::MAX,
    ensures
        final(vertices)@ == old(vertices)@ + texture_quad_vertices(position, size),
        final(indices)@ == old(indices)@ + quad_indices(old(vertices)@.len() as int),
{
    let (width, height) = size;
    let offset: usize = vertices.len();

    vertices.push(TextureVertex { position: (position.0, position.1), texture: (0, 0) });
    vertices.push(TextureVertex { position: (position.0 + width, position.1), texture: (1, 0) });
    vertices.push(TextureVertex { position: (position.0, position.1 + height), texture: (0, 1) });
    vertices.push(
        TextureVertex { position: (position.0 + width, position.1 + height), texture: (1, 1) },
    );
    assert(vertices@ =~= old(vertices)@ + texture_quad_vertices(position, size));

    push_quad_indices(indices, offset);
}

} // verus!
