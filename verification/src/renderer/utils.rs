//! Shapes built from rectangles.

use vstd::prelude::*;
use crate::renderer::utils::palette::{BLACK, DARKBLUE, IVORY};
use crate::renderer::utils::quad::{
    color_quad_vertices,
    draw_color_quad,
    index_base,
    indices_in_bounds,
    lemma_quad_indices_name_own_vertices,
    quad_indices,
};
use crate::renderer::ColorVertex;

pub mod palette;
pub mod quad;
pub mod texture;

verus! {

/// How far the outermost rectangle of a text box reaches beyond the text on
/// each side: the padding `offset`, a line of 2, a band of `size`, a line
/// of 2.
pub open spec fn text_box_margin(offset: u32, size: u32) -> int {
    offset + 2 + size + 2
}

/// The rectangle that reaches `margin` beyond the text at `origin` with the
/// extent `extent` on each side, in `color` and opaque.
pub open spec fn frame_vertices(
    origin: (u32, u32),
    extent: (u32, u32),
    margin: int,
    color: (u8, u8, u8),
) -> Seq<ColorVertex> {
    color_quad_vertices(
        ((origin.0 - margin) as u32, (origin.1 - margin) as u32),
        ((extent.0 + 2 * margin) as u32, (extent.1 + 2 * margin) as u32),
        (color.0, color.1, color.2, 255),
    )
}

/// The vertices of a text box, outermost rectangle first: an ivory line, a
/// black band, an ivory line, and the dark blue ground under the text.
pub open spec fn text_box_vertices(
    origin: (u32, u32),
    extent: (u32, u32),
    offset: u32,
    size: u32,
) -> Seq<ColorVertex> {
    frame_vertices(origin, extent, offset + 2 + size + 2, IVORY)
        + frame_vertices(origin, extent, offset + 2 + size, BLACK)
        + frame_vertices(origin, extent, offset + 2, IVORY)
        + frame_vertices(origin, extent, offset as int, DARKBLUE)
}

/// The indices of a text box whose first vertex stands at place `first`.
pub open spec fn text_box_indices(first: int) -> Seq<u16> {
    quad_indices(first) + quad_indices(first + 4) + quad_indices(first + 8) + quad_indices(
        first + 12,
    )
}

/// The text box fits: its outermost rectangle stays within 32-bit
/// coordinates on every side, and twice its margin fits in 32 bits.
pub open spec fn text_box_fits(
    origin: (u32, u32),
    extent: (u32, u32),
    offset: u32,
    size: u32,
) -> bool {
    let margin = text_box_margin(offset, size);
    &&& 2 * margin <= u32::MAX
    &&& margin <= origin.0
    &&& margin <= origin.1
    &&& extent.0 + 2 * margin <= u32::MAX
    &&& extent.1 + 2 * margin <= u32::MAX
    &&& origin.0 + extent.0 + margin <= u32::MAX
    &&& origin.1 + extent.1 + margin <= u32::MAX
}

/// Tells whether the text box fits, for a caller that has to find out
/// before it draws one.
pub fn check_text_box_fits(origin: (u32, u32), extent: (u32, u32), offset: u32, size: u32) -> (fits:
    bool)
    ensures
        fits == text_box_fits(origin, extent, offset, size),
{
    let limit: u64 = 0xffff_ffff;
    let margin: u64 = offset as u64 + 2 + size as u64 + 2;
    2 * margin <= limit && margin <= origin.0 as u64 && margin <= origin.1 as u64 && extent.0 as u64
        + 2 * margin <= limit && extent.1 as u64 + 2 * margin <= limit && origin.0 as u64
        + extent.0 as u64 + margin <= limit && origin.1 as u64 + extent.1 as u64 + margin
        <= limit
}

/// The largest index of each of the four rectangles of a text box, whose
/// first vertex stands at place `first`, fits in 16 bits.
pub open spec fn text_box_indexable(first: int) -> bool {
    &&& index_base(first) + 3 <= u16::MAX
    &&& index_base(first + 4) + 3 <= u16::MAX
    &&& index_base(first + 8) + 3 <= u16::MAX
    &&& index_base(first + 12) + 3 <= u16::MAX
}

/// A text box whose sixteen vertices stand below place 65536 can be indexed,
/// and its indices name its own vertices.
pub proof fn lemma_text_box_indices_name_own_vertices(first: int)
    requires
        0 <= first,
        first + 16 <= 0x1_0000,
    ensures
        text_box_indexable(first),
        text_box_indices(first).len() == 24,
        forall|i: int|
            0 <= i < 24 ==> first <= (#[trigger] text_box_indices(first)[i]) < first + 16,
{
    lemma_quad_indices_name_own_vertices(first);
    lemma_quad_indices_name_own_vertices(first + 4);
    lemma_quad_indices_name_own_vertices(first + 8);
    lemma_quad_indices_name_own_vertices(first + 12);
    let all = text_box_indices(first);
    assert forall|i: int| 0 <= i < 24 implies first <= (#[trigger] all[i]) < first + 16 by {
        if i < 6 {
            assert(all[i] == quad_indices(first)[i]);
        } else if i < 12 {
            assert(all[i] == quad_indices(first + 4)[i - 6]);
        } else if i < 18 {
            assert(all[i] == quad_indices(first + 8)[i - 12]);
        } else {
            assert(all[i] == quad_indices(first + 12)[i - 18]);
        }
    }
}

/// A mesh whose indices all name vertices keeps that property when a text
/// box is added to it, as long as it then holds no more than 65536 vertices.
pub proof fn lemma_text_box_keeps_indices_in_bounds(indices: Seq<u16>, vertex_count: int)
    requires
        0 <= vertex_count,
        vertex_count + 16 <= 0x1_0000,
        indices_in_bounds(indices, vertex_count),
    ensures
        indices_in_bounds(indices + text_box_indices(vertex_count), vertex_count + 16),
{
    lemma_text_box_indices_name_own_vertices(vertex_count);
    let grown = indices + text_box_indices(vertex_count);
    assert forall|i: int| 0 <= i < grown.len() implies (#[trigger] grown[i]) < vertex_count
        + 16 by {
        if i < indices.len() {
            assert(grown[i] == indices[i]);
        } else {
            assert(grown[i] == text_box_indices(vertex_count)[i - indices.len()]);
        }
    }
}

/// The rectangle `outer` reaches at least as far as `inner` on every side.
/// Both are given by their four corners, top left first and bottom right
/// last.
pub open spec fn encloses(outer: Seq<ColorVertex>, inner: Seq<ColorVertex>) -> bool {
    &&& outer[0].position.0 <= inner[0].position.0
    &&& outer[0].position.1 <= inner[0].position.1
    &&& inner[3].position.0 <= outer[3].position.0
    &&& inner[3].position.1 <= outer[3].position.1
}

/// The four rectangles of a text box that fits lie within each other, the
/// first outermost, and the last reaches exactly `offset` pixels beyond the
/// text on every side.
pub proof fn lemma_text_box_is_nested(
    origin: (u32, u32),
    extent: (u32, u32),
    offset: u32,
    size: u32,
)
    requires
        text_box_fits(origin, extent, offset, size),
    ensures
        encloses(
            frame_vertices(origin, extent, offset + 2 + size + 2, IVORY),
            frame_vertices(origin, extent, offset + 2 + size, BLACK),
        ),
        encloses(
            frame_vertices(origin, extent, offset + 2 + size, BLACK),
            frame_vertices(origin, extent, offset + 2, IVORY),
        ),
        encloses(
            frame_vertices(origin, extent, offset + 2, IVORY),
            frame_vertices(origin, extent, offset as int, DARKBLUE),
        ),
        frame_vertices(origin, extent, offset as int, DARKBLUE)[0].position.0 == origin.0
            - offset,
        frame_vertices(origin, extent, offset as int, DARKBLUE)[0].position.1 == origin.1
            - offset,
        frame_vertices(origin, extent, offset as int, DARKBLUE)[3].position.0 == origin.0
            + extent.0 + offset,
        frame_vertices(origin, extent, offset as int, DARKBLUE)[3].position.1 == origin.1
            + extent.1 + offset,
{
}

/// Adds to the mesh the box that frames a text at `origin` (left, up) with
/// the extent `extent` (width, height): four rectangles, one upon the other,
/// that leave `offset` pixels of dark blue around the text and frame that
/// with a black band of `size` pixels between two ivory lines of 2.
pub fn draw_text_box(
    vertices: &mut Vec<ColorVertex>,
    indices: &mut Vec<u16>,
    origin: (u32, u32),
    extent: (u32, u32),
    offset: u32,
    size: u32,
)
    requires
        text_box_fits(origin, extent, offset, size),
        text_box_indexable(old(vertices)@.len() as int),
    ensures
        final(vertices)@ == old(vertices)@ + text_box_vertices(origin, extent, offset, size),
        final(indices)@ == old(indices)@ + text_box_indices(old(vertices)@.len() as int),
{
    let (left, up) = origin;
    let (width, height) = extent;
    draw_color_quad(
        vertices,
        indices,
        (left - offset - 2 - size - 2, up - offset - 2 - size - 2),
        (width + 2 * (offset + 2 + size + 2), height + 2 * (offset + 2 + size + 2)),
        (IVORY.0, IVORY.1, IVORY.2, 255),
    );
    draw_color_quad(
        vertices,
        indices,
        (left - offset - 2 - size, up - offset - 2 - size),
        (width + 2 * (offset + 2 + size), height + 2 * (offset + 2 + size)),
        (BLACK.0, BLACK.1, BLACK.2, 255),
    );
    draw_color_quad(
        vertices,
        indices,
        (left - offset - 2, up - offset - 2),
        (width + 2 * (offset + 2), height + 2 * (offset + 2)),
        (IVORY.0, IVORY.1, IVORY.2, 255),
    );
    draw_color_quad(
        vertices,
        indices,
        (left - offset, up - offset),
        (width + 2 * offset, height + 2 * offset),
        (DARKBLUE.0, DARKBLUE.1, DARKBLUE.2, 255),
    );
    assert(vertices@ =~= old(vertices)@ + text_box_vertices(origin, extent, offset, size));
    assert(indices@ =~= old(indices)@ + text_box_indices(old(vertices)@.len() as int));
}

} // verus!
