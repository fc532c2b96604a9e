//! What a frame shows: the meshes of the screens and the commands that draw
//! them. Coordinates are whole pixels of the surface, colours are bytes.
//!
//! Nothing here touches a graphics device. Whoever owns one uploads the
//! meshes, and plays the commands of a `Frame` into a render pass.

use vstd::prelude::*;
use crate::logic::edit::EditLogic;
use crate::logic::menu::MenuLogic;
use crate::logic::play::PlayLogic;
use crate::logic::victory::VictoryLogic;
use crate::renderer::edit::EditRenderer;
use crate::renderer::menu::{
    has_background,
    is_menu_of,
    menu_commands,
    MenuRenderer,
    MenuRendererView,
};
use crate::renderer::play::PlayRenderer;
use crate::renderer::utils::palette::BLACK;
use crate::renderer::utils::text_box_fits;
use crate::renderer::utils::texture::decoded_rgba;
use crate::renderer::victory::VictoryRenderer;
use crate::sprint_the_game::State;

pub mod edit;
pub mod menu;
pub mod play;
pub mod utils;
pub mod victory;

verus! {

/// A corner of a shape of one colour: its pixel and its red, green, blue and
/// opacity.
#[derive(Debug, Clone, Copy, PartialEq, Eq)]
pub struct ColorVertex {
    pub position: (u32, u32),
    pub color: (u8, u8, u8, u8),
}

/// A corner of a shape that shows a texture: its pixel and the corner of the
/// texture that lies on it, 0 or 1 along each axis.
#[derive(Debug, Clone, Copy, PartialEq, Eq)]
pub struct TextureVertex {
    pub position: (u32, u32),
    pub texture: (u32, u32),
}

/// The two ways of drawing: shapes of one colour, and shapes that show a
/// texture.
#[derive(Debug, Clone, Copy, PartialEq, Eq, Structural)]
pub enum Pipeline {
    Color,
    Texture,
}

/// A mesh that a screen keeps ready, with the bindings that belong to it.
#[derive(Debug, Clone, Copy, PartialEq, Eq, Structural)]
pub enum Mesh {
    /// The picture behind the menu.
    MenuBackground,
    /// The box that frames the menu's text.
    MenuTextBox,
}

/// One step of a render pass.
#[derive(Debug, Clone, Copy, PartialEq, Eq)]
pub enum DrawCommand {
    SetPipeline { pipeline: Pipeline },
    /// Binds the bind group of `mesh` at `index`, without dynamic offsets.
    SetBindGroup { index: u32, mesh: Mesh },
    /// Binds the whole vertex buffer of `mesh` to `slot`.
    SetVertexBuffer { slot: u32, mesh: Mesh },
    /// Binds the whole index buffer of `mesh`, as 16-bit indices.
    SetIndexBuffer { mesh: Mesh },
    /// Draws the indices from `indices.0` up to, not including, `indices.1`,
    /// for the instances from `instances.0` up to `instances.1`.
    DrawIndexed { indices: (u32, u32), base_vertex: i32, instances: (u32, u32) },
    /// Draws the text that was laid out for the screen.
    DrawText,
}

/// One frame: the colour the surface is cleared to, then the commands of the
/// one render pass, in order.
pub struct Frame {
    pub clear: (u8, u8, u8),
    pub commands: Vec<DrawCommand>,
}

/// The extent of the surface behind a window whose inner size is `size`: the
/// same, but at least one pixel along each axis.
pub fn surface_extent(size: (u32, u32)) -> (extent: (u32, u32))
    ensures
        extent.0 == if size.0 == 0 { 1 } else { size.0 },
        extent.1 == if size.1 == 0 { 1 } else { size.1 },
{
    let width: u32 = if size.0 == 0 { 1 } else { size.0 };
    let height: u32 = if size.1 == 0 { 1 } else { size.1 };
    (width, height)
}

/// The bytes of `indices` with the low byte of each index first.
pub open spec fn little_endian_bytes(indices: Seq<u16>) -> Seq<u8> {
    Seq::new(
        2 * indices.len(),
        |i: int|
            if i % 2 == 0 {
                (indices[i / 2] % 256) as u8
            } else {
                (indices[i / 2] / 256) as u8
            },
    )
}

/// The bytes of `indices` with the high byte of each index first.
pub open spec fn big_endian_bytes(indices: Seq<u16>) -> Seq<u8> {
    Seq::new(
        2 * indices.len(),
        |i: int|
            if i % 2 == 0 {
                (indices[i / 2] / 256) as u8
            } else {
                (indices[i / 2] % 256) as u8
            },
    )
}

/// `bytes` is what an index buffer with `indices` holds in memory: two bytes
/// for each index, in the byte order of the machine.
pub open spec fn is_index_buffer(bytes: Seq<u8>, indices: Seq<u16>) -> bool {
    bytes == little_endian_bytes(indices) || bytes == big_endian_bytes(indices)
}

/// An index buffer holds two bytes for each index, and each pair of bytes
/// makes up its index, low byte first or high byte first.
pub proof fn lemma_index_buffer_holds_the_indices(bytes: Seq<u8>, indices: Seq<u16>)
    requires
        is_index_buffer(bytes, indices),
    ensures
        bytes.len() == 2 * indices.len(),
        forall|i: int|
            0 <= i < indices.len() ==> {
                ||| (#[trigger] indices[i]) == bytes[2 * i] + 256 * bytes[2 * i + 1]
                ||| indices[i] == 256 * bytes[2 * i] + bytes[2 * i + 1]
            },
{
    assert forall|i: int| 0 <= i < indices.len() implies {
        ||| (#[trigger] indices[i]) == bytes[2 * i] + 256 * bytes[2 * i + 1]
        ||| indices[i] == 256 * bytes[2 * i] + bytes[2 * i + 1]
    } by {
        assert((2 * i) % 2 == 0 && (2 * i) / 2 == i);
        assert((2 * i + 1) % 2 == 1 && (2 * i + 1) / 2 == i);
    }
}

/// The memory of `indices` as bytes, by `bytemuck::cast_slice`, copied into
/// a vector.
///
/// Trusted: the cast reads the memory of the slice as it lies there, so each
/// index gives its two bytes in the machine's byte order, the same order for
/// all of them. From 16-bit values to bytes the cast never fails.
#[verifier::external_body]
pub(crate) fn cast_indices(indices: &Vec<u16>) -> (bytes: Vec<u8>)
    ensures
        is_index_buffer(bytes@, indices@),
{
    bytemuck::cast_slice::<u16, u8>(indices.as_slice()).to_vec()
}

/// The renderers of the four screens.
pub struct Renderer {
    pub menu: MenuRenderer,
    pub play: PlayRenderer,
    pub victory: VictoryRenderer,
    pub edit: EditRenderer,
}

impl Renderer {
    /// The commands that draw the screen `state`. Only the menu draws
    /// anything yet.
    pub open spec fn commands(&self, state: State) -> Seq<DrawCommand> {
        match state {
            State::Menu => menu_commands(
                self.menu@.background.indices.len(),
                self.menu@.indices.len(),
            ),
            _ => Seq::empty(),
        }
    }

    /// The renderers of the four screens for a surface of `surface` pixels.
    ///
    /// `diffuse_bytes` is the encoded picture behind the menu; `origin` and
    /// `extent` say where the menu's text lies. The result is `None` where
    /// the decoder gives no picture that a menu can show.
    pub fn new(
        menu: &MenuLogic,
        play: &PlayLogic,
        victory: &VictoryLogic,
        edit: &EditLogic,
        diffuse_bytes: &[u8],
        origin: (u32, u32),
        extent: (u32, u32),
        surface: (u32, u32),
    ) -> (renderer: Option<Self>)
        requires
            text_box_fits(origin, extent, 15, 15),
        ensures
            renderer.is_some() <==> has_background(decoded_rgba(diffuse_bytes@)),
            renderer matches Some(r) ==> is_menu_of(
                r.menu@,
                decoded_rgba(diffuse_bytes@),
                origin,
                extent,
                surface,
            ),
    {
        let menu = match MenuRenderer::new(menu, diffuse_bytes, origin, extent, surface) {
            Some(menu) => menu,
            None => {
                return None;
            },
        };
        let play = PlayRenderer::new(play);
        let victory = VictoryRenderer::new(victory);
        let edit = EditRenderer::new(edit);

        return Some(Self { menu, play, victory, edit });
    }

    /// Lets the renderer of the screen `state` look at its logic. None of
    /// them takes anything over yet.
    pub fn update(
        &mut self,
        state: &State,
        menu: &MenuLogic,
        play: &PlayLogic,
        victory: &VictoryLogic,
        edit: &EditLogic,
    )
        ensures
            *final(self) == *old(self),
    {
        match state {
            State::Menu => self.menu.update(menu),
            State::Play => self.play.update(play),
            State::Victory => self.victory.update(victory),
            State::Edit => self.edit.update(edit),
        }
    }

    /// Tells all four screens that the surface now has `size` pixels. The
    /// menu takes `size` as its viewport; its meshes and the other screens
    /// stay as they are.
    pub fn process_resize(&mut self, size: (u32, u32))
        ensures
            final(self).menu@ == (MenuRendererView { viewport: size, ..old(self).menu@ }),
            final(self).play == old(self).play,
            final(self).victory == old(self).victory,
            final(self).edit == old(self).edit,
    {
        self.menu.process_resize(size);
        self.play.process_resize(size);
        self.victory.process_resize(size);
        self.edit.process_resize(size);
    }

    /// Composes a frame of the screen `state`: the surface is cleared to
    /// black, then the screen draws itself in one render pass.
    pub fn render(&self, state: &State) -> (frame: Frame)
        ensures
            frame.clear == BLACK,
            frame.commands@ == self.commands(*state),
    {
        let commands = match state {
            State::Menu => self.menu.render(),
            State::Play => self.play.render(),
            State::Victory => self.victory.render(),
            State::Edit => self.edit.render(),
        };
        return Frame { clear: (BLACK.0, BLACK.1, BLACK.2), commands };
    }
}

} // verus!
