//! The renderer of the menu: a picture that fills the surface, a framed box
//! upon it, and the text in the box.

use vstd::prelude::*;
use crate::logic::menu::MenuLogic;
use crate::renderer::utils::quad::{
    draw_texture_quad,
    indices_in_bounds,
    lemma_quad_indices_name_own_vertices,
    quad_indices,
    texture_quad_vertices,
};
use crate::renderer::utils::texture::{
    decoded_rgba,
    texture_upload,
    whole_upload,
    RgbaImage,
    RgbaImageView,
    TextureUpload,
};
use crate::renderer::utils::{
    draw_text_box,
    lemma_text_box_indices_name_own_vertices,
    text_box_fits,
    text_box_indices,
    text_box_vertices,
};
use crate::renderer::{
    cast_indices,
    is_index_buffer,
    ColorVertex,
    DrawCommand,
    Mesh,
    Pipeline,
    TextureVertex,
};

verus! {

/// The picture behind the menu and the rectangle that shows it.
pub struct Background {
    image: RgbaImage,
    vertices: Vec<TextureVertex>,
    indices: Vec<u16>,
    indices_count: usize,
}

pub struct BackgroundView {
    pub image: RgbaImageView,
    pub vertices: Seq<TextureVertex>,
    pub indices: Seq<u16>,
}

impl View for Background {
    type V = BackgroundView;

    closed spec fn view(&self) -> BackgroundView {
        BackgroundView { image: self.image@, vertices: self.vertices@, indices: self.indices@ }
    }
}

/// The background that shows `image` on the whole of a surface of `surface`
/// pixels: one rectangle from the corner (0, 0).
pub open spec fn background_of(image: RgbaImageView, surface: (u32, u32)) -> BackgroundView {
    BackgroundView {
        image,
        vertices: texture_quad_vertices((0, 0), surface),
        indices: quad_indices(0),
    }
}

impl Background {
    #[verifier::type_invariant]
    spec fn well_formed(&self) -> bool {
        &&& 4 * self.image@.width <= u32::MAX
        &&& self.indices_count == self.indices@.len()
        &&& self.indices@.len() <= u32::MAX
    }

    /// The background that shows `image` on the whole of a surface of
    /// `surface` pixels. A row of the picture has to fit in 32 bits.
    pub fn new(image: RgbaImage, surface: (u32, u32)) -> (background: Self)
        requires
            4 * image@.width <= u32::MAX,
        ensures
            background@ == background_of(image@, surface),
    {
        let mut vertices: Vec<TextureVertex> = Vec::new();
        let mut indices: Vec<u16> = Vec::new();

        draw_texture_quad(&mut vertices, &mut indices, (0, 0), surface);

        let indices_count = indices.len();
        assert(vertices@ =~= texture_quad_vertices((0, 0), surface));
        assert(indices@ =~= quad_indices(0));
        Self { image, vertices, indices, indices_count }
    }

    pub fn image(&self) -> (image: &RgbaImage)
        ensures
            image@ == self@.image,
    {
        &self.image
    }

    pub fn vertices(&self) -> (vertices: &Vec<TextureVertex>)
        ensures
            vertices@ == self@.vertices,
    {
        &self.vertices
    }

    pub fn indices(&self) -> (indices: &Vec<u16>)
        ensures
            indices@ == self@.indices,
    {
        &self.indices
    }

    /// How many indices a draw of the background takes.
    pub fn indices_count(&self) -> (count: usize)
        ensures
            count == self@.indices.len(),
    {
        proof {
            use_type_invariant(self);
        }
        self.indices_count
    }

    /// The bytes that the index buffer of the background holds.
    pub fn index_buffer(&self) -> (bytes: Vec<u8>)
        ensures
            is_index_buffer(bytes@, self@.indices),
    {
        cast_indices(&self.indices)
    }

    /// How the picture is copied into its texture: whole, and the rows are
    /// exactly the bytes of the picture.
    pub fn texture_upload(&self) -> (upload: TextureUpload)
        ensures
            upload == whole_upload(self@.image.width, self@.image.height),
            upload.bytes_per_row == 4 * self@.image.width,
            upload.bytes_per_row * upload.rows_per_image == self@.image.pixels.len(),
    {
        proof {
            use_type_invariant(self);
        }
        texture_upload(&self.image)
    }
}

/// The renderer of the menu.
pub struct MenuRenderer {
    viewport: (u32, u32),
    vertices: Vec<ColorVertex>,
    indices: Vec<u16>,
    indices_count: usize,
    background: Background,
}

pub struct MenuRendererView {
    /// The size of the surface that text and meshes are projected to.
    pub viewport: (u32, u32),
    /// The mesh of the box that frames the text.
    pub vertices: Seq<ColorVertex>,
    pub indices: Seq<u16>,
    pub background: BackgroundView,
}

impl View for MenuRenderer {
    type V = MenuRendererView;

    closed spec fn view(&self) -> MenuRendererView {
        MenuRendererView {
            viewport: self.viewport,
            vertices: self.vertices@,
            indices: self.indices@,
            background: self.background@,
        }
    }
}

/// The menu on a surface of `surface` pixels, with `image` behind it and a
/// box with a padding of 15 and a band of 15 round the text at `origin` with
/// the extent `extent`.
pub open spec fn menu_of(
    image: RgbaImageView,
    origin: (u32, u32),
    extent: (u32, u32),
    surface: (u32, u32),
) -> MenuRendererView {
    MenuRendererView {
        viewport: surface,
        vertices: text_box_vertices(origin, extent, 15, 15),
        indices: text_box_indices(0),
        background: background_of(image, surface),
    }
}

/// Every index of the two meshes of a menu names a vertex of its mesh: the
/// text box has 24 indices over 16 vertices, the background 6 over 4.
pub proof fn lemma_menu_meshes_are_indexed(
    image: RgbaImageView,
    origin: (u32, u32),
    extent: (u32, u32),
    surface: (u32, u32),
)
    ensures
        ({
            let menu = menu_of(image, origin, extent, surface);
            &&& menu.vertices.len() == 16
            &&& menu.indices.len() == 24
            &&& indices_in_bounds(menu.indices, 16)
            &&& menu.background.vertices.len() == 4
            &&& menu.background.indices.len() == 6
            &&& indices_in_bounds(menu.background.indices, 4)
        }),
{
    lemma_text_box_indices_name_own_vertices(0);
    lemma_quad_indices_name_own_vertices(0);
}

/// The decoder gave a picture that a menu can show: one whose rows fit in
/// 32 bits.
pub open spec fn has_background(decoded: Option<RgbaImageView>) -> bool {
    decoded matches Some(image) && 4 * image.width <= u32::MAX
}

/// `menu` is the menu made from the decoded picture `decoded`: there is a
/// picture that a menu can show, and the menu is `menu_of` it.
pub open spec fn is_menu_of(
    menu: MenuRendererView,
    decoded: Option<RgbaImageView>,
    origin: (u32, u32),
    extent: (u32, u32),
    surface: (u32, u32),
) -> bool {
    &&& has_background(decoded)
    &&& menu == menu_of(decoded.unwrap(), origin, extent, surface)
}

/// The commands that draw the menu: the background with the texture
/// pipeline, the text box with the colour pipeline, then the text. Each mesh
/// is drawn once, with all its indices.
pub open spec fn menu_commands(background_indices: nat, indices: nat) -> Seq<DrawCommand> {
    seq![
        DrawCommand::SetPipeline { pipeline: Pipeline::Texture },
        DrawCommand::SetBindGroup { index: 0, mesh: Mesh::MenuBackground },
        DrawCommand::SetVertexBuffer { slot: 0, mesh: Mesh::MenuBackground },
        DrawCommand::SetIndexBuffer { mesh: Mesh::MenuBackground },
        DrawCommand::DrawIndexed {
            indices: (0, background_indices as u32),
            base_vertex: 0,
            instances: (0, 1),
        },
        DrawCommand::SetPipeline { pipeline: Pipeline::Color },
        DrawCommand::SetBindGroup { index: 0, mesh: Mesh::MenuTextBox },
        DrawCommand::SetVertexBuffer { slot: 0, mesh: Mesh::MenuTextBox },
        DrawCommand::SetIndexBuffer { mesh: Mesh::MenuTextBox },
        DrawCommand::DrawIndexed { indices: (0, indices as u32), base_vertex: 0, instances: (0, 1) },
        DrawCommand::DrawText,
    ]
}

impl MenuRenderer {
    #[verifier::type_invariant]
    spec fn well_formed(&self) -> bool {
        &&& self.indices_count == self.indices@.len()
        &&& self.indices@.len() <= u32::MAX
        &&& self.background@.indices.len() <= u32::MAX
    }

    /// The menu for a surface of `surface` pixels, from the picture that the
    /// decoder gave, if it gave one.
    ///
    /// The text lies at `origin` with the extent `extent`, and the box round
    /// it has to fit. There is a menu if there is a picture and a row of it
    /// fits in 32 bits.
    pub fn from_decoded(
        logic: &MenuLogic,
        decoded: Option<RgbaImage>,
        origin: (u32, u32),
        extent: (u32, u32),
        surface: (u32, u32),
    ) -> (renderer: Option<Self>)
        requires
            text_box_fits(origin, extent, 15, 15),
        ensures
            renderer.is_some() <==> (decoded matches Some(image) && 4 * image@.width
                <= u32::MAX),
            renderer matches Some(r) ==> r@ == menu_of(
                decoded.unwrap()@,
                origin,
                extent,
                surface,
            ),
    {
        let image = match decoded {
            Some(image) => image,
            None => {
                return None;
            },
        };
        if image.width() > u32::MAX / 4 {
            return None;
        }
        let mut vertices: Vec<ColorVertex> = Vec::new();
        let mut indices: Vec<u16> = Vec::new();

        draw_text_box(&mut vertices, &mut indices, origin, extent, 15, 15);
        let indices_count = indices.len();
        assert(vertices@ =~= text_box_vertices(origin, extent, 15, 15));
        assert(indices@ =~= text_box_indices(0));

        let background = Background::new(image, surface);

        return Some(Self { viewport: surface, vertices, indices, indices_count, background });
    }

    /// The menu for a surface of `surface` pixels, with the picture that
    /// `diffuse_bytes` encode behind it.
    ///
    /// The text lies at `origin` with the extent `extent`, and the box round
    /// it has to fit. The result is `menu_of` the decoded picture, or
    /// `None` where the decoder gives no picture, or one whose rows do not
    /// fit in 32 bits.
    pub fn new(
        logic: &MenuLogic,
        diffuse_bytes: &[u8],
        origin: (u32, u32),
        extent: (u32, u32),
        surface: (u32, u32),
    ) -> (renderer: Option<Self>)
        requires
            text_box_fits(origin, extent, 15, 15),
        ensures
            renderer.is_some() <==> has_background(decoded_rgba(diffuse_bytes@)),
            renderer matches Some(r) ==> is_menu_of(
                r@,
                decoded_rgba(diffuse_bytes@),
                origin,
                extent,
                surface,
            ),
    {
        let decoded = RgbaImage::decode(diffuse_bytes);
        return Self::from_decoded(logic, decoded, origin, extent, surface);
    }

    /// Looks at the menu's logic and takes nothing over.
    pub fn update(&mut self, logic: &MenuLogic)
        ensures
            *final(self) == *old(self),
    {
    }

    /// Takes `size` as the viewport. The meshes stay as they are.
    pub fn process_resize(&mut self, size: (u32, u32))
        ensures
            final(self)@ == (MenuRendererView { viewport: size, ..old(self)@ }),
    {
        proof {
            use_type_invariant(&*self);
        }
        self.viewport = size;
    }

    /// The commands that draw the menu.
    pub fn render(&self) -> (commands: Vec<DrawCommand>)
        ensures
            self@.background.indices.len() <= u32::MAX,
            self@.indices.len() <= u32::MAX,
            commands@ == menu_commands(self@.background.indices.len(), self@.indices.len()),
    {
        proof {
            use_type_invariant(self);
        }
        let background_indices: u32 = self.background.indices_count() as u32;
        let indices: u32 = self.indices_count as u32;
        let mut commands: Vec<DrawCommand> = Vec::new();

        commands.push(DrawCommand::SetPipeline { pipeline: Pipeline::Texture });
        commands.push(DrawCommand::SetBindGroup { index: 0, mesh: Mesh::MenuBackground });
        commands.push(DrawCommand::SetVertexBuffer { slot: 0, mesh: Mesh::MenuBackground });
        commands.push(DrawCommand::SetIndexBuffer { mesh: Mesh::MenuBackground });
        commands.push(
            DrawCommand::DrawIndexed {
                indices: (0, background_indices),
                base_vertex: 0,
                instances: (0, 1),
            },
        );

        commands.push(DrawCommand::SetPipeline { pipeline: Pipeline::Color });
        commands.push(DrawCommand::SetBindGroup { index: 0, mesh: Mesh::MenuTextBox });
        commands.push(DrawCommand::SetVertexBuffer { slot: 0, mesh: Mesh::MenuTextBox });
        commands.push(DrawCommand::SetIndexBuffer { mesh: Mesh::MenuTextBox });
        commands.push(
            DrawCommand::DrawIndexed { indices: (0, indices), base_vertex: 0, instances: (0, 1) },
        );

        commands.push(DrawCommand::DrawText);
        assert(commands@ =~= menu_commands(
            self@.background.indices.len(),
            self@.indices.len(),
        ));
        return commands;
    }

    /// The size of the surface that text and meshes are projected to.
    pub fn viewport(&self) -> (viewport: (u32, u32))
        ensures
            viewport == self@.viewport,
    {
        self.viewport
    }

    pub fn vertices(&self) -> (vertices: &Vec<ColorVertex>)
        ensures
            vertices@ == self@.vertices,
    {
        &self.vertices
    }

    pub fn indices(&self) -> (indices: &Vec<u16>)
        ensures
            indices@ == self@.indices,
    {
        &self.indices
    }

    /// How many indices a draw of the text box takes.
    pub fn indices_count(&self) -> (count: usize)
        ensures
            count == self@.indices.len(),
    {
        proof {
            use_type_invariant(self);
        }
        self.indices_count
    }

    /// The bytes that the index buffer of the text box holds.
    pub fn index_buffer(&self) -> (bytes: Vec<u8>)
        ensures
            is_index_buffer(bytes@, self@.indices),
    {
        cast_indices(&self.indices)
    }

    pub fn background(&self) -> (background: &Background)
        ensures
            background@ == self@.background,
    {
        &self.background
    }
}

} // verus!
