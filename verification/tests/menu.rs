use sprint_the_game::event::{ElementState, KeyEvent, MouseButton};
use sprint_the_game::logic::menu::MenuLogic;
use sprint_the_game::logic::Logic;
use sprint_the_game::renderer::menu::{Background, MenuRenderer};
use sprint_the_game::renderer::utils::texture::{texture_upload, RgbaImage, TextureUpload};
use sprint_the_game::renderer::{
    ColorVertex, DrawCommand, Mesh, Pipeline, Renderer, TextureVertex,
};
use sprint_the_game::sprint_the_game::{Application, State};

/// A PNG of 2 by 2 pixels with red, green, blue and opacity.
fn rgba_png() -> Vec<u8> {
    vec![
        137, 80, 78, 71, 13, 10, 26, 10, 0, 0, 0, 13,
        73, 72, 68, 82, 0, 0, 0, 2, 0, 0, 0, 2,
        8, 6, 0, 0, 0, 114, 182, 13, 36, 0, 0, 0,
        23, 73, 68, 65, 84, 120, 218, 99, 248, 207, 192, 240,
        31, 8, 27, 24, 128, 180, 3, 151, 136, 156, 6, 0,
        55, 233, 5, 33, 56, 8, 107, 13, 0, 0, 0, 0,
        73, 69, 78, 68, 174, 66, 96, 130,
    ]
}

/// A PNG of 3 by 1 pixels in shades of grey.
fn grey_png() -> Vec<u8> {
    vec![
        137, 80, 78, 71, 13, 10, 26, 10, 0, 0, 0, 13,
        73, 72, 68, 82, 0, 0, 0, 3, 0, 0, 0, 1,
        8, 0, 0, 0, 0, 62, 139, 75, 104, 0, 0, 0,
        12, 73, 68, 65, 84, 120, 218, 99, 96, 72, 249, 15,
        0, 1, 203, 1, 100, 111, 243, 1, 174, 0, 0, 0,
        0, 73, 69, 78, 68, 174, 66, 96, 130,
    ]
}

fn rgba_pixels() -> Vec<u8> {
    vec![255, 0, 0, 255, 0, 255, 0, 128, 0, 0, 255, 64, 10, 20, 30, 40]
}

fn native_bytes(indices: &[u16]) -> Vec<u8> {
    let mut bytes = Vec::new();
    for index in indices {
        bytes.extend_from_slice(&index.to_ne_bytes());
    }
    bytes
}

fn menu_frame(background_indices: u32, indices: u32) -> Vec<DrawCommand> {
    vec![
        DrawCommand::SetPipeline { pipeline: Pipeline::Texture },
        DrawCommand::SetBindGroup { index: 0, mesh: Mesh::MenuBackground },
        DrawCommand::SetVertexBuffer { slot: 0, mesh: Mesh::MenuBackground },
        DrawCommand::SetIndexBuffer { mesh: Mesh::MenuBackground },
        DrawCommand::DrawIndexed {
            indices: (0, background_indices),
            base_vertex: 0,
            instances: (0, 1),
        },
        DrawCommand::SetPipeline { pipeline: Pipeline::Color },
        DrawCommand::SetBindGroup { index: 0, mesh: Mesh::MenuTextBox },
        DrawCommand::SetVertexBuffer { slot: 0, mesh: Mesh::MenuTextBox },
        DrawCommand::SetIndexBuffer { mesh: Mesh::MenuTextBox },
        DrawCommand::DrawIndexed { indices: (0, indices), base_vertex: 0, instances: (0, 1) },
        DrawCommand::DrawText,
    ]
}

#[test]
fn decode_gives_size_and_pixels() {
    let image = RgbaImage::decode(&rgba_png()).unwrap();
    assert_eq!(image.width(), 2);
    assert_eq!(image.height(), 2);
    assert_eq!(image.pixels(), &rgba_pixels());
}

#[test]
fn decode_converts_grey_to_four_bytes_a_pixel() {
    let image = RgbaImage::decode(&grey_png()).unwrap();
    assert_eq!(image.width(), 3);
    assert_eq!(image.height(), 1);
    assert_eq!(
        image.pixels(),
        &vec![0, 0, 0, 255, 100, 100, 100, 255, 255, 255, 255, 255]
    );
}

#[test]
fn decode_gives_nothing_for_other_bytes() {
    assert!(RgbaImage::decode(&[]).is_none());
    assert!(RgbaImage::decode(b"no picture at all").is_none());
    let mut cut = rgba_png();
    cut.truncate(40);
    assert!(RgbaImage::decode(&cut).is_none());
}

#[test]
fn from_raw_wants_four_bytes_for_each_pixel() {
    let image = RgbaImage::from_raw(2, 2, rgba_pixels()).unwrap();
    assert_eq!(image.width(), 2);
    assert_eq!(image.height(), 2);
    assert_eq!(image.pixels(), &rgba_pixels());

    assert!(RgbaImage::from_raw(2, 2, vec![0; 15]).is_none());
    assert!(RgbaImage::from_raw(2, 2, vec![0; 17]).is_none());
    assert!(RgbaImage::from_raw(2, 2, vec![0; 20]).is_none());
    assert!(RgbaImage::from_raw(1, 4, vec![0; 16]).is_some());
    assert!(RgbaImage::from_raw(0, 9, Vec::new()).is_some());
    assert!(RgbaImage::from_raw(u32::MAX, u32::MAX, Vec::new()).is_none());
    assert!(RgbaImage::from_raw(1 << 31, 1 << 31, Vec::new()).is_none());
}

#[test]
fn upload_copies_whole_rows() {
    let image = RgbaImage::from_raw(3, 2, vec![7; 24]).unwrap();
    assert_eq!(
        texture_upload(&image),
        TextureUpload {
            width: 3,
            height: 2,
            depth_or_array_layers: 1,
            offset: 0,
            bytes_per_row: 12,
            rows_per_image: 2,
        }
    );
    let widest = RgbaImage::from_raw(u32::MAX / 4, 0, Vec::new()).unwrap();
    assert_eq!(texture_upload(&widest).bytes_per_row, u32::MAX - 3);
}

#[test]
fn background_fills_the_surface() {
    let image = RgbaImage::decode(&rgba_png()).unwrap();
    let background = Background::new(image, (1280, 720));
    assert_eq!(
        background.vertices(),
        &vec![
            TextureVertex { position: (0, 0), texture: (0, 0) },
            TextureVertex { position: (1280, 0), texture: (1, 0) },
            TextureVertex { position: (0, 720), texture: (0, 1) },
            TextureVertex { position: (1280, 720), texture: (1, 1) },
        ]
    );
    assert_eq!(background.indices(), &vec![0, 1, 2, 2, 1, 3]);
    assert_eq!(background.indices_count(), 6);
    assert_eq!(background.index_buffer(), native_bytes(&[0, 1, 2, 2, 1, 3]));
    assert_eq!(background.image().pixels(), &rgba_pixels());
    let upload = background.texture_upload();
    assert_eq!((upload.width, upload.height, upload.depth_or_array_layers), (2, 2, 1));
    assert_eq!((upload.offset, upload.bytes_per_row, upload.rows_per_image), (0, 8, 2));
}

#[test]
fn menu_holds_text_box_and_background() {
    let logic = MenuLogic::new();
    let menu = MenuRenderer::new(&logic, &rgba_png(), (240, 140), (800, 160), (1280, 720)).unwrap();

    assert_eq!(menu.viewport(), (1280, 720));
    assert_eq!(menu.vertices().len(), 16);
    assert_eq!(
        menu.vertices()[0],
        ColorVertex { position: (206, 106), color: (255, 255, 240, 255) }
    );
    assert_eq!(
        menu.vertices()[3],
        ColorVertex { position: (1074, 334), color: (255, 255, 240, 255) }
    );
    assert_eq!(menu.vertices()[4], ColorVertex { position: (208, 108), color: (0, 0, 0, 255) });
    assert_eq!(
        menu.vertices()[11],
        ColorVertex { position: (1057, 317), color: (255, 255, 240, 255) }
    );
    assert_eq!(menu.vertices()[12], ColorVertex { position: (225, 125), color: (0, 0, 139, 255) });
    assert_eq!(
        menu.vertices()[15],
        ColorVertex { position: (1055, 315), color: (0, 0, 139, 255) }
    );
    let indices: Vec<u16> =
        vec![0, 1, 2, 2, 1, 3, 4, 5, 6, 6, 5, 7, 8, 9, 10, 10, 9, 11, 12, 13, 14, 14, 13, 15];
    assert_eq!(menu.indices(), &indices);
    assert_eq!(menu.indices_count(), 24);
    assert_eq!(menu.index_buffer(), native_bytes(&indices));
    assert_eq!(menu.index_buffer().len(), 48);

    assert_eq!(menu.background().image().width(), 2);
    assert_eq!(menu.background().vertices()[3].position, (1280, 720));
    assert_eq!(menu.background().indices_count(), 6);
}

#[test]
fn menu_needs_a_picture_with_rows_that_fit() {
    let logic = MenuLogic::new();
    assert!(MenuRenderer::new(&logic, b"no picture", (100, 100), (10, 10), (640, 480)).is_none());
    assert!(MenuRenderer::from_decoded(&logic, None, (100, 100), (10, 10), (640, 480)).is_none());

    let too_wide = RgbaImage::from_raw((1 << 30) + 5, 0, Vec::new());
    assert!(too_wide.is_some());
    assert!(
        MenuRenderer::from_decoded(&logic, too_wide, (100, 100), (10, 10), (640, 480)).is_none()
    );

    let widest = RgbaImage::from_raw((1 << 30) - 1, 0, Vec::new());
    let menu = MenuRenderer::from_decoded(&logic, widest, (34, 34), (0, 0), (0, 0)).unwrap();
    assert_eq!(menu.vertices()[0].position, (0, 0));
    assert_eq!(menu.vertices()[3].position, (68, 68));
    assert_eq!(menu.background().texture_upload().bytes_per_row, u32::MAX - 3);
}

#[test]
fn menu_draws_background_then_box_then_text() {
    let logic = MenuLogic::new();
    let menu = MenuRenderer::new(&logic, &grey_png(), (100, 100), (10, 10), (640, 480)).unwrap();
    assert_eq!(menu.render(), menu_frame(6, 24));
}

#[test]
fn menu_resize_changes_only_the_viewport() {
    let logic = MenuLogic::new();
    let mut menu =
        MenuRenderer::new(&logic, &rgba_png(), (100, 100), (10, 10), (640, 480)).unwrap();
    let vertices = menu.vertices().clone();
    let indices = menu.indices().clone();
    let background = menu.background().vertices().clone();

    menu.process_resize((800, 600));
    menu.update(&logic);

    assert_eq!(menu.viewport(), (800, 600));
    assert_eq!(menu.vertices(), &vertices);
    assert_eq!(menu.indices(), &indices);
    assert_eq!(menu.background().vertices(), &background);
    assert_eq!(menu.background().vertices()[3].position, (640, 480));
}

#[test]
fn only_the_menu_draws() {
    let logic = Logic::new();
    let renderer = Renderer::new(
        &logic.menu,
        &logic.play,
        &logic.victory,
        &logic.edit,
        &rgba_png(),
        (100, 100),
        (10, 10),
        (640, 480),
    )
    .unwrap();

    let frame = renderer.render(&State::Menu);
    assert_eq!(frame.clear, (0, 0, 0));
    assert_eq!(frame.commands, menu_frame(6, 24));
    for state in [State::Play, State::Victory, State::Edit].iter() {
        let frame = renderer.render(state);
        assert_eq!(frame.clear, (0, 0, 0));
        assert!(frame.commands.is_empty());
    }
    assert!(renderer.play.render().is_empty());
    assert!(renderer.victory.render().is_empty());
    assert!(renderer.edit.render().is_empty());
}

#[test]
fn renderer_update_and_resize() {
    let logic = Logic::new();
    let mut renderer = Renderer::new(
        &logic.menu,
        &logic.play,
        &logic.victory,
        &logic.edit,
        &rgba_png(),
        (100, 100),
        (10, 10),
        (640, 480),
    )
    .unwrap();
    for state in [State::Menu, State::Play, State::Victory, State::Edit].iter() {
        renderer.update(state, &logic.menu, &logic.play, &logic.victory, &logic.edit);
    }
    renderer.process_resize((1, 2));
    assert_eq!(renderer.menu.viewport(), (1, 2));
    assert_eq!(renderer.menu.indices_count(), 24);
    assert_eq!(renderer.render(&State::Menu).commands, menu_frame(6, 24));
}

#[test]
fn renderer_needs_a_picture() {
    let logic = Logic::new();
    let renderer = Renderer::new(
        &logic.menu,
        &logic.play,
        &logic.victory,
        &logic.edit,
        &[1, 2, 3],
        (100, 100),
        (10, 10),
        (640, 480),
    );
    assert!(renderer.is_none());
    assert!(Application::new(&[], (100, 100), (10, 10), (640, 480)).is_none());
}

#[test]
fn application_stays_on_the_menu() {
    let mut application =
        Application::new(&rgba_png(), (240, 140), (800, 160), (1280, 720)).unwrap();
    assert_eq!(application.state(), State::Menu);
    assert_eq!(application.logic().menu.level_buttons.len(), 2);
    assert_eq!(application.renderer().menu.viewport(), (1280, 720));

    application.process_keyboard(KeyEvent {
        physical_key: None,
        state: ElementState::Pressed,
        repeat: true,
    });
    application.process_mouse(ElementState::Pressed, MouseButton::Left);
    application.update(16_666_667);
    application.update(0);
    assert_eq!(application.state(), State::Menu);
    assert_eq!(application.logic().play.get_current_level_id(), 0);

    application.process_resize((1920, 1080));
    assert_eq!(application.state(), State::Menu);
    assert_eq!(application.renderer().menu.viewport(), (1920, 1080));
    assert_eq!(application.renderer().menu.background().vertices()[3].position, (1280, 720));

    let frame = application.render();
    assert_eq!(frame.clear, (0, 0, 0));
    assert_eq!(frame.commands, menu_frame(6, 24));
}
