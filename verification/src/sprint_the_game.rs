//! The screen state machine and the application that drives it.

use vstd::prelude::*;
use crate::event::{ElementState, KeyEvent, MouseButton};
use crate::logic::Logic;
use crate::renderer::menu::{has_background, is_menu_of, MenuRendererView};
use crate::renderer::utils::text_box_fits;
use crate::renderer::utils::texture::decoded_rgba;
use crate::renderer::{Frame, Renderer};
use crate::renderer::utils::palette::BLACK;

verus! {

/// The screen the application shows. Exactly one is active at a time.
#[derive(Debug, PartialEq, Eq, Clone, Copy, Structural)]
pub enum State {
    Menu,
    Play,
    Victory,
    Edit,
}

/// The screen that becomes active when the running update is over.
pub struct StateTransition {
    next_state: State,
}

impl View for StateTransition {
    type V = State;

    closed spec fn view(&self) -> State {
        self.next_state
    }
}

impl StateTransition {
    /// A transition that stays on the menu.
    pub fn new() -> (transition: Self)
        ensures
            transition@ == State::Menu,
    {
        return Self { next_state: State::Menu };
    }

    /// Asks for `state` as the next screen; an earlier request is forgotten.
    pub fn set_next_state(&mut self, state: State)
        ensures
            final(self)@ == state,
    {
        self.next_state = state;
    }

    /// The screen asked for last, or the menu if none was.
    pub fn next_state(&self) -> (state: State)
        ensures
            state == self@,
    {
        self.next_state
    }
}

/// The game: the active screen, the screen asked for next, and the logic
/// and the renderers of all screens.
pub struct Application {
    state: State,
    transition: StateTransition,
    logic: Logic,
    renderer: Renderer,
}

impl Application {
    /// The active screen.
    pub closed spec fn spec_state(&self) -> State {
        self.state
    }

    /// The screen that the next update makes the active one.
    pub closed spec fn spec_next_state(&self) -> State {
        self.transition@
    }

    pub closed spec fn spec_logic(&self) -> Logic {
        self.logic
    }

    pub closed spec fn spec_renderer(&self) -> Renderer {
        self.renderer
    }

    /// The game as it starts, on the menu, for a surface of `surface`
    /// pixels.
    ///
    /// `diffuse_bytes` is the encoded picture behind the menu; `origin` and
    /// `extent` say where the menu's text lies, and the box round it has to
    /// fit. The result is `None` where the decoder gives no picture that a
    /// menu can show.
    pub fn new(
        diffuse_bytes: &[u8],
        origin: (u32, u32),
        extent: (u32, u32),
        surface: (u32, u32),
    ) -> (application: Option<Self>)
        requires
            text_box_fits(origin, extent, 15, 15),
        ensures
            application.is_some() <==> has_background(decoded_rgba(diffuse_bytes@)),
            application matches Some(a) ==> {
                &&& a.spec_state() == State::Menu
                &&& a.spec_next_state() == State::Menu
                &&& a.spec_logic().menu.level_buttons@
                    == crate::logic::menu::initial_level_buttons()
                &&& is_menu_of(
                    a.spec_renderer().menu@,
                    decoded_rgba(diffuse_bytes@),
                    origin,
                    extent,
                    surface,
                )
            },
    {
        let state = State::Menu;
        let transition = StateTransition::new();
        let logic = Logic::new();
        let renderer = match Renderer::new(
            &logic.menu,
            &logic.play,
            &logic.victory,
            &logic.edit,
            diffuse_bytes,
            origin,
            extent,
            surface,
        ) {
            Some(renderer) => renderer,
            None => {
                return None;
            },
        };

        return Some(Self { state, transition, logic, renderer });
    }

    /// Hands a key event to the active screen. The game stays as it is.
    pub fn process_keyboard(&mut self, key_event: KeyEvent)
        ensures
            *final(self) == *old(self),
    {
        self.logic.process_keyboard(&self.state, key_event);
    }

    /// Hands a mouse button event to the active screen. The game stays as it
    /// is.
    pub fn process_mouse(&mut self, element_state: ElementState, mouse_button: MouseButton)
        ensures
            *final(self) == *old(self),
    {
        self.logic.process_mouse(&self.state, element_state, mouse_button);
    }

    /// Advances the game by `delta_time` nanoseconds: the active screen is
    /// updated, then its renderer, and then the screen that was asked for
    /// becomes the active one.
    pub fn update(&mut self, delta_time: u64)
        ensures
            final(self).spec_state() == old(self).spec_next_state(),
            final(self).spec_next_state() == old(self).spec_next_state(),
            final(self).spec_logic() == old(self).spec_logic(),
            final(self).spec_renderer() == old(self).spec_renderer(),
    {
        self.logic.update(&self.state, &mut self.transition, delta_time);
        self.renderer.update(
            &self.state,
            &self.logic.menu,
            &self.logic.play,
            &self.logic.victory,
            &self.logic.edit,
        );

        self.state = self.transition.next_state;
    }

    /// Tells the renderers that the surface now has `size` pixels. The menu
    /// takes `size` as its viewport; nothing else changes.
    pub fn process_resize(&mut self, size: (u32, u32))
        ensures
            final(self).spec_state() == old(self).spec_state(),
            final(self).spec_next_state() == old(self).spec_next_state(),
            final(self).spec_logic() == old(self).spec_logic(),
            final(self).spec_renderer().menu@ == (MenuRendererView {
                viewport: size,
                ..old(self).spec_renderer().menu@
            }),
            final(self).spec_renderer().play == old(self).spec_renderer().play,
            final(self).spec_renderer().victory == old(self).spec_renderer().victory,
            final(self).spec_renderer().edit == old(self).spec_renderer().edit,
    {
        self.renderer.process_resize(size);
    }

    /// Composes a frame of the active screen.
    pub fn render(&self) -> (frame: Frame)
        ensures
            frame.clear == BLACK,
            frame.commands@ == self.spec_renderer().commands(self.spec_state()),
    {
        return self.renderer.render(&self.state);
    }

    /// The active screen.
    pub fn state(&self) -> (state: State)
        ensures
            state == self.spec_state(),
    {
        self.state
    }

    pub fn logic(&self) -> (logic: &Logic)
        ensures
            *logic == self.spec_logic(),
    {
        &self.logic
    }

    pub fn renderer(&self) -> (renderer: &Renderer)
        ensures
            *renderer == self.spec_renderer(),
    {
        &self.renderer
    }
}

} // verus!
