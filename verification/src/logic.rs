//! The logic of the four screens, and the dispatch of events and updates to
//! the screen that is active.

use vstd::prelude::*;
use crate::event::{ElementState, KeyEvent, MouseButton};
use crate::logic::edit::EditLogic;
use crate::logic::menu::MenuLogic;
use crate::logic::play::PlayLogic;
use crate::logic::victory::VictoryLogic;
use crate::sprint_the_game::{State, StateTransition};

pub mod edit;
pub mod menu;
pub mod play;
pub mod victory;

verus! {

pub struct Logic {
    pub menu: MenuLogic,
    pub play: PlayLogic,
    pub victory: VictoryLogic,
    pub edit: EditLogic,
}

impl Logic {
    /// The four screens, each as its own constructor makes it.
    pub fn new() -> (logic: Self)
        ensures
            logic.menu.level_buttons@ == crate::logic::menu::initial_level_buttons(),
    {
        return Self {
            menu: MenuLogic::new(),
            play: PlayLogic::new(),
            victory: VictoryLogic::new(),
            edit: EditLogic::new(),
        };
    }

    /// Hands a key event to the screen that `state` names. No screen reacts
    /// to keys, so all four stay as they are.
    pub fn process_keyboard(&mut self, state: &State, key_event: KeyEvent)
        ensures
            *final(self) == *old(self),
    {
        match state {
            State::Menu => self.menu.process_keyboard(key_event),
            State::Play => self.play.process_keyboard(key_event),
            State::Victory => self.victory.process_keyboard(key_event),
            State::Edit => self.edit.process_keyboard(key_event),
        }
    }

    /// Hands a mouse button event to the screen that `state` names. No screen
    /// reacts to the mouse, so all four stay as they are.
    pub fn process_mouse(
        &mut self,
        state: &State,
        element_state: ElementState,
        mouse_button: MouseButton,
    )
        ensures
            *final(self) == *old(self),
    {
        match state {
            State::Menu => self.menu.process_mouse(element_state, mouse_button),
            State::Play => self.play.process_mouse(element_state, mouse_button),
            State::Victory => self.victory.process_mouse(element_state, mouse_button),
            State::Edit => self.edit.process_mouse(element_state, mouse_button),
        }
    }

    /// Advances the screen that `state` names by `delta_time` nanoseconds.
    /// No screen changes and none asks for another screen.
    pub fn update(&mut self, state: &State, transition: &mut StateTransition, delta_time: u64)
        ensures
            *final(self) == *old(self),
            *final(transition) == *old(transition),
    {
        match state {
            State::Menu => self.menu.update(delta_time, transition, &mut self.play, &mut self.edit),
            State::Play => self.play.update(delta_time, transition, &mut self.victory),
            State::Victory => self.victory.update(delta_time, transition, &mut self.play),
            State::Edit => self.edit.update(delta_time, transition, &mut self.menu),
        }
    }
}

} // verus!
