//! The level editor screen.

use vstd::prelude::*;
use crate::event::{ElementState, KeyEvent, MouseButton};
use crate::logic::menu::MenuLogic;
use crate::sprint_the_game::StateTransition;

verus! {

pub struct EditLogic {}

impl EditLogic {
    pub fn new() -> (logic: Self)
        ensures
            logic == (EditLogic {  }),
    {
        return Self {  };
    }

    /// Takes a key event and ignores it.
    pub fn process_keyboard(&mut self, key_event: KeyEvent)
        ensures
            *final(self) == *old(self),
    {
    }

    /// Takes a mouse button event and ignores it.
    pub fn process_mouse(&mut self, element_state: ElementState, mouse_button: MouseButton)
        ensures
            *final(self) == *old(self),
    {
    }

    /// Advances the screen by `delta_time` nanoseconds. Nothing moves yet and
    /// no other screen is asked for.
    pub fn update(
        &mut self,
        delta_time: u64,
        transition: &mut StateTransition,
        menu: &mut MenuLogic,
    )
        ensures
            *final(self) == *old(self),
            *final(transition) == *old(transition),
            *final(menu) == *old(menu),
    {
    }
}

} // verus!
