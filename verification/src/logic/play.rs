//! The play screen. No level is loaded yet: the current level is always 0.

use vstd::prelude::*;
use crate::event::{ElementState, KeyEvent, MouseButton};
use crate::logic::victory::VictoryLogic;
use crate::sprint_the_game::StateTransition;

verus! {

pub struct PlayLogic {}

impl PlayLogic {
    pub fn new() -> (logic: Self)
        ensures
            logic == (PlayLogic {  }),
    {
        return Self {  };
    }

    /// The level being played, which is always level 0.
    pub fn get_current_level_id(&self) -> (id: u32)
        ensures
            id == 0,
    {
        return 0;
    }

    /// Keeps the screen as it is, whatever `id` is.
    pub fn set_current_level_id(&mut self, id: u32)
        ensures
            *final(self) == *old(self),
    {
    }

    /// Keeps the screen as it is.
    pub fn reload_current_level(&mut self)
        ensures
            *final(self) == *old(self),
    {
    }

    /// Keeps the screen as it is.
    pub fn move_to_next_level(&mut self)
        ensures
            *final(self) == *old(self),
    {
    }

    /// Takes a key event and ignores it.
    pub fn process_keyboard(&mut self, key_event: KeyEvent)
        ensures
            *final(self) == *old(self),
    {
    }

    /// Takes a mouse button event and ignores it.
    pub fn process_mouse(&mut self, element_state: ElementState, mouse_button: MouseButton)
        ensures
            *final(self) == *old(self),
    {
    }

    /// Advances the screen by `delta_time` nanoseconds. Nothing moves yet and
    /// no other screen is asked for.
    pub fn update(
        &mut self,
        delta_time: u64,
        transition: &mut StateTransition,
        victory: &mut VictoryLogic,
    )
        ensures
            *final(self) == *old(self),
            *final(transition) == *old(transition),
            *final(victory) == *old(victory),
    {
    }
}

} // verus!
