//! The menu screen and the level buttons it offers.

use vstd::prelude::*;
use crate::event::{ElementState, KeyEvent, MouseButton};
use crate::logic::edit::EditLogic;
use crate::logic::play::PlayLogic;
use crate::sprint_the_game::StateTransition;

verus! {

/// A button that starts a level, with the pixel position of its corner.
#[derive(Debug, Clone, Copy, PartialEq, Eq)]
pub struct LevelButton {
    pub id: u32,
    pub position: (u32, u32),
}

pub struct MenuLogic {
    pub level_buttons: Vec<LevelButton>,
}

/// The buttons of a fresh menu: level 0 at (25, 25), level 1 at (300, 300).
pub open spec fn initial_level_buttons() -> Seq<LevelButton> {
    seq![
        LevelButton { id: 0, position: (25, 25) },
        LevelButton { id: 1, position: (300, 300) },
    ]
}

impl MenuLogic {
    pub fn new() -> (logic: Self)
        ensures
            logic.level_buttons@ == initial_level_buttons(),
    {
        let mut level_buttons: Vec<LevelButton> = Vec::new();
        level_buttons.push(LevelButton { id: 0, position: (25, 25) });
        level_buttons.push(LevelButton { id: 1, position: (300, 300) });
        assert(level_buttons@ =~= initial_level_buttons());
        return Self { level_buttons };
    }

    /// Takes a key event. No key is bound to anything, so the menu stays as
    /// it is.
    pub fn process_keyboard(&mut self, key_event: KeyEvent)
        ensures
            *final(self) == *old(self),
    {
        match key_event {
            KeyEvent { physical_key, state, .. } => match physical_key {
                _ => {},
            },
        }
    }

    /// Takes a mouse button event and ignores it.
    pub fn process_mouse(&mut self, element_state: ElementState, mouse_button: MouseButton)
        ensures
            *final(self) == *old(self),
    {
    }

    /// Advances the screen by `delta_time` nanoseconds. Nothing moves yet and
    /// no other screen is asked for.
    pub fn update(
        &mut self,
        delta_time: u64,
        transition: &mut StateTransition,
        play: &mut PlayLogic,
        edit: &mut EditLogic,
    )
        ensures
            *final(self) == *old(self),
            *final(transition) == *old(transition),
            *final(play) == *old(play),
            *final(edit) == *old(edit),
    {
    }
}

} // verus!
