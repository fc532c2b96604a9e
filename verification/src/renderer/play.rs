//! The renderer of the play screen. It draws nothing yet.

use vstd::prelude::*;
use crate::logic::play::PlayLogic;
use crate::renderer::DrawCommand;

verus! {

pub struct PlayRenderer {}

impl PlayRenderer {
    pub fn new(logic: &PlayLogic) -> (renderer: Self)
        ensures
            renderer == (PlayRenderer {  }),
    {
        return Self {  };
    }

    /// Looks at the screen's logic and takes nothing over.
    pub fn update(&mut self, logic: &PlayLogic)
        ensures
            *final(self) == *old(self),
    {
    }

    /// Takes the new size of the surface and keeps nothing of it.
    pub fn process_resize(&mut self, size: (u32, u32))
        ensures
            *final(self) == *old(self),
    {
    }

    /// The commands that draw the screen: none.
    pub fn render(&self) -> (commands: Vec<DrawCommand>)
        ensures
            commands@ == Seq::<DrawCommand>::empty(),
    {
        return Vec::new();
    }
}

} // verus!
