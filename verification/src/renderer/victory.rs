//! The renderer of the victory screen. It draws nothing yet.

use vstd::prelude::*;
use crate::logic::victory::VictoryLogic;
use crate::renderer::DrawCommand;

verus! {

pub struct VictoryRenderer {}

impl VictoryRenderer {
    pub fn new(logic: &VictoryLogic) -> (renderer: Self)
        ensures
            renderer == (VictoryRenderer {  }),
    {
        return Self {  };
    }

    /// Looks at the screen's logic and takes nothing over.
    pub fn update(&mut self, logic: &VictoryLogic)
        ensures
            *final(self) == *old(self),
    {
    }

    /// Takes the new size of the surface and keeps nothing of it.
    pub fn process_resize(&mut self, size: (u32, u32))
        ensures
            *final(self) == *old(self),
    {
    }

    /// The commands that draw the screen: none.
    pub fn render(&self) -> (commands: Vec<DrawCommand>)
        ensures
            commands@ == Seq::<DrawCommand>::empty(),
    {
        return Vec::new();
    }
}

} // verus!
